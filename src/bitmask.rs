use vstd::prelude::*;

verus! {

/// The number of positions a completion mask can track.
pub const MASK_WIDTH: usize = 32;

/// A set of completed positions in the current window: bit `i` is set once
/// position `i` is done. There is no way to clear a bit; a fresh mask is made
/// for each window.
#[derive(Clone, Copy, Debug, PartialEq, Eq, Structural)]
pub struct BitMask(pub u32);

/// Whether bit `i` of `w` is set.
pub open spec fn bit_of(w: u32, i: int) -> bool {
    0 <= i < 32 && (w >> (i as u32)) & 1u32 == 1u32
}

impl BitMask {
    /// The set of positions marked complete.
    pub open spec fn view(self) -> Set<int> {
        Set::new(|i: int| bit_of(self.0, i))
    }

    /// A mask with no position set.
    pub fn new() -> (r: BitMask)
        ensures
            r@ == Set::<int>::empty(),
    {
        let r = BitMask(0);
        assert forall|i: int| !bit_of(0u32, i) by {
            if 0 <= i < 32 {
                let k = i as u32;
                assert((0u32 >> k) & 1u32 == 0u32) by (bit_vector);
            }
        }
        assert(r@ =~= Set::<int>::empty());
        r
    }

    /// Sets the first `n` bits, keeping those already set.
    pub fn set_upto(&mut self, n: u8)
        requires
            n <= 32,
        ensures
            final(self)@ == old(self)@ + Set::new(|i: int| 0 <= i < n),
    {
        let m: u32 = if n == 32 {
            0xFFFF_FFFFu32
        } else {
            let nn = n as u32;
            assert(1u32 << nn >= 1u32) by (bit_vector)
                requires
                    nn < 32,
            ;
            (1u32 << nn) - 1
        };
        let w = self.0;
        let r = w | m;
        assert forall|i: int| 0 <= i < 32 implies bit_of(r, i) == (bit_of(w, i) || i < n) by {
            let k = i as u32;
            let nn = n as u32;
            if n == 32 {
                assert(((w | 0xFFFF_FFFFu32) >> k) & 1u32 == 1u32) by (bit_vector)
                    requires
                        k < 32,
                ;
            } else {
                assert(((w | (((1u32 << nn) - 1u32) as u32)) >> k) & 1u32 == 1u32 <==> ((w >> k) & 1u32
                    == 1u32 || k < nn)) by (bit_vector)
                    requires
                        k < 32,
                        nn < 32,
                ;
            }
        }
        self.0 = r;
        assert(self@ =~= old(self)@ + Set::new(|i: int| 0 <= i < n));
    }

    /// Sets bit `i`, keeping the others.
    pub fn set(&mut self, i: usize)
        requires
            i < 32,
        ensures
            final(self)@ == old(self)@.insert(i as int),
    {
        let w = self.0;
        let r = w | (1u32 << i);
        assert forall|j: int| 0 <= j < 32 implies bit_of(r, j) == (bit_of(w, j) || j == i) by {
            let k = j as u32;
            let ii = i as u32;
            assert(((w | (1u32 << ii)) >> k) & 1u32 == 1u32 <==> ((w >> k) & 1u32 == 1u32 || k
                == ii)) by (bit_vector)
                requires
                    k < 32,
                    ii < 32,
            ;
        }
        self.0 = r;
        assert(self@ =~= old(self)@.insert(i as int));
    }

    /// Whether bit `i` is set.
    pub fn get(self, i: usize) -> (r: bool)
        requires
            i < 32,
        ensures
            r == self@.contains(i as int),
    {
        let w = self.0;
        let ii = i as u32;
        let r = w & (1u32 << ii) != 0;
        assert(r == ((w >> ii) & 1u32 == 1u32)) by (bit_vector)
            requires
                ii < 32,
                r == (w & (1u32 << ii) != 0),
        ;
        r
    }
}

impl Default for BitMask {
    /// A mask with no position set.
    fn default() -> (r: BitMask)
        ensures
            r@ == Set::<int>::empty(),
    {
        BitMask::new()
    }
}

} // verus!
