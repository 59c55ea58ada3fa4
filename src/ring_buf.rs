use vstd::prelude::*;

verus! {

/// Fixed storage for a sliding window of labels: `num_slots` slots of
/// `slot_size` bytes each, in one contiguous run of bytes. The buffer has no
/// position of its own; which slot holds which label is up to the caller.
#[derive(Debug)]
pub struct RingBuf {
    data: Vec<u8>,
    slot_size: usize,
    num_slots: usize,
}

/// Where slot `s` begins, for slots of `slot_size` bytes.
pub open spec fn slot_start(slot_size: int, s: int) -> int {
    s * slot_size
}

/// The bytes of slot `s` within `bytes`.
pub open spec fn slot_bytes(bytes: Seq<u8>, slot_size: int, s: int) -> Seq<u8> {
    bytes.subrange(slot_start(slot_size, s), slot_start(slot_size, s + 1))
}

/// Slot `s` of a buffer of `num_slots` slots spans exactly `slot_size` bytes
/// from `s * slot_size`, lies inside the buffer, and shares no byte with any
/// other slot.
pub proof fn lemma_slot_layout(slot_size: int, num_slots: int, s: int, t: int)
    requires
        0 <= slot_size,
        0 <= s < num_slots,
        0 <= t < num_slots,
    ensures
        slot_start(slot_size, s) == s * slot_size,
        slot_start(slot_size, s + 1) - slot_start(slot_size, s) == slot_size,
        0 <= slot_start(slot_size, s),
        slot_start(slot_size, s + 1) <= slot_size * num_slots,
        s != t ==> slot_start(slot_size, s + 1) <= slot_start(slot_size, t) || slot_start(
            slot_size,
            t + 1,
        ) <= slot_start(slot_size, s),
{
    assert((s + 1) * slot_size == s * slot_size + slot_size) by (nonlinear_arith);
    assert((t + 1) * slot_size == t * slot_size + slot_size) by (nonlinear_arith);
    assert(0 <= s * slot_size) by (nonlinear_arith)
        requires
            0 <= s,
            0 <= slot_size,
    ;
    assert((s + 1) * slot_size <= slot_size * num_slots) by (nonlinear_arith)
        requires
            s + 1 <= num_slots,
            0 <= slot_size,
    ;
    if s < t {
        assert((s + 1) * slot_size <= t * slot_size) by (nonlinear_arith)
            requires
                s + 1 <= t,
                0 <= slot_size,
        ;
    } else if t < s {
        assert((t + 1) * slot_size <= s * slot_size) by (nonlinear_arith)
            requires
                t + 1 <= s,
                0 <= slot_size,
        ;
    }
}

impl RingBuf {
    /// All bytes of the buffer, slot after slot.
    pub closed spec fn view(&self) -> Seq<u8> {
        self.data@
    }

    /// Size of one slot in bytes.
    pub closed spec fn spec_slot_size(&self) -> int {
        self.slot_size as int
    }

    /// Number of slots.
    pub closed spec fn spec_num_slots(&self) -> int {
        self.num_slots as int
    }

    /// The bytes are exactly the slots laid end to end.
    pub open spec fn wf(&self) -> bool {
        &&& 0 <= self.spec_slot_size()
        &&& 0 <= self.spec_num_slots()
        &&& self@.len() == self.spec_slot_size() * self.spec_num_slots()
    }

    /// A buffer of `num_slots` slots of `slot_size` bytes, all zero.
    pub fn new(slot_size: usize, num_slots: usize) -> (r: Self)
        requires
            slot_size * num_slots <= usize::MAX,
        ensures
            r.wf(),
            r.spec_slot_size() == slot_size,
            r.spec_num_slots() == num_slots,
            r@ == Seq::new((slot_size * num_slots) as nat, |i: int| 0u8),
    {
        let data = vec![0u8; slot_size * num_slots];
        let r = RingBuf { data, slot_size, num_slots };
        assert(r@ =~= Seq::new((slot_size * num_slots) as nat, |i: int| 0u8));
        r
    }

    /// Total number of bytes.
    pub fn len(&self) -> (r: usize)
        requires
            self.wf(),
        ensures
            r == self@.len(),
    {
        self.data.len()
    }

    /// All bytes, for writing.
    fn slice_mut(&mut self) -> (r: &mut [u8])
        ensures
            r@ == old(self)@,
            final(self)@ == final(r)@,
            final(self).spec_slot_size() == old(self).spec_slot_size(),
            final(self).spec_num_slots() == old(self).spec_num_slots(),
    {
        self.data.as_mut_slice()
    }

    /// The `slot_size` bytes of slot `slot`, starting at `slot * slot_size`,
    /// for writing; the other slots stay as they are.
    pub fn slot_mut(&mut self, slot: usize) -> (r: &mut [u8])
        requires
            old(self).wf(),
            slot < old(self).spec_num_slots(),
        ensures
            r@ == slot_bytes(old(self)@, old(self).spec_slot_size(), slot as int),
            final(self)@ == old(self)@.subrange(0, slot_start(old(self).spec_slot_size(), slot as int))
                + final(r)@
                + old(self)@.subrange(slot_start(old(self).spec_slot_size(), slot + 1), old(self)@.len() as int),
            final(self).spec_slot_size() == old(self).spec_slot_size(),
            final(self).spec_num_slots() == old(self).spec_num_slots(),
    {
        let ss = self.slot_size;
        proof {
            let n = self.num_slots as int;
            assert(ss * slot + ss <= ss * n) by (nonlinear_arith)
                requires
                    slot < n,
            ;
            assert(ss * n == self.data.len());
            assert(slot * ss == ss * slot) by (nonlinear_arith);
            assert((slot + 1) * ss == ss * slot + ss) by (nonlinear_arith);
        }
        let start = ss * slot;
        let whole = self.slice_mut();
        let (_, rest) = whole.split_at_mut(start);
        let (s, _) = rest.split_at_mut(ss);
        s
    }

    /// Every slot, in ascending order, for writing: entry `j` holds the
    /// bytes of slot `j`, and the slots together cover the buffer with no gap
    /// and no overlap.
    pub fn iter_slot_mut(&mut self) -> (r: Vec<&mut [u8]>)
        requires
            old(self).wf(),
        ensures
            r@.len() == old(self).spec_num_slots(),
            forall|j: int|
                0 <= j < r@.len() ==> #[trigger] r@[j]@ == slot_bytes(
                    old(self)@,
                    old(self).spec_slot_size(),
                    j,
                ),
            final(self)@ == Seq::new(r@.len(), |j: int| final(r@[j])@).flatten(),
            final(self).spec_slot_size() == old(self).spec_slot_size(),
            final(self).spec_num_slots() == old(self).spec_num_slots(),
    {
        let ss = self.slot_size;
        let n = self.num_slots;
        let ghost bytes = self@;
        let whole = self.slice_mut();
        let ghost whole0 = whole;
        let mut rest: &mut [u8] = whole;
        let mut out: Vec<&mut [u8]> = Vec::new();
        let mut k: usize = 0;
        while k < n
            invariant
                0 <= k <= n,
                bytes.len() == ss * n,
                rest@ == bytes.subrange(ss * k, ss * n),
                out@.len() == k,
                forall|j: int| 0 <= j < k ==> #[trigger] out@[j]@ == slot_bytes(bytes, ss as int, j),
                final(whole0)@ == Seq::new(k as nat, |j: int| final(out@[j])@).flatten() + final(rest)@,
            decreases n - k,
        {
            proof {
                assert(ss * k + ss <= ss * n) by (nonlinear_arith)
                    requires
                        k < n,
                ;
                assert(ss * (k + 1) == ss * k + ss) by (nonlinear_arith);
                assert(k * ss == ss * k) by (nonlinear_arith);
                assert((k + 1) * ss == ss * k + ss) by (nonlinear_arith);
            }
            let (s, tail) = rest.split_at_mut(ss);
            let ghost done = Seq::new(k as nat, |j: int| final(out@[j])@);
            proof {
                done.lemma_flatten_push(final(s)@);
            }
            assert(s@ =~= slot_bytes(bytes, ss as int, k as int));
            out.push(s);
            assert(Seq::new((k + 1) as nat, |j: int| final(out@[j])@) =~= done.push(final(out@[k as int])@));
            rest = tail;
            k = k + 1;
        }
        assert(final(rest)@ == Seq::<u8>::empty());
        out
    }
}

} // verus!
