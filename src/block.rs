use vstd::prelude::*;

verus! {

/// Length of the replica key at the head of a block.
pub const KEY_LEN: usize = 32;

/// Offset of the byte that carries the low byte of the layer index.
pub const LAYER_OFFSET: usize = 35;

/// Offset of the padding marker.
pub const PADDING_OFFSET: usize = 64;

/// Offset of the length indicator (a 512-bit message).
pub const LENGTH_OFFSET: usize = 126;

/// The padding marker byte.
pub const PADDING_BYTE: u8 = 0x80;

/// The length indicator byte.
pub const LENGTH_BYTE: u8 = 0x02;

/// The buffer `buf` after the block header for `key` and `layer` is written
/// into it: the key at the front, the layer's low byte, the padding marker
/// and the length indicator; every other byte as it was.
pub open spec fn block_layout(buf: Seq<u8>, key: Seq<u8>, layer: u32) -> Seq<u8> {
    Seq::new(
        buf.len(),
        |i: int|
            if i < KEY_LEN {
                key[i]
            } else if i == LAYER_OFFSET {
                (layer & 0xFF) as u8
            } else if i == PADDING_OFFSET {
                PADDING_BYTE
            } else if i == LENGTH_OFFSET {
                LENGTH_BYTE
            } else {
                buf[i]
            },
    )
}

/// Writes the pre-hash block header for `replica_id` and `layer` into `buf`,
/// leaving every byte outside the header untouched.
pub fn prepare_block(replica_id: &[u8], layer: u32, buf: &mut [u8])
    requires
        replica_id@.len() == KEY_LEN,
        old(buf)@.len() > LENGTH_OFFSET,
    ensures
        final(buf)@ == block_layout(old(buf)@, replica_id@, layer),
{
    let mut i: usize = 0;
    while i < KEY_LEN
        invariant
            0 <= i <= KEY_LEN,
            replica_id@.len() == KEY_LEN,
            buf@.len() == old(buf)@.len(),
            old(buf)@.len() > LENGTH_OFFSET,
            forall|j: int| 0 <= j < i ==> #[trigger] buf@[j] == replica_id@[j],
            forall|j: int| i <= j < buf@.len() ==> #[trigger] buf@[j] == old(buf)@[j],
        decreases KEY_LEN - i,
    {
        buf[i] = replica_id[i];
        i = i + 1;
    }
    assert(layer & 0xFF <= 0xFF) by (bit_vector);
    buf[LAYER_OFFSET] = (layer & 0xFF) as u8;
    buf[PADDING_OFFSET] = PADDING_BYTE;
    buf[LENGTH_OFFSET] = LENGTH_BYTE;
    assert(buf@ =~= block_layout(old(buf)@, replica_id@, layer));
}

/// Sets every byte of `slice` to `value`.
pub fn memset(slice: &mut [u8], value: u8)
    ensures
        final(slice)@ == Seq::new(old(slice)@.len(), |i: int| value),
{
    let n = slice.len();
    let mut i: usize = 0;
    while i < n
        invariant
            0 <= i <= n,
            n == old(slice)@.len(),
            slice@.len() == n,
            forall|j: int| 0 <= j < i ==> #[trigger] slice@[j] == value,
        decreases n - i,
    {
        slice[i] = value;
        i = i + 1;
    }
    assert(slice@ =~= Seq::new(old(slice)@.len(), |i: int| value));
}

} // verus!
