//! Byte-level helpers shared by the record encodings.

use vstd::prelude::*;

verus! {

/// Appends every byte of `source` to `out`, in order.
pub fn append_bytes(out: &mut Vec<u8>, source: &[u8])
    ensures
        final(out)@ == old(out)@ + source@,
{
    let mut i: usize = 0;
    while i < source.len()
        invariant
            i <= source.len(),
            out@ == old(out)@ + source@.subrange(0, i as int),
        decreases source.len() - i,
    {
        out.push(source[i]);
        i += 1;
        assert(out@ =~= old(out)@ + source@.subrange(0, i as int));
    }
    assert(source@.subrange(0, source@.len() as int) =~= source@);
}

/// The 32 bytes of `bytes` that start at `offset`.
pub fn array32_at(bytes: &[u8], offset: usize) -> (field: [u8; 32])
    requires
        offset + 32 <= bytes@.len(),
    ensures
        field@ == bytes@.subrange(offset as int, offset + 32),
{
    let mut field = [0u8; 32];
    let len = bytes.len();
    let mut i: usize = 0;
    while i < 32
        invariant
            i <= 32,
            len == bytes@.len(),
            offset + 32 <= len,
            forall|k: int| 0 <= k < i ==> field@[k] == bytes@[offset + k],
        decreases 32 - i,
    {
        field[i] = bytes[offset + i];
        i += 1;
    }
    assert(field@ =~= bytes@.subrange(offset as int, offset + 32));
    field
}

} // verus!
