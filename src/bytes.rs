//! Byte-buffer helpers.

use vstd::prelude::*;

verus! {

/// Appends the bytes of `src` to `dest`.
pub fn append_bytes(dest: &mut Vec<u8>, src: &[u8])
    ensures
        final(dest)@ == old(dest)@ + src@,
{
    dest.extend_from_slice(src);
    assert(dest@ =~= old(dest)@ + src@);
}

} // verus!
