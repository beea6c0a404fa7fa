//! The bounds-checked view: the single seam through which every header and
//! payload read passes. No other function in the library touches the frame's
//! bytes directly.

use vstd::prelude::*;
use vstd::slice::slice_subrange;

verus! {

/// Returns a read-only view of `len` bytes of the frame starting at `offset`,
/// or `None` when that range does not lie inside the frame.
pub fn ptr_at<'a>(frame: &'a [u8], offset: usize, len: usize) -> (r: Option<&'a [u8]>)
    ensures
        r is Some <==> offset + len <= frame@.len(),
        r matches Some(view) ==> view@ == frame@.subrange(offset as int, offset + len),
{
    if offset <= frame.len() && len <= frame.len() - offset {
        Some(slice_subrange(frame, offset, offset + len))
    } else {
        None
    }
}

} // verus!
