//! Strings that keep a short text in place and a long one on the heap, as those
//! of the `compact_str` crate do.

use vstd::prelude::*;

verus! {

/// The heap size of a string with a text of `len` bytes: the text, if the
/// string keeps it on the heap, and nothing if the text lies in place.
pub fn compact_string_heap_size(is_heap_allocated: bool, len: usize) -> (bytes: usize)
    ensures
        bytes == if is_heap_allocated {
            len
        } else {
            0
        },
{
    if is_heap_allocated {
        len
    } else {
        0
    }
}

} // verus!
