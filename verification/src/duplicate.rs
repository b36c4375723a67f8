//! When a file found at the destination counts as the picture itself.

use vstd::prelude::*;

verus! {

/// Two files count as the same picture exactly when they are equally long.
/// Their bytes are not compared: pictures of one length and different
/// content pass for the same.
pub open spec fn same_picture(source_length: u64, target_length: u64) -> bool {
    source_length == target_length
}

/// Tells whether a source of `source_length` bytes and a file of
/// `target_length` bytes at its destination count as the same picture.
pub fn is_same(source_length: u64, target_length: u64) -> (same: bool)
    ensures
        same == same_picture(source_length, target_length),
{
    source_length == target_length
}

} // verus!
