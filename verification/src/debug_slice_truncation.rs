//! Truncated rendering of slices.

use vstd::prelude::*;
use crate::debug_exact_size_truncation::{
    format_debug_exact_size_truncated_to_max_length,
    DEFAULT_EXACT_SIZE_DEBUG_FMT_MAX_ITEMS,
};
use crate::element::{debug_texts, DebugText};
use crate::listing::truncated_text;
use crate::source::{ExactSizeSource, SliceCursor};

verus! {

/// Renders `debug_slice`, showing at most `max_length` of its elements.
pub fn format_debug_slice_truncated_to_max_length<D: DebugText>(
    debug_slice: &[D],
    max_length: usize,
) -> (text: String)
    ensures
        text@ == truncated_text(debug_texts(debug_slice@), max_length as nat),
{
    let mut cursor = SliceCursor::new(debug_slice);
    assert(debug_texts(cursor.pending()) =~= debug_texts(debug_slice@));
    format_debug_exact_size_truncated_to_max_length(&mut cursor, max_length)
}

/// A borrowed slice bound to the maximum number of its elements to show.
///
/// The slice is only borrowed: it stays usable while the handle lives and
/// after it is gone.
pub struct TruncatedDebug<'slice, D: DebugText> {
    slice: &'slice [D],
    max_length: usize,
}

impl<'slice, D: DebugText> TruncatedDebug<'slice, D> {
    /// The elements of the bound slice.
    pub closed spec fn elements(self) -> Seq<D> {
        self.slice@
    }

    /// The maximum number of elements to show.
    pub closed spec fn max_length(self) -> usize {
        self.max_length
    }

    /// The text that the handle renders to.
    pub open spec fn rendering(self) -> Seq<char> {
        truncated_text(debug_texts(self.elements()), self.max_length() as nat)
    }

    /// Binds `slice` to the maximum `max_length`.
    pub fn with_max_length(slice: &'slice [D], max_length: usize) -> (handle: Self)
        ensures
            handle.elements() == slice@,
            handle.max_length() == max_length,
    {
        TruncatedDebug { slice, max_length }
    }

    /// Renders the bound slice at the bound maximum.
    pub fn format_debug_truncated_to_max_length(&self) -> (text: String)
        ensures
            text@ == self.rendering(),
    {
        format_debug_slice_truncated_to_max_length(self.slice, self.max_length)
    }
}

/// Binds `slice` to the default maximum,
/// `DEFAULT_EXACT_SIZE_DEBUG_FMT_MAX_ITEMS`.
pub fn truncated_debug<'slice, D: DebugText>(slice: &'slice [D]) -> (handle: TruncatedDebug<
    'slice,
    D,
>)
    ensures
        handle.elements() == slice@,
        handle.max_length() == DEFAULT_EXACT_SIZE_DEBUG_FMT_MAX_ITEMS,
{
    TruncatedDebug::with_max_length(slice, DEFAULT_EXACT_SIZE_DEBUG_FMT_MAX_ITEMS)
}

} // verus!
