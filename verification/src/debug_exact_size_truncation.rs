//! Truncated rendering of one-pass sequences of known length.

use vstd::prelude::*;
use vstd::string::*;
use crate::decimal::append_decimal;
use crate::element::{debug_texts, DebugText};
use crate::listing::{joined, list_text, shown_count, truncated_text};
use crate::source::ExactSizeSource;

verus! {

/// Takes the next `max_count` elements from `source`, or all of them where
/// fewer are left, and appends their bracketed listing to `out`.
pub fn append_debug_list<S>(out: &mut String, source: &mut S, max_count: usize) where
    S: ExactSizeSource,
    S::Item: DebugText,
    ensures
        final(out)@ == old(out)@ + list_text(
            debug_texts(
                old(source).pending().take(
                    shown_count(old(source).pending().len(), max_count as nat) as int,
                ),
            ),
        ),
        final(source).pending() == old(source).pending().skip(
            shown_count(old(source).pending().len(), max_count as nat) as int,
        ),
{
    let ghost before = out@;
    let ghost all = source.pending();
    let length = source.len();
    let count = if length <= max_count {
        length
    } else {
        max_count
    };
    out.append("[");
    let mut taken: usize = 0;
    while taken < count
        invariant
            taken <= count <= all.len(),
            source.pending() == all.skip(taken as int),
            out@ == before + "["@ + joined(debug_texts(all.take(taken as int))),
        decreases count - taken,
    {
        let ghost so_far = out@;
        if taken > 0 {
            out.append(", ");
        }
        if let Some(item) = source.next() {
            item.append_debug(out);
        }
        taken = taken + 1;
        proof {
            let shown = debug_texts(all.take(taken as int));
            assert(shown.drop_last() =~= debug_texts(all.take(taken - 1)));
            assert(shown.last() == all[taken - 1].debug_text());
            assert(source.pending() =~= all.skip(taken as int));
            if taken > 1 {
                assert(out@ =~= so_far + ", "@ + shown.last());
            }
            assert(out@ =~= before + "["@ + joined(shown));
        }
    }
    out.append("]");
    assert(out@ =~= before + list_text(debug_texts(all.take(count as int))));
}

/// Renders the elements that `exact_size_source` still holds, showing at
/// most `max_length` of them.
///
/// The length is asked of the source before any element is taken, and no
/// element is taken that is not shown: the source is left with what follows
/// the shown elements.
pub fn format_debug_exact_size_truncated_to_max_length<S>(
    exact_size_source: &mut S,
    max_length: usize,
) -> (text: String) where S: ExactSizeSource, S::Item: DebugText
    ensures
        text@ == truncated_text(
            debug_texts(old(exact_size_source).pending()),
            max_length as nat,
        ),
        final(exact_size_source).pending() == old(exact_size_source).pending().skip(
            shown_count(old(exact_size_source).pending().len(), max_length as nat) as int,
        ),
{
    let ghost all = exact_size_source.pending();
    let length = exact_size_source.len();
    let mut text = String::new();
    if length <= max_length {
        append_debug_list(&mut text, exact_size_source, max_length);
        assert(all.take(length as int) =~= all);
    } else if max_length == 0 {
        text.append("(length=");
        append_decimal(&mut text, length as u128);
        text.append(")");
        assert(exact_size_source.pending() =~= all.skip(0));
    } else {
        text.append("(length=");
        append_decimal(&mut text, length as u128);
        text.append(" truncated to ");
        append_decimal(&mut text, max_length as u128);
        text.append(") ");
        append_debug_list(&mut text, exact_size_source, max_length);
        text.append("...");
        assert(debug_texts(all).take(max_length as int) =~= debug_texts(
            all.take(max_length as int),
        ));
    }
    assert(text@ =~= truncated_text(debug_texts(all), max_length as nat));
    text
}

/// The maximum number of elements shown where none was chosen. It is the
/// one default of the crate: sources and slices are bound to it alike.
pub const DEFAULT_EXACT_SIZE_DEBUG_FMT_MAX_ITEMS: usize = 42;

/// A source of known length bound to the maximum number of its elements to
/// show, so that the pair can be rendered wherever a text is wanted.
///
/// The holder renders a copy of its source and so never uses it up: bind a
/// source that borrows its elements, such as a cursor over a slice.
pub struct ExactSizeIntoIterHolder<S> {
    exact_size_into_iter: S,
    max_length: usize,
}

impl<S> ExactSizeIntoIterHolder<S> {
    /// The source that was bound.
    pub closed spec fn source(self) -> S {
        self.exact_size_into_iter
    }

    /// The maximum number of elements to show.
    pub closed spec fn max_length(self) -> usize {
        self.max_length
    }

    /// Binds `exact_size_into_iter` to the maximum `max_length`.
    pub fn with_max_length(exact_size_into_iter: S, max_length: usize) -> (holder: Self)
        ensures
            holder.source() == exact_size_into_iter,
            holder.max_length() == max_length,
    {
        ExactSizeIntoIterHolder { exact_size_into_iter, max_length }
    }
}

impl<S> ExactSizeIntoIterHolder<S> where S: ExactSizeSource + Copy, S::Item: DebugText {
    /// The text that the holder renders to.
    pub open spec fn rendering(self) -> Seq<char> {
        truncated_text(debug_texts(self.source().pending()), self.max_length() as nat)
    }

    /// Renders the bound source at the bound maximum.
    pub fn format_debug_truncated_to_max_length(&self) -> (text: String)
        ensures
            text@ == self.rendering(),
    {
        let mut source = self.exact_size_into_iter;
        format_debug_exact_size_truncated_to_max_length(&mut source, self.max_length)
    }
}

/// Binds `exact_size_into_iter` to the default maximum,
/// `DEFAULT_EXACT_SIZE_DEBUG_FMT_MAX_ITEMS`.
pub fn truncated_exact_size_debug_fmt<S>(exact_size_into_iter: S) -> (holder:
    ExactSizeIntoIterHolder<S>)
    ensures
        holder.source() == exact_size_into_iter,
        holder.max_length() == DEFAULT_EXACT_SIZE_DEBUG_FMT_MAX_ITEMS,
{
    ExactSizeIntoIterHolder::with_max_length(
        exact_size_into_iter,
        DEFAULT_EXACT_SIZE_DEBUG_FMT_MAX_ITEMS,
    )
}

} // verus!
