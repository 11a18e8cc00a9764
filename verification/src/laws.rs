//! What holds of every rendering.

use vstd::prelude::*;
use vstd::string::*;
use crate::debug_exact_size_truncation::ExactSizeIntoIterHolder;
use crate::debug_slice_truncation::TruncatedDebug;
use crate::element::{debug_texts, DebugText};
use crate::listing::{length_only_text, list_text, truncated_text, truncation_note};
use crate::source::ExactSizeSource;

verus! {

/// A sequence of `n` elements rendered at the maximum `m` is: the plain
/// listing of all its elements where `n <= m`, which takes in the empty
/// sequence at `m == 0`; the annotation, the listing of its first `m`
/// elements and `...` where `n > m > 0`; and `(length=n)` alone where
/// `n > 0` and `m == 0`.
pub proof fn lemma_rendering_by_cases(texts: Seq<Seq<char>>, max_length: nat)
    ensures
        texts.len() <= max_length ==> truncated_text(texts, max_length) == list_text(texts),
        texts.len() > max_length && max_length > 0 ==> truncated_text(texts, max_length)
            == truncation_note(texts.len(), max_length) + list_text(
            texts.take(max_length as int),
        ) + "..."@,
        texts.len() > 0 && max_length == 0 ==> truncated_text(texts, max_length)
            == length_only_text(texts.len()),
{
}

/// A rendering opens with `[` exactly where the sequence fits, and with the
/// `(` of an annotation exactly where it does not.
pub proof fn lemma_annotated_iff_too_long(texts: Seq<Seq<char>>, max_length: nat)
    ensures
        truncated_text(texts, max_length).len() > 0,
        texts.len() <= max_length <==> truncated_text(texts, max_length)[0] == '[',
        texts.len() > max_length <==> truncated_text(texts, max_length)[0] == '(',
{
    reveal_strlit("[");
    reveal_strlit("(length=");
}

/// The rendering is a function of the element texts and the maximum alone:
/// two sequences whose elements have the same texts, position by position,
/// render to the same text. So does one sequence rendered twice.
pub proof fn lemma_same_texts_same_rendering<A: DebugText, B: DebugText>(
    first: Seq<A>,
    second: Seq<B>,
    max_length: nat,
)
    requires
        first.len() == second.len(),
        forall|i: int| 0 <= i < first.len() ==> first[i].debug_text() == second[i].debug_text(),
    ensures
        truncated_text(debug_texts(first), max_length) == truncated_text(
            debug_texts(second),
            max_length,
        ),
{
    assert(debug_texts(first) =~= debug_texts(second));
}

/// A sequence with exactly as many elements as the maximum allows is not
/// truncated: its rendering is the plain listing, which opens with `[`.
pub proof fn lemma_boundary_is_not_truncated(texts: Seq<Seq<char>>, max_length: nat)
    requires
        texts.len() == max_length,
    ensures
        truncated_text(texts, max_length) == list_text(texts),
        truncated_text(texts, max_length)[0] == '[',
{
    lemma_annotated_iff_too_long(texts, max_length);
}

/// A source bound to a maximum renders as the source's pending elements do
/// at that maximum.
pub proof fn lemma_holder_renders_as_source<S>(
    holder: ExactSizeIntoIterHolder<S>,
    source: S,
    max_length: usize,
) where S: ExactSizeSource + Copy, S::Item: DebugText
    requires
        holder.source() == source,
        holder.max_length() == max_length,
    ensures
        holder.rendering() == truncated_text(debug_texts(source.pending()), max_length as nat),
{
}

/// A slice bound to a maximum renders as the slice does at that maximum.
pub proof fn lemma_handle_renders_as_slice<D: DebugText>(
    handle: TruncatedDebug<D>,
    elements: Seq<D>,
    max_length: usize,
)
    requires
        handle.elements() == elements,
        handle.max_length() == max_length,
    ensures
        handle.rendering() == truncated_text(debug_texts(elements), max_length as nat),
{
}

} // verus!
