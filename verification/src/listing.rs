//! The text of a truncated listing, as a function of the element texts.

use vstd::prelude::*;
use crate::decimal::decimal_text;

verus! {

/// The element texts in order, with `", "` between neighbours.
pub open spec fn joined(texts: Seq<Seq<char>>) -> Seq<char>
    decreases texts.len(),
{
    if texts.len() == 0 {
        Seq::empty()
    } else if texts.len() == 1 {
        texts[0]
    } else {
        joined(texts.drop_last()) + ", "@ + texts.last()
    }
}

/// The bracketed listing of all the given element texts: `[e0, e1, ...]`,
/// and `[]` for none.
pub open spec fn list_text(texts: Seq<Seq<char>>) -> Seq<char> {
    "["@ + joined(texts) + "]"@
}

/// The text that stands for a non-empty sequence of which nothing may be
/// shown: `(length=N)`.
pub open spec fn length_only_text(length: nat) -> Seq<char> {
    "(length="@ + decimal_text(length) + ")"@
}

/// The annotation in front of a shortened listing:
/// `(length=N truncated to M) `, with its trailing space.
pub open spec fn truncation_note(length: nat, max_length: nat) -> Seq<char> {
    "(length="@ + decimal_text(length) + " truncated to "@ + decimal_text(max_length) + ") "@
}

/// How many elements a rendering shows: all of them where they fit, and
/// the first `max_length` otherwise.
pub open spec fn shown_count(length: nat, max_length: nat) -> nat {
    if length <= max_length {
        length
    } else {
        max_length
    }
}

/// The rendering of a sequence with the given element texts, at most
/// `max_length` of which may be shown.
///
/// A sequence that fits (an empty one does so even at `max_length == 0`) is
/// listed in full, without annotation. A longer one is annotated with its
/// length and the maximum, followed by the listing of its first `max_length`
/// elements and `...`; at `max_length == 0` only its length is given.
pub open spec fn truncated_text(texts: Seq<Seq<char>>, max_length: nat) -> Seq<char> {
    if texts.len() <= max_length {
        list_text(texts)
    } else if max_length == 0 {
        length_only_text(texts.len())
    } else {
        truncation_note(texts.len(), max_length) + list_text(texts.take(max_length as int))
            + "..."@
    }
}

} // verus!
