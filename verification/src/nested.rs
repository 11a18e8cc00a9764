//! Options and vectors of elements as elements.

use vstd::prelude::*;
use vstd::string::*;
use crate::debug_exact_size_truncation::append_debug_list;
use crate::element::{debug_texts, DebugText};
use crate::listing::list_text;
use crate::source::{ExactSizeSource, SliceCursor};

verus! {

/// An option is rendered as `None`, or as `Some(..)` around the text of
/// what it holds.
impl<T: DebugText> DebugText for Option<T> {
    open spec fn debug_text(&self) -> Seq<char> {
        match *self {
            None => "None"@,
            Some(inner) => "Some("@ + inner.debug_text() + ")"@,
        }
    }

    fn append_debug(&self, out: &mut String) {
        match self {
            None => {
                out.append("None");
            },
            Some(inner) => {
                out.append("Some(");
                inner.append_debug(out);
                out.append(")");
                assert(final(out)@ =~= old(out)@ + self.debug_text());
            },
        }
    }
}

/// A vector is rendered as the full bracketed listing of its elements,
/// whatever maximum holds for the sequence that it is an element of.
impl<T: DebugText> DebugText for Vec<T> {
    open spec fn debug_text(&self) -> Seq<char> {
        list_text(debug_texts(self@))
    }

    fn append_debug(&self, out: &mut String) {
        let mut cursor = SliceCursor::new(self.as_slice());
        let count = cursor.len();
        assert(debug_texts(cursor.pending().take(count as int)) =~= debug_texts(self@));
        append_debug_list(out, &mut cursor, count);
    }
}

} // verus!
