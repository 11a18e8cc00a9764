//! Elements that have a debug text.

use vstd::prelude::*;
use vstd::string::*;
use crate::decimal::{append_decimal, append_signed_decimal, decimal_text, signed_decimal_text};

verus! {

/// A value with a textual debug representation.
///
/// `debug_text` is the representation as a sequence of characters;
/// `append_debug` writes exactly that text at the end of a buffer.
pub trait DebugText {
    /// The debug representation of the value.
    spec fn debug_text(&self) -> Seq<char>;

    /// Appends the debug representation of the value to `out`.
    fn append_debug(&self, out: &mut String)
        ensures
            final(out)@ == old(out)@ + self.debug_text(),
    ;
}

/// The debug texts of a sequence of elements, in order.
pub open spec fn debug_texts<D: DebugText>(items: Seq<D>) -> Seq<Seq<char>> {
    Seq::new(items.len(), |i: int| items[i].debug_text())
}

/// A reference is rendered as the value it points to.
impl<T: DebugText> DebugText for &T {
    open spec fn debug_text(&self) -> Seq<char> {
        (**self).debug_text()
    }

    fn append_debug(&self, out: &mut String) {
        (**self).append_debug(out)
    }
}

/// A truth value is rendered as `true` or `false`.
impl DebugText for bool {
    open spec fn debug_text(&self) -> Seq<char> {
        if *self {
            "true"@
        } else {
            "false"@
        }
    }

    fn append_debug(&self, out: &mut String) {
        if *self {
            out.append("true");
        } else {
            out.append("false");
        }
    }
}

/// An unsigned integer is rendered in decimal.
impl DebugText for u8 {
    open spec fn debug_text(&self) -> Seq<char> {
        decimal_text(*self as nat)
    }

    fn append_debug(&self, out: &mut String) {
        append_decimal(out, *self as u128)
    }
}

/// An unsigned integer is rendered in decimal.
impl DebugText for u16 {
    open spec fn debug_text(&self) -> Seq<char> {
        decimal_text(*self as nat)
    }

    fn append_debug(&self, out: &mut String) {
        append_decimal(out, *self as u128)
    }
}

/// An unsigned integer is rendered in decimal.
impl DebugText for u32 {
    open spec fn debug_text(&self) -> Seq<char> {
        decimal_text(*self as nat)
    }

    fn append_debug(&self, out: &mut String) {
        append_decimal(out, *self as u128)
    }
}

/// An unsigned integer is rendered in decimal.
impl DebugText for u64 {
    open spec fn debug_text(&self) -> Seq<char> {
        decimal_text(*self as nat)
    }

    fn append_debug(&self, out: &mut String) {
        append_decimal(out, *self as u128)
    }
}

/// An unsigned integer is rendered in decimal.
impl DebugText for u128 {
    open spec fn debug_text(&self) -> Seq<char> {
        decimal_text(*self as nat)
    }

    fn append_debug(&self, out: &mut String) {
        append_decimal(out, *self as u128)
    }
}

/// An unsigned integer is rendered in decimal.
impl DebugText for usize {
    open spec fn debug_text(&self) -> Seq<char> {
        decimal_text(*self as nat)
    }

    fn append_debug(&self, out: &mut String) {
        append_decimal(out, *self as u128)
    }
}

/// A signed integer is rendered in decimal, with a leading `-` where negative.
impl DebugText for i8 {
    open spec fn debug_text(&self) -> Seq<char> {
        signed_decimal_text(*self as int)
    }

    fn append_debug(&self, out: &mut String) {
        append_signed_decimal(out, *self as i128)
    }
}

/// A signed integer is rendered in decimal, with a leading `-` where negative.
impl DebugText for i16 {
    open spec fn debug_text(&self) -> Seq<char> {
        signed_decimal_text(*self as int)
    }

    fn append_debug(&self, out: &mut String) {
        append_signed_decimal(out, *self as i128)
    }
}

/// A signed integer is rendered in decimal, with a leading `-` where negative.
impl DebugText for i32 {
    open spec fn debug_text(&self) -> Seq<char> {
        signed_decimal_text(*self as int)
    }

    fn append_debug(&self, out: &mut String) {
        append_signed_decimal(out, *self as i128)
    }
}

/// A signed integer is rendered in decimal, with a leading `-` where negative.
impl DebugText for i64 {
    open spec fn debug_text(&self) -> Seq<char> {
        signed_decimal_text(*self as int)
    }

    fn append_debug(&self, out: &mut String) {
        append_signed_decimal(out, *self as i128)
    }
}

/// A signed integer is rendered in decimal, with a leading `-` where negative.
impl DebugText for i128 {
    open spec fn debug_text(&self) -> Seq<char> {
        signed_decimal_text(*self as int)
    }

    fn append_debug(&self, out: &mut String) {
        append_signed_decimal(out, *self as i128)
    }
}

/// A signed integer is rendered in decimal, with a leading `-` where negative.
impl DebugText for isize {
    open spec fn debug_text(&self) -> Seq<char> {
        signed_decimal_text(*self as int)
    }

    fn append_debug(&self, out: &mut String) {
        append_signed_decimal(out, *self as i128)
    }
}

} // verus!
