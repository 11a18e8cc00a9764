//! Truncated debug renderings of counted sequences.
//!
//! A sequence whose length is known up front is rendered as a bracketed,
//! comma-separated list. When it holds more elements than a chosen maximum,
//! only the leading elements are rendered and the text is annotated with the
//! full length and the number of elements shown.

pub mod decimal;
pub mod element;
pub mod source;
pub mod listing;
pub mod debug_exact_size_truncation;
pub mod debug_slice_truncation;
pub mod laws;
pub mod nested;
