//! The textual encodings of an identifier.

pub mod ascii;
pub mod radix16;
pub mod radix62;
