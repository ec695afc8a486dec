//! The primitive decoders and the combinators that every format is built of.
pub mod combinator;
pub mod complete;
pub mod flags;
pub mod multi;
pub mod number;
pub mod string;
pub mod text;
