//! The one error type that every decoder returns.
use vstd::prelude::*;

verus! {

/// Why a decode stopped. The first error anywhere in a decode is returned to
/// the caller unchanged; nothing is retried and no partial value is kept.
#[derive(Clone, Debug, PartialEq, Eq)]
pub enum DecodeError {
    /// Fewer bytes remain than the decoder at hand needs.
    UnexpectedEof,
    /// The magic tag or the version behind it is none that is supported.
    TagMismatch,
    /// A name read from the input selects no known variant. Holds the name.
    UnknownVariant(String),
    /// A flags field has bits set outside the declared set. Holds the field.
    UnknownBitflags(u32),
    /// A section offset taken from a header lies behind the buffer's end.
    OffsetOutOfBounds,
    /// A numeric discriminant is none of its enumeration. Holds the number.
    UnknownDiscriminant(u32),
    /// A piece of text is not what the format asks for at its place: a
    /// number that is no number or too large, a missing quote or separator.
    Malformed,
}

/// The mathematical value of a [`DecodeError`].
pub enum DecodeErrorView {
    UnexpectedEof,
    TagMismatch,
    UnknownVariant(Seq<char>),
    UnknownBitflags(u32),
    OffsetOutOfBounds,
    UnknownDiscriminant(u32),
    Malformed,
}

impl View for DecodeError {
    type V = DecodeErrorView;

    open spec fn view(&self) -> DecodeErrorView {
        match self {
            DecodeError::UnexpectedEof => DecodeErrorView::UnexpectedEof,
            DecodeError::TagMismatch => DecodeErrorView::TagMismatch,
            DecodeError::UnknownVariant(tag) => DecodeErrorView::UnknownVariant(tag@),
            DecodeError::UnknownBitflags(raw) => DecodeErrorView::UnknownBitflags(*raw),
            DecodeError::OffsetOutOfBounds => DecodeErrorView::OffsetOutOfBounds,
            DecodeError::UnknownDiscriminant(raw) => DecodeErrorView::UnknownDiscriminant(*raw),
            DecodeError::Malformed => DecodeErrorView::Malformed,
        }
    }
}

impl DecodeError {
    /// A short English description of the error.
    pub fn describe(&self) -> (text: &'static str)
        ensures
            text@ == (match self@ {
                DecodeErrorView::UnexpectedEof => "unexpected end of input"@,
                DecodeErrorView::TagMismatch => "unsupported magic tag or version"@,
                DecodeErrorView::UnknownVariant(_) => "unknown variant name"@,
                DecodeErrorView::UnknownBitflags(_) => "unknown bits in a flags field"@,
                DecodeErrorView::OffsetOutOfBounds => "section offset out of bounds"@,
                DecodeErrorView::UnknownDiscriminant(_) => "unknown discriminant"@,
                DecodeErrorView::Malformed => "malformed text"@,
            }),
    {
        match self {
            DecodeError::UnexpectedEof => "unexpected end of input",
            DecodeError::TagMismatch => "unsupported magic tag or version",
            DecodeError::UnknownVariant(_) => "unknown variant name",
            DecodeError::UnknownBitflags(_) => "unknown bits in a flags field",
            DecodeError::OffsetOutOfBounds => "section offset out of bounds",
            DecodeError::UnknownDiscriminant(_) => "unknown discriminant",
            DecodeError::Malformed => "malformed text",
        }
    }
}

} // verus!
