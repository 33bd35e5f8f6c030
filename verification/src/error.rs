//! The decoding error taxonomy.
//!
//! Every failure of the engine is one of the kinds below; the kinds are
//! discriminated rather than carried as raw strings, and `message` renders
//! a human-readable description. A decode either fully succeeds or fails
//! with one of these errors; no partial result is ever produced.

use vstd::prelude::*;

verus! {

/// A framework-level decode complaint: the closed engine's counterpart of
/// the open catch-all message channel of a generic decoding framework.
#[derive(Debug, Clone, PartialEq, Eq)]
pub enum Complaint {
    /// The cell's kind does not fit the requested target shape (and no
    /// more specific kind below applies).
    KindMismatch,
    /// A text cell matched no declared enumeration variant name; carries
    /// the unmatched text and the expected variant name set.
    UnknownVariant { text: Vec<u8>, expected: Vec<Vec<u8>> },
    /// A fixed-arity tuple asked for more cells than the row has.
    WrongLength { expected: usize, found: usize },
}

/// An error of the row-decoding engine.
#[derive(Debug, Clone, PartialEq, Eq)]
pub enum Error {
    /// A positional entry was given a top-level shape that is not
    /// tuple-like (not a sequence, tuple, struct or a wrapper of one).
    TupleShapeMismatch,
    /// A named entry was given a top-level shape that is not struct-like.
    StructShapeMismatch,
    /// A text cell's bytes failed UTF-8 validation; carries the length of
    /// the longest well-formed prefix.
    InvalidUtf8 { valid_up_to: usize },
    /// The row/cell access layer failed to produce a cell that the
    /// traversal required.
    HostFailure,
    /// A framework-level complaint.
    Custom(Complaint),
}

impl Error {
    /// A human-readable description of the error kind.
    pub fn message(&self) -> (m: &'static str)
        ensures
            self is TupleShapeMismatch ==> m@ == "expected tuple-like base type"@,
            self is StructShapeMismatch ==> m@ == "expected struct-like base type"@,
            self is InvalidUtf8 ==> m@ == "invalid utf-8 in text cell"@,
            self is HostFailure ==> m@ == "row access failed"@,
            self matches Error::Custom(Complaint::KindMismatch) ==> m@
                == "cell kind does not fit the requested shape"@,
            self matches Error::Custom(Complaint::UnknownVariant { .. }) ==> m@
                == "text matches no declared enumeration variant"@,
            self matches Error::Custom(Complaint::WrongLength { .. }) ==> m@
                == "row has fewer cells than the tuple requires"@,
    {
        match self {
            Error::TupleShapeMismatch => "expected tuple-like base type",
            Error::StructShapeMismatch => "expected struct-like base type",
            Error::InvalidUtf8 { .. } => "invalid utf-8 in text cell",
            Error::HostFailure => "row access failed",
            Error::Custom(Complaint::KindMismatch) => "cell kind does not fit the requested shape",
            Error::Custom(Complaint::UnknownVariant { .. }) => {
                "text matches no declared enumeration variant"
            },
            Error::Custom(Complaint::WrongLength { .. }) => {
                "row has fewer cells than the tuple requires"
            },
        }
    }
}

} // verus!
