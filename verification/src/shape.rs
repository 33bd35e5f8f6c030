//! Target shapes and decoded values.
//!
//! A `Shape` is the closed, tagged description of "what the caller's type
//! asks for" at one point of a decode: the counterpart of the open visitor
//! dispatch of a generic deserialization framework. A `Decoded` value is
//! the result tree that a decode assembles bottom-up.

use vstd::prelude::*;

verus! {

/// One named field of a struct-like target shape: a field-name label and
/// the shape the field's cell is decoded against. The label is positional
/// only; it is never used to search the row.
#[derive(Debug, PartialEq, Eq)]
pub struct Field {
    pub name: Vec<u8>,
    pub shape: Shape,
}

/// The structural classification of the type a cell or row is being
/// decoded into.
#[derive(Debug, PartialEq, Eq)]
pub enum Shape {
    /// A boolean scalar; integer cells coerce (zero is false).
    Boolean,
    /// A 64-bit signed integer scalar.
    Integer,
    /// A 64-bit floating-point scalar, carried as its raw bit pattern.
    Real,
    /// A unit value, produced from a null cell.
    Unit,
    /// A string; text cell bytes after UTF-8 validation.
    Text,
    /// An arbitrary byte sequence from a blob cell.
    Bytes,
    /// An optional value: null means absent, anything else is the wrapped
    /// inner decode of the same cell.
    Optional(Box<Shape>),
    /// A single-field wrapper: re-dispatches the same cell or row to the
    /// inner shape without consuming a traversal step.
    Newtype(Box<Shape>),
    /// A variable-length sequence of one element shape.
    Sequence(Box<Shape>),
    /// A fixed-arity tuple of element shapes.
    Tuple(Vec<Shape>),
    /// A struct with named fields, decoded in field-list order.
    Struct(Vec<Field>),
    /// An enumeration with named variants, matched by exact text equality.
    Enumeration(Vec<Vec<u8>>),
}

/// One decoded struct field: the field-name label and the decoded value.
#[derive(Debug, PartialEq, Eq)]
pub struct DecodedField {
    pub name: Vec<u8>,
    pub value: Decoded,
}

/// A fully decoded value, assembled bottom-up from the row's cells.
#[derive(Debug, PartialEq, Eq)]
pub enum Decoded {
    Unit,
    Boolean(bool),
    Integer(i64),
    /// The raw bit pattern of a 64-bit floating-point value.
    Real(u64),
    /// Well-formed UTF-8 bytes copied out of a text cell.
    Text(Vec<u8>),
    /// Bytes copied out of a blob cell.
    Bytes(Vec<u8>),
    /// An optional value that was absent (a null cell).
    Absent,
    /// An optional value that was present.
    Present(Box<Decoded>),
    /// A newtype wrapper around its inner decode.
    Newtype(Box<Decoded>),
    Sequence(Vec<Decoded>),
    Tuple(Vec<Decoded>),
    Struct(Vec<DecodedField>),
    /// The zero-based index of the matched enumeration variant.
    Variant(usize),
}

/// Structural equality of decoded values: equality of every scalar, byte
/// content, label and child, independent of how the backing vectors were
/// allocated.
pub open spec fn decoded_eq(a: Decoded, b: Decoded) -> bool
    decreases a,
{
    match (a, b) {
        (Decoded::Unit, Decoded::Unit) => true,
        (Decoded::Boolean(x), Decoded::Boolean(y)) => x == y,
        (Decoded::Integer(x), Decoded::Integer(y)) => x == y,
        (Decoded::Real(x), Decoded::Real(y)) => x == y,
        (Decoded::Text(x), Decoded::Text(y)) => x@ == y@,
        (Decoded::Bytes(x), Decoded::Bytes(y)) => x@ == y@,
        (Decoded::Absent, Decoded::Absent) => true,
        (Decoded::Present(x), Decoded::Present(y)) => decoded_eq(*x, *y),
        (Decoded::Newtype(x), Decoded::Newtype(y)) => decoded_eq(*x, *y),
        (Decoded::Sequence(x), Decoded::Sequence(y)) => {
            &&& x@.len() == y@.len()
            &&& forall|i: int| 0 <= i < x@.len() ==> decoded_eq(#[trigger] x@[i], y@[i])
        },
        (Decoded::Tuple(x), Decoded::Tuple(y)) => {
            &&& x@.len() == y@.len()
            &&& forall|i: int| 0 <= i < x@.len() ==> decoded_eq(#[trigger] x@[i], y@[i])
        },
        (Decoded::Struct(x), Decoded::Struct(y)) => {
            &&& x@.len() == y@.len()
            &&& forall|i: int| 0 <= i < x@.len() ==> {
                &&& (#[trigger] x@[i]).name@ == y@[i].name@
                &&& decoded_eq(x@[i].value, y@[i].value)
            }
        },
        (Decoded::Variant(x), Decoded::Variant(y)) => x == y,
        _ => false,
    }
}

} // verus!
