//! The cell adapter: decoding one cell against a target shape.
//!
//! Three specification relations pin the adapter down completely:
//! `cell_ok` says exactly when a cell decodes against a shape, `cell_val`
//! says what value the decode produces, and `cell_err` says which error is
//! reported when it cannot. `decode_cell` is the executable adapter,
//! proved sound and complete against all three.

use vstd::prelude::*;

use crate::bytes::bytes_eq;
use crate::bytes::copy_byte_vecs;
use crate::bytes::copy_bytes;
use crate::cell::Cell;
use crate::error::Complaint;
use crate::error::Error;
use crate::shape::Decoded;
use crate::shape::Shape;
use crate::utf8::is_utf8;
use crate::utf8::utf8_scan;
use crate::utf8::validate_utf8;

verus! {

/// When does a cell decode successfully against a shape?
///
/// - a boolean target takes exactly the integer cells (the documented
///   coercion), an integer target the integer cells, a real target the
///   real cells, a unit target the null cell;
/// - a string target takes a text cell whose bytes are well-formed UTF-8,
///   a byte-sequence target a blob cell;
/// - an option takes null (absent) or whatever its inner shape takes;
/// - a newtype re-dispatches the same cell to its inner shape;
/// - an enumeration takes a well-formed text cell whose content equals
///   one of the declared variant names, byte for byte;
/// - aggregates (sequence, tuple, struct) can never be produced from one
///   bare cell.
pub open spec fn cell_ok(c: Cell, s: Shape) -> bool
    decreases s,
{
    match s {
        Shape::Boolean => c is Integer,
        Shape::Integer => c is Integer,
        Shape::Real => c is Real,
        Shape::Unit => c is Null,
        Shape::Text => c matches Cell::Text(b) && is_utf8(b@),
        Shape::Bytes => c is Blob,
        Shape::Optional(inner) => c is Null || cell_ok(c, *inner),
        Shape::Newtype(inner) => cell_ok(c, *inner),
        Shape::Sequence(_) => false,
        Shape::Tuple(_) => false,
        Shape::Struct(_) => false,
        Shape::Enumeration(variants) => c matches Cell::Text(b) && is_utf8(b@)
            && (exists|i: int| 0 <= i < variants@.len() && (#[trigger] variants@[i])@ == b@),
    }
}

/// The value a successful decode produces. Each case pins the result
/// uniquely (up to `decoded_eq`): scalars carry the cell's value, with
/// zero-is-false coercion for booleans; text and blob results carry the
/// cell's bytes; an enumeration result carries the index of the first
/// variant name equal to the text.
pub open spec fn cell_val(c: Cell, s: Shape, d: Decoded) -> bool
    decreases s,
{
    match s {
        Shape::Boolean => c matches Cell::Integer(v) && d == Decoded::Boolean(v != 0),
        Shape::Integer => c matches Cell::Integer(v) && d == Decoded::Integer(v),
        Shape::Real => c matches Cell::Real(bits) && d == Decoded::Real(bits),
        Shape::Unit => c is Null && d is Unit,
        Shape::Text => c matches Cell::Text(b) && is_utf8(b@)
            && (d matches Decoded::Text(t) && t@ == b@),
        Shape::Bytes => c matches Cell::Blob(b) && (d matches Decoded::Bytes(t) && t@ == b@),
        Shape::Optional(inner) => if c is Null {
            d is Absent
        } else {
            d matches Decoded::Present(x) && cell_val(c, *inner, *x)
        },
        Shape::Newtype(inner) => d matches Decoded::Newtype(x) && cell_val(c, *inner, *x),
        Shape::Sequence(_) => false,
        Shape::Tuple(_) => false,
        Shape::Struct(_) => false,
        Shape::Enumeration(variants) => c matches Cell::Text(b) && is_utf8(b@)
            && (d matches Decoded::Variant(i) && i < variants@.len() && variants@[i as int]@ == b@
                && (forall|j: int| 0 <= j < i ==> (#[trigger] variants@[j])@ != b@)),
    }
}

/// The error reported when a cell's kind does not fit a flat (scalar,
/// string or byte-sequence) shape: a text cell with ill-formed bytes
/// fails UTF-8 validation first; every other wrong kind is a kind
/// mismatch.
pub open spec fn flat_mismatch_err(c: Cell, e: Error) -> bool {
    match c {
        Cell::Text(b) => if is_utf8(b@) {
            e == Error::Custom(Complaint::KindMismatch)
        } else {
            e matches Error::InvalidUtf8 { valid_up_to } && valid_up_to == utf8_scan(b@, 0)
        },
        _ => e == Error::Custom(Complaint::KindMismatch),
    }
}

/// Which error a failing cell decode reports.
pub open spec fn cell_err(c: Cell, s: Shape, e: Error) -> bool
    decreases s,
{
    match s {
        Shape::Boolean => flat_mismatch_err(c, e),
        Shape::Integer => flat_mismatch_err(c, e),
        Shape::Real => flat_mismatch_err(c, e),
        Shape::Unit => flat_mismatch_err(c, e),
        Shape::Text => flat_mismatch_err(c, e),
        Shape::Bytes => flat_mismatch_err(c, e),
        Shape::Optional(inner) => !(c is Null) && cell_err(c, *inner, e),
        Shape::Newtype(inner) => cell_err(c, *inner, e),
        Shape::Sequence(_) => e == Error::Custom(Complaint::KindMismatch),
        Shape::Tuple(_) => e == Error::Custom(Complaint::KindMismatch),
        Shape::Struct(_) => e == Error::Custom(Complaint::KindMismatch),
        Shape::Enumeration(variants) => match c {
            Cell::Text(b) => if is_utf8(b@) {
                e matches Error::Custom(Complaint::UnknownVariant { text, expected })
                    && text@ == b@ && expected@.len() == variants@.len()
                    && (forall|i: int| 0 <= i < variants@.len()
                        ==> (#[trigger] expected@[i])@ == variants@[i]@)
            } else {
                e matches Error::InvalidUtf8 { valid_up_to } && valid_up_to == utf8_scan(b@, 0)
            },
            _ => e == Error::Custom(Complaint::KindMismatch),
        },
    }
}

/// The index of the first variant name equal to `text`, byte for byte.
fn find_variant(variants: &Vec<Vec<u8>>, text: &Vec<u8>) -> (r: Option<usize>)
    ensures
        r matches Some(i) ==> i < variants@.len() && variants@[i as int]@ == text@
            && (forall|j: int| 0 <= j < i ==> (#[trigger] variants@[j])@ != text@),
        r is None ==> forall|i: int| 0 <= i < variants@.len()
            ==> (#[trigger] variants@[i])@ != text@,
{
    let mut j: usize = 0;
    while j < variants.len()
        invariant
            j <= variants@.len(),
            forall|t: int| 0 <= t < j ==> (#[trigger] variants@[t])@ != text@,
        decreases variants@.len() - j,
    {
        if bytes_eq(&variants[j], text) {
            return Some(j);
        }
        j = j + 1;
    }
    None
}

/// The error for a cell whose kind does not fit a flat shape.
fn mismatch_error(c: &Cell) -> (e: Error)
    ensures
        flat_mismatch_err(*c, e),
{
    match c {
        Cell::Text(b) => match validate_utf8(b) {
            Ok(()) => Error::Custom(Complaint::KindMismatch),
            Err(p) => Error::InvalidUtf8 { valid_up_to: p },
        },
        _ => Error::Custom(Complaint::KindMismatch),
    }
}

/// Decode one cell against a target shape: produce the natural
/// representation of the cell for that shape, or the error that names
/// what went wrong. Succeeds exactly on the inputs `cell_ok` admits.
pub fn decode_cell(c: &Cell, s: &Shape) -> (r: Result<Decoded, Error>)
    ensures
        r is Ok <==> cell_ok(*c, *s),
        (r matches Ok(d) ==> cell_val(*c, *s, d)),
        (r matches Err(e) ==> cell_err(*c, *s, e)),
    decreases *s,
{
    match s {
        Shape::Boolean => match c {
            Cell::Integer(v) => Ok(Decoded::Boolean(*v != 0)),
            _ => Err(mismatch_error(c)),
        },
        Shape::Integer => match c {
            Cell::Integer(v) => Ok(Decoded::Integer(*v)),
            _ => Err(mismatch_error(c)),
        },
        Shape::Real => match c {
            Cell::Real(bits) => Ok(Decoded::Real(*bits)),
            _ => Err(mismatch_error(c)),
        },
        Shape::Unit => match c {
            Cell::Null => Ok(Decoded::Unit),
            _ => Err(mismatch_error(c)),
        },
        Shape::Text => match c {
            Cell::Text(b) => match validate_utf8(b) {
                Ok(()) => Ok(Decoded::Text(copy_bytes(b))),
                Err(p) => Err(Error::InvalidUtf8 { valid_up_to: p }),
            },
            _ => Err(mismatch_error(c)),
        },
        Shape::Bytes => match c {
            Cell::Blob(b) => Ok(Decoded::Bytes(copy_bytes(b))),
            _ => Err(mismatch_error(c)),
        },
        Shape::Optional(inner) => match c {
            Cell::Null => Ok(Decoded::Absent),
            _ => match decode_cell(c, &**inner) {
                Ok(d) => Ok(Decoded::Present(Box::new(d))),
                Err(e) => Err(e),
            },
        },
        Shape::Newtype(inner) => match decode_cell(c, &**inner) {
            Ok(d) => Ok(Decoded::Newtype(Box::new(d))),
            Err(e) => Err(e),
        },
        Shape::Sequence(_) => Err(Error::Custom(Complaint::KindMismatch)),
        Shape::Tuple(_) => Err(Error::Custom(Complaint::KindMismatch)),
        Shape::Struct(_) => Err(Error::Custom(Complaint::KindMismatch)),
        Shape::Enumeration(variants) => match c {
            Cell::Text(b) => match validate_utf8(b) {
                Ok(()) => match find_variant(variants, b) {
                    Some(j) => Ok(Decoded::Variant(j)),
                    None => Err(Error::Custom(Complaint::UnknownVariant {
                        text: copy_bytes(b),
                        expected: copy_byte_vecs(variants),
                    })),
                },
                Err(p) => Err(Error::InvalidUtf8 { valid_up_to: p }),
            },
            _ => Err(Error::Custom(Complaint::KindMismatch)),
        },
    }
}

} // verus!
