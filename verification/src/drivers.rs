//! The traversal drivers and the two entry points.
//!
//! The positional driver walks a row's cells strictly in column order and
//! feeds them to the cell adapter; the named driver walks a caller-supplied
//! field list and maps the field at position `i` to the cell at position
//! `i` of the row. Field names are labels only: they are never used to
//! search the row's own column metadata, so the caller's declared field
//! order must align with the query's column order. If the two ever
//! diverge, decoding silently assigns wrong values instead of failing;
//! this preserves the positional-alignment semantics deliberately.

use vstd::prelude::*;

use crate::adapter::cell_err;
use crate::adapter::cell_ok;
use crate::adapter::cell_val;
use crate::adapter::decode_cell;
use crate::bytes::copy_bytes;
use crate::cell::Cell;
use crate::cell::Row;
use crate::error::Complaint;
use crate::error::Error;
use crate::shape::Decoded;
use crate::shape::DecodedField;
use crate::shape::Field;
use crate::shape::Shape;

verus! {

/// Every cell of the row decodes against the sequence's element shape.
pub open spec fn seq_elems_ok(row: Seq<Cell>, elem: Shape) -> bool {
    forall|i: int| 0 <= i < row.len() ==> cell_ok(#[trigger] row[i], elem)
}

/// A decoded sequence has one element per cell, in column order.
pub open spec fn seq_val(row: Seq<Cell>, elem: Shape, items: Seq<Decoded>) -> bool {
    &&& items.len() == row.len()
    &&& forall|i: int| 0 <= i < row.len() ==> cell_val(#[trigger] row[i], elem, items[i])
}

/// A sequence decode fails at index `i`: the first cell that does not
/// decode, with that cell's own error.
pub open spec fn seq_err_at(row: Seq<Cell>, elem: Shape, e: Error, i: int) -> bool {
    &&& 0 <= i < row.len()
    &&& forall|j: int| 0 <= j < i ==> cell_ok(#[trigger] row[j], elem)
    &&& !cell_ok(row[i], elem)
    &&& cell_err(row[i], elem, e)
}

pub open spec fn seq_err(row: Seq<Cell>, elem: Shape, e: Error) -> bool {
    exists|i: int| seq_err_at(row, elem, e, i)
}

/// The row has a cell for every tuple element, and each of those cells
/// decodes against its element shape. Cells beyond the arity are ignored.
pub open spec fn tuple_ok(row: Seq<Cell>, shapes: Seq<Shape>) -> bool {
    &&& shapes.len() <= row.len()
    &&& forall|i: int| 0 <= i < shapes.len() ==> cell_ok(row[i], #[trigger] shapes[i])
}

pub open spec fn tuple_val(row: Seq<Cell>, shapes: Seq<Shape>, items: Seq<Decoded>) -> bool {
    &&& items.len() == shapes.len()
    &&& forall|i: int| 0 <= i < shapes.len() ==> cell_val(row[i], #[trigger] shapes[i], items[i])
}

/// A tuple decode fails at index `i`: either the first cell that does not
/// decode (with that cell's error), or the arity error when the row runs
/// out of cells before the fixed arity is satisfied.
pub open spec fn tuple_err_at(row: Seq<Cell>, shapes: Seq<Shape>, e: Error, i: int) -> bool {
    &&& 0 <= i < shapes.len()
    &&& forall|j: int| 0 <= j < i ==> j < row.len() && cell_ok(row[j], #[trigger] shapes[j])
    &&& if i < row.len() {
        !cell_ok(row[i], shapes[i]) && cell_err(row[i], shapes[i], e)
    } else {
        e matches Error::Custom(Complaint::WrongLength { expected, found })
            && expected == shapes.len() && found == row.len()
    }
}

pub open spec fn tuple_err(row: Seq<Cell>, shapes: Seq<Shape>, e: Error) -> bool {
    exists|i: int| tuple_err_at(row, shapes, e, i)
}

/// The row has a cell for every field, and the cell at position `i`
/// decodes against field `i`'s shape. Field names play no part.
pub open spec fn struct_ok(row: Seq<Cell>, fields: Seq<Field>) -> bool {
    &&& fields.len() <= row.len()
    &&& forall|i: int| 0 <= i < fields.len() ==> cell_ok(row[i], (#[trigger] fields[i]).shape)
}

/// A decoded struct labels the decode of cell `i` with the name of field
/// `i`: the names are carried over verbatim, cells are assigned by
/// position alone.
pub open spec fn struct_val(row: Seq<Cell>, fields: Seq<Field>, dfs: Seq<DecodedField>) -> bool {
    &&& dfs.len() == fields.len()
    &&& forall|i: int| 0 <= i < fields.len() ==> {
        &&& (#[trigger] dfs[i]).name@ == fields[i].name@
        &&& cell_val(row[i], fields[i].shape, dfs[i].value)
    }
}

/// A struct decode fails at field `i`: either the first cell that does
/// not decode (with that cell's error), or a host failure when the row
/// has no cell at the field's position.
pub open spec fn struct_err_at(row: Seq<Cell>, fields: Seq<Field>, e: Error, i: int) -> bool {
    &&& 0 <= i < fields.len()
    &&& forall|j: int| 0 <= j < i ==> j < row.len() && cell_ok(row[j], (#[trigger] fields[j]).shape)
    &&& if i < row.len() {
        !cell_ok(row[i], fields[i].shape) && cell_err(row[i], fields[i].shape, e)
    } else {
        e == Error::HostFailure
    }
}

pub open spec fn struct_err(row: Seq<Cell>, fields: Seq<Field>, e: Error) -> bool {
    exists|i: int| struct_err_at(row, fields, e, i)
}

/// When does a whole row decode positionally against a shape? Only
/// tuple-like shapes (sequence, tuple, struct) and newtype wrappers of
/// them are accepted at the row level.
pub open spec fn pos_ok(row: Seq<Cell>, s: Shape) -> bool
    decreases s,
{
    match s {
        Shape::Newtype(inner) => pos_ok(row, *inner),
        Shape::Sequence(elem) => seq_elems_ok(row, *elem),
        Shape::Tuple(shapes) => tuple_ok(row, shapes@),
        Shape::Struct(fields) => struct_ok(row, fields@),
        _ => false,
    }
}

/// The value a successful positional decode produces.
pub open spec fn pos_val(row: Seq<Cell>, s: Shape, d: Decoded) -> bool
    decreases s,
{
    match s {
        Shape::Newtype(inner) => d matches Decoded::Newtype(x) && pos_val(row, *inner, *x),
        Shape::Sequence(elem) => d matches Decoded::Sequence(items) && seq_val(
            row,
            *elem,
            items@,
        ),
        Shape::Tuple(shapes) => d matches Decoded::Tuple(items) && tuple_val(
            row,
            shapes@,
            items@,
        ),
        Shape::Struct(fields) => d matches Decoded::Struct(dfs) && struct_val(
            row,
            fields@,
            dfs@,
        ),
        _ => false,
    }
}

/// Which error a failing positional decode reports.
pub open spec fn pos_err(row: Seq<Cell>, s: Shape, e: Error) -> bool
    decreases s,
{
    match s {
        Shape::Newtype(inner) => pos_err(row, *inner, e),
        Shape::Sequence(elem) => seq_err(row, *elem, e),
        Shape::Tuple(shapes) => tuple_err(row, shapes@, e),
        Shape::Struct(fields) => struct_err(row, fields@, e),
        _ => e == Error::TupleShapeMismatch,
    }
}

/// When does a whole row decode by name against a shape? Only struct-like
/// shapes and newtype wrappers of them are accepted.
pub open spec fn named_ok(row: Seq<Cell>, s: Shape) -> bool
    decreases s,
{
    match s {
        Shape::Newtype(inner) => named_ok(row, *inner),
        Shape::Struct(fields) => struct_ok(row, fields@),
        _ => false,
    }
}

/// The value a successful named decode produces: identical to the struct
/// branch of the positional driver.
pub open spec fn named_val(row: Seq<Cell>, s: Shape, d: Decoded) -> bool
    decreases s,
{
    match s {
        Shape::Newtype(inner) => d matches Decoded::Newtype(x) && named_val(row, *inner, *x),
        Shape::Struct(fields) => d matches Decoded::Struct(dfs) && struct_val(
            row,
            fields@,
            dfs@,
        ),
        _ => false,
    }
}

/// Which error a failing named decode reports.
pub open spec fn named_err(row: Seq<Cell>, s: Shape, e: Error) -> bool
    decreases s,
{
    match s {
        Shape::Newtype(inner) => named_err(row, *inner, e),
        Shape::Struct(fields) => struct_err(row, fields@, e),
        _ => e == Error::StructShapeMismatch,
    }
}

/// Decode every cell of the row against one element shape, in column
/// order; the sequence ends exactly where the row does.
fn decode_seq_cells(row: &Row, elem: &Shape) -> (r: Result<Vec<Decoded>, Error>)
    ensures
        r is Ok <==> seq_elems_ok(row@, *elem),
        (r matches Ok(items) ==> seq_val(row@, *elem, items@)),
        (r matches Err(e) ==> seq_err(row@, *elem, e)),
{
    let n = row.len();
    let mut items: Vec<Decoded> = Vec::new();
    let mut i: usize = 0;
    while i < n
        invariant
            i <= n,
            n == row@.len(),
            items@.len() == i,
            forall|t: int| 0 <= t < i ==> cell_ok(#[trigger] row@[t], *elem),
            forall|t: int| 0 <= t < i ==> cell_val(#[trigger] row@[t], *elem, items@[t]),
        decreases n - i,
    {
        let c = match row.cell_at(i) {
            Some(c) => c,
            None => vstd::pervasive::unreached(),
        };
        match decode_cell(c, elem) {
            Ok(d) => items.push(d),
            Err(e) => {
                proof {
                    assert(seq_err_at(row@, *elem, e, i as int));
                }
                return Err(e);
            },
        }
        i = i + 1;
    }
    Ok(items)
}

/// Decode the first cells of the row against a fixed list of element
/// shapes; report the arity shortfall if the row is too short.
fn decode_tuple_cells(row: &Row, shapes: &Vec<Shape>) -> (r: Result<Vec<Decoded>, Error>)
    ensures
        r is Ok <==> tuple_ok(row@, shapes@),
        (r matches Ok(items) ==> tuple_val(row@, shapes@, items@)),
        (r matches Err(e) ==> tuple_err(row@, shapes@, e)),
{
    let mut items: Vec<Decoded> = Vec::new();
    let mut i: usize = 0;
    while i < shapes.len()
        invariant
            i <= shapes@.len(),
            i == 0 || i <= row@.len(),
            items@.len() == i,
            forall|j: int| 0 <= j < i ==> j < row@.len() && cell_ok(row@[j], #[trigger] shapes@[j]),
            forall|j: int| 0 <= j < i ==> cell_val(row@[j], #[trigger] shapes@[j], items@[j]),
        decreases shapes@.len() - i,
    {
        match row.cell_at(i) {
            Some(c) => match decode_cell(c, &shapes[i]) {
                Ok(d) => items.push(d),
                Err(e) => {
                    proof {
                        assert(tuple_err_at(row@, shapes@, e, i as int));
                    }
                    return Err(e);
                },
            },
            None => {
                let e = Error::Custom(Complaint::WrongLength {
                    expected: shapes.len(),
                    found: row.len(),
                });
                proof {
                    assert(tuple_err_at(row@, shapes@, e, i as int));
                }
                return Err(e);
            },
        }
        i = i + 1;
    }
    Ok(items)
}

/// Decode cell `i` against the shape of field `i`, for every field in
/// the list, labeling each result with the field's name.
fn decode_struct_fields(row: &Row, fields: &Vec<Field>) -> (r: Result<Vec<DecodedField>, Error>)
    ensures
        r is Ok <==> struct_ok(row@, fields@),
        (r matches Ok(dfs) ==> struct_val(row@, fields@, dfs@)),
        (r matches Err(e) ==> struct_err(row@, fields@, e)),
{
    let mut dfs: Vec<DecodedField> = Vec::new();
    let mut i: usize = 0;
    while i < fields.len()
        invariant
            i <= fields@.len(),
            i == 0 || i <= row@.len(),
            dfs@.len() == i,
            forall|j: int| 0 <= j < i ==> j < row@.len() && cell_ok(
                row@[j],
                (#[trigger] fields@[j]).shape,
            ),
            forall|j: int| 0 <= j < i ==> {
                &&& (#[trigger] dfs@[j]).name@ == fields@[j].name@
                &&& cell_val(row@[j], fields@[j].shape, dfs@[j].value)
            },
        decreases fields@.len() - i,
    {
        match row.cell_at(i) {
            Some(c) => match decode_cell(c, &fields[i].shape) {
                Ok(d) => dfs.push(DecodedField { name: copy_bytes(&fields[i].name), value: d }),
                Err(e) => {
                    proof {
                        assert(struct_err_at(row@, fields@, e, i as int));
                    }
                    return Err(e);
                },
            },
            None => {
                proof {
                    assert(struct_err_at(row@, fields@, Error::HostFailure, i as int));
                }
                return Err(Error::HostFailure);
            },
        }
        i = i + 1;
    }
    Ok(dfs)
}

/// Decode a whole row positionally: walk the cells strictly in column
/// order against a tuple-like target shape. Succeeds exactly when
/// `pos_ok` admits the row and shape; the result and every error are
/// pinned by `pos_val` and `pos_err`.
pub fn from_row_via_index(row: &Row, shape: &Shape) -> (r: Result<Decoded, Error>)
    ensures
        r is Ok <==> pos_ok(row@, *shape),
        (r matches Ok(d) ==> pos_val(row@, *shape, d)),
        (r matches Err(e) ==> pos_err(row@, *shape, e)),
    decreases *shape,
{
    match shape {
        Shape::Newtype(inner) => match from_row_via_index(row, &**inner) {
            Ok(d) => Ok(Decoded::Newtype(Box::new(d))),
            Err(e) => Err(e),
        },
        Shape::Sequence(elem) => match decode_seq_cells(row, &**elem) {
            Ok(items) => Ok(Decoded::Sequence(items)),
            Err(e) => Err(e),
        },
        Shape::Tuple(shapes) => match decode_tuple_cells(row, shapes) {
            Ok(items) => Ok(Decoded::Tuple(items)),
            Err(e) => Err(e),
        },
        Shape::Struct(fields) => match decode_struct_fields(row, fields) {
            Ok(dfs) => Ok(Decoded::Struct(dfs)),
            Err(e) => Err(e),
        },
        _ => Err(Error::TupleShapeMismatch),
    }
}

/// Decode a whole row by name: walk the caller-supplied field list and
/// assign the cell at position `i` to the field at position `i`. Only
/// struct-like target shapes are accepted. Succeeds exactly when
/// `named_ok` admits the row and shape; the result and every error are
/// pinned by `named_val` and `named_err`.
pub fn from_row_via_name(row: &Row, shape: &Shape) -> (r: Result<Decoded, Error>)
    ensures
        r is Ok <==> named_ok(row@, *shape),
        (r matches Ok(d) ==> named_val(row@, *shape, d)),
        (r matches Err(e) ==> named_err(row@, *shape, e)),
    decreases *shape,
{
    match shape {
        Shape::Newtype(inner) => match from_row_via_name(row, &**inner) {
            Ok(d) => Ok(Decoded::Newtype(Box::new(d))),
            Err(e) => Err(e),
        },
        Shape::Struct(fields) => match decode_struct_fields(row, fields) {
            Ok(dfs) => Ok(Decoded::Struct(dfs)),
            Err(e) => Err(e),
        },
        _ => Err(Error::StructShapeMismatch),
    }
}

} // verus!
