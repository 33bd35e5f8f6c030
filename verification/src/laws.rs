//! Laws of the decoding engine, stated and proved over the specification
//! relations that the executable functions are verified against.

use vstd::prelude::*;

use crate::adapter::cell_err;
use crate::adapter::cell_ok;
use crate::adapter::cell_val;
use crate::cell::Cell;
use crate::drivers::pos_err;
use crate::drivers::pos_ok;
use crate::drivers::pos_val;
use crate::drivers::struct_ok;
use crate::drivers::struct_val;
use crate::drivers::tuple_err_at;
use crate::drivers::tuple_ok;
use crate::error::Complaint;
use crate::error::Error;
use crate::shape::Decoded;
use crate::shape::DecodedField;
use crate::shape::Field;
use crate::shape::Shape;
use crate::utf8::is_utf8;
use crate::utf8::utf8_scan;

verus! {

/// A cell decode is deterministic: any two values that a cell admits
/// against one shape are structurally equal.
pub proof fn lemma_cell_val_deterministic(c: Cell, s: Shape, d1: Decoded, d2: Decoded)
    requires
        cell_val(c, s, d1),
        cell_val(c, s, d2),
    ensures
        crate::shape::decoded_eq(d1, d2),
    decreases s,
{
    match s {
        Shape::Optional(inner) => {
            if !(c is Null) {
                match (d1, d2) {
                    (Decoded::Present(x1), Decoded::Present(x2)) => {
                        lemma_cell_val_deterministic(c, *inner, *x1, *x2);
                    },
                    _ => {},
                }
            }
        },
        Shape::Newtype(inner) => {
            match (d1, d2) {
                (Decoded::Newtype(x1), Decoded::Newtype(x2)) => {
                    lemma_cell_val_deterministic(c, *inner, *x1, *x2);
                },
                _ => {},
            }
        },
        Shape::Enumeration(variants) => {
            match (d1, d2) {
                (Decoded::Variant(i1), Decoded::Variant(i2)) => {
                    match c {
                        Cell::Text(bb) => {
                            if i1 < i2 {
                                assert(variants@[i1 as int]@ != bb@);
                                assert(false);
                            }
                            if i2 < i1 {
                                assert(variants@[i2 as int]@ != bb@);
                                assert(false);
                            }
                        },
                        _ => {},
                    }
                },
                _ => {},
            }
        },
        _ => {},
    }
}

/// A struct decode is deterministic, field for field.
pub proof fn lemma_struct_val_deterministic(
    row: Seq<Cell>,
    fields: Seq<Field>,
    d1: Seq<DecodedField>,
    d2: Seq<DecodedField>,
)
    requires
        struct_val(row, fields, d1),
        struct_val(row, fields, d2),
    ensures
        d1.len() == d2.len(),
        forall|i: int| 0 <= i < d1.len() ==> crate::shape::decoded_eq(
            (#[trigger] d1[i]).value,
            d2[i].value,
        ),
{
    assert forall|i: int| 0 <= i < d1.len() implies crate::shape::decoded_eq(
        (#[trigger] d1[i]).value,
        d2[i].value,
    ) by {
        lemma_cell_val_deterministic(row[i], fields[i].shape, d1[i].value, d2[i].value);
    }
}

/// For every row whose cells decode against a tuple's element shapes,
/// positional decoding is owed success, and any value it produces is the
/// tuple of the per-cell decodes, in column order.
pub proof fn lemma_positional_tuple_reconstructs(
    row: Seq<Cell>,
    shapes: Vec<Shape>,
    items: Seq<Decoded>,
    d: Decoded,
)
    requires
        shapes@.len() == row.len(),
        items.len() == row.len(),
        forall|i: int| 0 <= i < row.len() ==> cell_ok(row[i], #[trigger] shapes@[i]),
        forall|i: int| 0 <= i < row.len() ==> cell_val(row[i], #[trigger] shapes@[i], items[i]),
        pos_val(row, Shape::Tuple(shapes), d),
    ensures
        pos_ok(row, Shape::Tuple(shapes)),
        d matches Decoded::Tuple(its) && its@.len() == row.len() && (forall|i: int|
            0 <= i < row.len() ==> crate::shape::decoded_eq(#[trigger] its@[i], items[i])),
{
    match d {
        Decoded::Tuple(its) => {
            assert forall|i: int| 0 <= i < row.len() implies crate::shape::decoded_eq(
                #[trigger] its@[i],
                items[i],
            ) by {
                lemma_cell_val_deterministic(row[i], shapes@[i], its@[i], items[i]);
            }
        },
        _ => {},
    }
}

/// Named decoding assigns cell `i` to field `i` whatever the field names
/// say: renaming the fields of a struct target, without reordering the
/// row, changes which labels the result carries and nothing else.
pub proof fn lemma_named_fields_are_labels(
    row: Seq<Cell>,
    f1: Seq<Field>,
    f2: Seq<Field>,
    d1: Seq<DecodedField>,
    d2: Seq<DecodedField>,
)
    requires
        f1.len() == f2.len(),
        forall|i: int| 0 <= i < f1.len() ==> (#[trigger] f1[i]).shape == f2[i].shape,
        struct_val(row, f1, d1),
        struct_val(row, f2, d2),
    ensures
        struct_ok(row, f1) <==> struct_ok(row, f2),
        d1.len() == d2.len(),
        forall|i: int| 0 <= i < d1.len() ==> crate::shape::decoded_eq(
            (#[trigger] d1[i]).value,
            d2[i].value,
        ),
        forall|i: int| 0 <= i < d1.len() ==> (#[trigger] d1[i]).name@ == f1[i].name@
            && d2[i].name@ == f2[i].name@,
{
    if struct_ok(row, f1) {
        assert forall|i: int| 0 <= i < f2.len() implies cell_ok(
            row[i],
            (#[trigger] f2[i]).shape,
        ) by {
            assert(f1[i].shape == f2[i].shape);
            assert(cell_ok(row[i], (f1[i]).shape));
        }
    }
    if struct_ok(row, f2) {
        assert forall|i: int| 0 <= i < f1.len() implies cell_ok(
            row[i],
            (#[trigger] f1[i]).shape,
        ) by {
            assert(f1[i].shape == f2[i].shape);
            assert(cell_ok(row[i], (f2[i]).shape));
        }
    }
    assert forall|i: int| 0 <= i < d1.len() implies crate::shape::decoded_eq(
        (#[trigger] d1[i]).value,
        d2[i].value,
    ) by {
        lemma_cell_val_deterministic(row[i], f1[i].shape, d1[i].value, d2[i].value);
    }
}

/// An option-shaped target admits every cell its inner shape admits, and
/// the null cell besides.
pub proof fn lemma_option_presence(c: Cell, s: Shape)
    requires
        s is Optional,
    ensures
        cell_ok(c, s) <==> (c is Null || cell_ok(c, *s->Optional_0)),
{
}

/// Decoding a null cell against an option yields "absent"; decoding any
/// other cell yields "present" wrapping the inner decode of that same
/// cell.
pub proof fn lemma_option_cell(c: Cell, s: Shape, d: Decoded)
    requires
        s is Optional,
        cell_val(c, s, d),
    ensures
        c is Null ==> d is Absent,
        !(c is Null) ==> (d matches Decoded::Present(x) && cell_val(c, *s->Optional_0, *x)),
{
}

/// An integer cell always decodes against a boolean target: zero becomes
/// false and every other value becomes true.
pub proof fn lemma_boolean_coercion(v: i64, d: Decoded)
    requires
        cell_val(Cell::Integer(v), Shape::Boolean, d),
    ensures
        cell_ok(Cell::Integer(v), Shape::Boolean),
        v == 0 ==> d == Decoded::Boolean(false),
        v != 0 ==> d == Decoded::Boolean(true),
{
}

/// A well-formed text cell decodes against an enumeration exactly when
/// its content equals some declared variant name, byte for byte.
pub proof fn lemma_enumeration_matching(b: Vec<u8>, s: Shape)
    requires
        s is Enumeration,
        is_utf8(b@),
    ensures
        cell_ok(Cell::Text(b), s) <==> (exists|i: int|
            0 <= i < s->Enumeration_0@.len() && (#[trigger] s->Enumeration_0@[i])@ == b@),
{
}

/// A successful enumeration decode carries the index of the first
/// variant name equal to the text.
pub proof fn lemma_enumeration_variant_value(b: Vec<u8>, s: Shape, d: Decoded)
    requires
        s is Enumeration,
        cell_val(Cell::Text(b), s, d),
    ensures
        d matches Decoded::Variant(i) && i < s->Enumeration_0@.len()
            && s->Enumeration_0@[i as int]@ == b@,
{
}

/// A failing enumeration decode names the cause: unmatched well-formed
/// text is a variant mismatch carrying the text and the expected variant
/// set, and a non-text cell is a kind mismatch.
pub proof fn lemma_enumeration_mismatch(c: Cell, s: Shape, e: Error)
    requires
        s is Enumeration,
        cell_err(c, s, e),
    ensures
        (c matches Cell::Text(b) && is_utf8(b@)) ==> e matches Error::Custom(
            Complaint::UnknownVariant { .. },
        ),
        !(c is Text) ==> e == Error::Custom(Complaint::KindMismatch),
{
}

/// A variable-length sequence ends exactly where the row does: the
/// decode never invents elements beyond the row's cells.
pub proof fn lemma_sequence_stops_at_row_end(row: Seq<Cell>, s: Shape, d: Decoded)
    requires
        s is Sequence,
        pos_val(row, s, d),
    ensures
        d matches Decoded::Sequence(items) && items@.len() == row.len(),
{
}

/// A fixed-arity tuple asked of a row with too few cells fails with the
/// arity error -- never with silently produced default values.
pub proof fn lemma_tuple_arity_error(row: Seq<Cell>, s: Shape, e: Error)
    requires
        s is Tuple,
        row.len() < s->Tuple_0@.len(),
        forall|i: int| 0 <= i < row.len() ==> cell_ok(row[i], #[trigger] s->Tuple_0@[i]),
        pos_err(row, s, e),
    ensures
        !pos_ok(row, s),
        e matches Error::Custom(Complaint::WrongLength { expected, found })
            && expected == s->Tuple_0@.len() && found == row.len(),
{
    let shapes = s->Tuple_0@;
    assert(!tuple_ok(row, shapes));
    let i = choose|i: int| tuple_err_at(row, shapes, e, i);
    assert(tuple_err_at(row, shapes, e, i));
    if i < row.len() {
        assert(cell_ok(row[i], shapes[i]));
        assert(false);
    }
}

/// A text cell with ill-formed bytes never decodes as a string, and the
/// reported error is the explicit UTF-8 error carrying the length of the
/// longest well-formed prefix -- never a lossily replaced string.
pub proof fn lemma_invalid_utf8_rejected(b: Vec<u8>, e: Error)
    requires
        !is_utf8(b@),
        cell_err(Cell::Text(b), Shape::Text, e),
    ensures
        !cell_ok(Cell::Text(b), Shape::Text),
        e matches Error::InvalidUtf8 { valid_up_to } && valid_up_to == utf8_scan(b@, 0),
{
}

} // verus!
