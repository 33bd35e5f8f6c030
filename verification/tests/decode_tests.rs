use rowvault::Cell;
use rowvault::Complaint;
use rowvault::Decoded;
use rowvault::DecodedField;
use rowvault::Error;
use rowvault::Field;
use rowvault::Row;
use rowvault::Shape;
use rowvault::decode_cell;
use rowvault::from_row_via_index;
use rowvault::from_row_via_name;

fn bytes(s: &str) -> Vec<u8> {
    s.as_bytes().to_vec()
}

fn field(name: &str, shape: Shape) -> Field {
    Field { name: bytes(name), shape }
}

fn three_cell_row() -> Row {
    Row::new(vec![Cell::Integer(1), Cell::Text(bytes("alpha")), Cell::Null])
}

#[test]
fn named_decode_of_three_cell_row() {
    // A three-cell row (Integer(1), Text("alpha"), Null) decoded by name
    // into {id: i64, name: String, note: Option<String>}.
    let row = three_cell_row();
    let shape = Shape::Struct(vec![
        field("id", Shape::Integer),
        field("name", Shape::Text),
        field("note", Shape::Optional(Box::new(Shape::Text))),
    ]);
    let got = from_row_via_name(&row, &shape).unwrap();
    let want = Decoded::Struct(vec![
        DecodedField { name: bytes("id"), value: Decoded::Integer(1) },
        DecodedField { name: bytes("name"), value: Decoded::Text(bytes("alpha")) },
        DecodedField { name: bytes("note"), value: Decoded::Absent },
    ]);
    assert_eq!(got, want);
}

#[test]
fn positional_decode_of_three_cell_row() {
    // The same row decoded positionally into (i64, String, Option<String>).
    let row = three_cell_row();
    let shape = Shape::Tuple(vec![
        Shape::Integer,
        Shape::Text,
        Shape::Optional(Box::new(Shape::Text)),
    ]);
    let got = from_row_via_index(&row, &shape).unwrap();
    let want = Decoded::Tuple(vec![
        Decoded::Integer(1),
        Decoded::Text(bytes("alpha")),
        Decoded::Absent,
    ]);
    assert_eq!(got, want);
}

#[test]
fn positional_tuple_matches_per_cell_decodes() {
    // Tuple decoding equals decoding each cell directly, in order.
    let cells = vec![Cell::Integer(9), Cell::Blob(vec![1, 2, 3]), Cell::Real(77)];
    let shapes = vec![Shape::Integer, Shape::Bytes, Shape::Real];
    let mut direct = Vec::new();
    for (c, s) in cells.iter().zip(shapes.iter()) {
        direct.push(decode_cell(c, s).unwrap());
    }
    let got = from_row_via_index(&Row::new(cells), &Shape::Tuple(shapes)).unwrap();
    assert_eq!(got, Decoded::Tuple(direct));
}

#[test]
fn renaming_fields_changes_labels_only() {
    // Field names are labels: renaming without reordering changes nothing
    // but the labels carried in the result.
    let row = three_cell_row();
    let s1 = Shape::Struct(vec![
        field("id", Shape::Integer),
        field("name", Shape::Text),
        field("note", Shape::Optional(Box::new(Shape::Text))),
    ]);
    let s2 = Shape::Struct(vec![
        field("a", Shape::Integer),
        field("b", Shape::Text),
        field("c", Shape::Optional(Box::new(Shape::Text))),
    ]);
    let d1 = match from_row_via_name(&row, &s1).unwrap() {
        Decoded::Struct(dfs) => dfs,
        other => panic!("expected a struct, got {:?}", other),
    };
    let d2 = match from_row_via_name(&row, &s2).unwrap() {
        Decoded::Struct(dfs) => dfs,
        other => panic!("expected a struct, got {:?}", other),
    };
    assert_eq!(d1.len(), d2.len());
    for (x, y) in d1.iter().zip(d2.iter()) {
        assert_eq!(x.value, y.value);
    }
    assert_eq!(d1[0].name, bytes("id"));
    assert_eq!(d2[0].name, bytes("a"));
}

#[test]
fn null_cell_is_absent_for_option() {
    let shape = Shape::Optional(Box::new(Shape::Integer));
    assert_eq!(decode_cell(&Cell::Null, &shape).unwrap(), Decoded::Absent);
}

#[test]
fn non_null_cell_is_present_for_option() {
    let shape = Shape::Optional(Box::new(Shape::Integer));
    assert_eq!(
        decode_cell(&Cell::Integer(42), &shape).unwrap(),
        Decoded::Present(Box::new(Decoded::Integer(42)))
    );
    // The wrapped value is the inner decode of the same cell.
    assert_eq!(
        decode_cell(&Cell::Integer(42), &Shape::Integer).unwrap(),
        Decoded::Integer(42)
    );
}

#[test]
fn boolean_coercion_zero_false_rest_true() {
    assert_eq!(decode_cell(&Cell::Integer(0), &Shape::Boolean).unwrap(), Decoded::Boolean(false));
    assert_eq!(decode_cell(&Cell::Integer(1), &Shape::Boolean).unwrap(), Decoded::Boolean(true));
    assert_eq!(decode_cell(&Cell::Integer(-3), &Shape::Boolean).unwrap(), Decoded::Boolean(true));
    assert_eq!(
        decode_cell(&Cell::Integer(i64::MIN), &Shape::Boolean).unwrap(),
        Decoded::Boolean(true)
    );
}

#[test]
fn enumeration_exact_match_succeeds() {
    let shape = Shape::Enumeration(vec![bytes("Active"), bytes("Inactive")]);
    assert_eq!(
        decode_cell(&Cell::Text(bytes("Active")), &shape).unwrap(),
        Decoded::Variant(0)
    );
    assert_eq!(
        decode_cell(&Cell::Text(bytes("Inactive")), &shape).unwrap(),
        Decoded::Variant(1)
    );
}

#[test]
fn enumeration_wrong_case_fails() {
    // Matching is case-sensitive, with no normalization.
    let shape = Shape::Enumeration(vec![bytes("Active"), bytes("Inactive")]);
    let err = decode_cell(&Cell::Text(bytes("active")), &shape).unwrap_err();
    match err {
        Error::Custom(Complaint::UnknownVariant { text, expected }) => {
            assert_eq!(text, bytes("active"));
            assert_eq!(expected, vec![bytes("Active"), bytes("Inactive")]);
        },
        other => panic!("expected a variant mismatch, got {:?}", other),
    }
}

#[test]
fn enumeration_non_text_cell_fails() {
    let shape = Shape::Enumeration(vec![bytes("Active"), bytes("Inactive")]);
    assert_eq!(
        decode_cell(&Cell::Integer(0), &shape).unwrap_err(),
        Error::Custom(Complaint::KindMismatch)
    );
    assert_eq!(
        decode_cell(&Cell::Null, &shape).unwrap_err(),
        Error::Custom(Complaint::KindMismatch)
    );
}

#[test]
fn sequence_ends_where_the_row_does() {
    // A variable-length sequence stops at the shortfall point: two cells
    // give two elements, an empty row gives an empty sequence.
    let shape = Shape::Sequence(Box::new(Shape::Integer));
    let row = Row::new(vec![Cell::Integer(5), Cell::Integer(6)]);
    assert_eq!(
        from_row_via_index(&row, &shape).unwrap(),
        Decoded::Sequence(vec![Decoded::Integer(5), Decoded::Integer(6)])
    );
    let empty = Row::new(vec![]);
    assert_eq!(from_row_via_index(&empty, &shape).unwrap(), Decoded::Sequence(vec![]));
}

#[test]
fn tuple_shortfall_is_an_arity_error() {
    // A fixed-arity tuple never invents default values: too few cells is
    // an explicit arity error.
    let shape = Shape::Tuple(vec![Shape::Integer, Shape::Integer, Shape::Integer]);
    let row = Row::new(vec![Cell::Integer(5), Cell::Integer(6)]);
    assert_eq!(
        from_row_via_index(&row, &shape).unwrap_err(),
        Error::Custom(Complaint::WrongLength { expected: 3, found: 2 })
    );
}

#[test]
fn tuple_ignores_extra_cells() {
    let shape = Shape::Tuple(vec![Shape::Integer]);
    let row = Row::new(vec![Cell::Integer(5), Cell::Integer(6)]);
    assert_eq!(
        from_row_via_index(&row, &shape).unwrap(),
        Decoded::Tuple(vec![Decoded::Integer(5)])
    );
}

#[test]
fn invalid_utf8_text_is_an_explicit_error() {
    // Ill-formed text bytes fail with the UTF-8 error and the length of
    // the longest well-formed prefix; nothing is lossily replaced.
    let cell = Cell::Text(vec![0x61, 0x62, 0xFF, 0x63]);
    assert_eq!(
        decode_cell(&cell, &Shape::Text).unwrap_err(),
        Error::InvalidUtf8 { valid_up_to: 2 }
    );
    // The same ill-formed bytes fail against an enumeration too.
    let shape = Shape::Enumeration(vec![bytes("ab")]);
    assert_eq!(
        decode_cell(&cell, &shape).unwrap_err(),
        Error::InvalidUtf8 { valid_up_to: 2 }
    );
}

#[test]
fn utf8_multibyte_text_decodes() {
    let s = "héllo wörld \u{1F600} \u{10FFFF}";
    assert_eq!(
        decode_cell(&Cell::Text(bytes(s)), &Shape::Text).unwrap(),
        Decoded::Text(bytes(s))
    );
}

#[test]
fn utf8_rejects_classic_ill_formed_sequences() {
    // Overlong encoding of NUL.
    assert_eq!(
        decode_cell(&Cell::Text(vec![0xC0, 0x80]), &Shape::Text).unwrap_err(),
        Error::InvalidUtf8 { valid_up_to: 0 }
    );
    // Surrogate code point U+D800.
    assert_eq!(
        decode_cell(&Cell::Text(vec![0xED, 0xA0, 0x80]), &Shape::Text).unwrap_err(),
        Error::InvalidUtf8 { valid_up_to: 0 }
    );
    // Beyond U+10FFFF.
    assert_eq!(
        decode_cell(&Cell::Text(vec![0xF4, 0x90, 0x80, 0x80]), &Shape::Text).unwrap_err(),
        Error::InvalidUtf8 { valid_up_to: 0 }
    );
    // Truncated two-byte encoding at the end.
    assert_eq!(
        decode_cell(&Cell::Text(vec![0x61, 0xC3]), &Shape::Text).unwrap_err(),
        Error::InvalidUtf8 { valid_up_to: 1 }
    );
    // std agrees on each of these verdicts.
    for raw in [
        vec![0x61u8, 0x62, 0xFF, 0x63],
        vec![0xC0, 0x80],
        vec![0xED, 0xA0, 0x80],
        vec![0xF4, 0x90, 0x80, 0x80],
        vec![0x61, 0xC3],
    ] {
        assert!(std::str::from_utf8(&raw).is_err());
        assert!(decode_cell(&Cell::Text(raw), &Shape::Text).is_err());
    }
}

#[test]
fn utf8_agrees_with_std_on_valid_text() {
    for s in ["", "a", "héllo", "\u{10FFFF}", "日本語", "mixed \u{0800} text"] {
        assert!(std::str::from_utf8(s.as_bytes()).is_ok());
        assert_eq!(
            decode_cell(&Cell::Text(bytes(s)), &Shape::Text).unwrap(),
            Decoded::Text(bytes(s))
        );
    }
}

#[test]
fn scalar_cells_decode_to_their_values() {
    assert_eq!(decode_cell(&Cell::Integer(-7), &Shape::Integer).unwrap(), Decoded::Integer(-7));
    let bits = (1.5f64).to_bits();
    assert_eq!(decode_cell(&Cell::Real(bits), &Shape::Real).unwrap(), Decoded::Real(bits));
    assert_eq!(f64::from_bits(bits), 1.5);
    assert_eq!(decode_cell(&Cell::Null, &Shape::Unit).unwrap(), Decoded::Unit);
    assert_eq!(
        decode_cell(&Cell::Blob(vec![0, 255, 7]), &Shape::Bytes).unwrap(),
        Decoded::Bytes(vec![0, 255, 7])
    );
}

#[test]
fn kind_mismatches_are_rejected() {
    // No coercion between incompatible primitive kinds.
    let km = Error::Custom(Complaint::KindMismatch);
    assert_eq!(decode_cell(&Cell::Real(0), &Shape::Integer).unwrap_err(), km);
    assert_eq!(decode_cell(&Cell::Integer(1), &Shape::Real).unwrap_err(), km);
    assert_eq!(decode_cell(&Cell::Null, &Shape::Boolean).unwrap_err(), km);
    assert_eq!(decode_cell(&Cell::Text(bytes("1")), &Shape::Integer).unwrap_err(), km);
    assert_eq!(decode_cell(&Cell::Text(bytes("x")), &Shape::Bytes).unwrap_err(), km);
    assert_eq!(decode_cell(&Cell::Blob(vec![1]), &Shape::Text).unwrap_err(), km);
    assert_eq!(decode_cell(&Cell::Integer(1), &Shape::Unit).unwrap_err(), km);
}

#[test]
fn aggregates_are_rejected_at_the_cell_level() {
    // A bare cell can never produce an aggregate.
    let km = Error::Custom(Complaint::KindMismatch);
    assert_eq!(
        decode_cell(&Cell::Integer(1), &Shape::Tuple(vec![Shape::Integer])).unwrap_err(),
        km
    );
    assert_eq!(
        decode_cell(&Cell::Integer(1), &Shape::Sequence(Box::new(Shape::Integer))).unwrap_err(),
        km
    );
    assert_eq!(
        decode_cell(&Cell::Integer(1), &Shape::Struct(vec![])).unwrap_err(),
        km
    );
}

#[test]
fn newtype_is_transparent_at_the_cell_level() {
    let shape = Shape::Newtype(Box::new(Shape::Integer));
    assert_eq!(
        decode_cell(&Cell::Integer(3), &shape).unwrap(),
        Decoded::Newtype(Box::new(Decoded::Integer(3)))
    );
}

#[test]
fn newtype_reenters_both_drivers_at_the_row_level() {
    let row = Row::new(vec![Cell::Integer(3)]);
    let pos = Shape::Newtype(Box::new(Shape::Tuple(vec![Shape::Integer])));
    assert_eq!(
        from_row_via_index(&row, &pos).unwrap(),
        Decoded::Newtype(Box::new(Decoded::Tuple(vec![Decoded::Integer(3)])))
    );
    let named = Shape::Newtype(Box::new(Shape::Struct(vec![field("n", Shape::Integer)])));
    assert_eq!(
        from_row_via_name(&row, &named).unwrap(),
        Decoded::Newtype(Box::new(Decoded::Struct(vec![DecodedField {
            name: bytes("n"),
            value: Decoded::Integer(3),
        }])))
    );
}

#[test]
fn positional_entry_rejects_non_tuple_like_shapes() {
    let row = three_cell_row();
    for shape in [
        Shape::Integer,
        Shape::Text,
        Shape::Boolean,
        Shape::Optional(Box::new(Shape::Integer)),
        Shape::Enumeration(vec![bytes("A")]),
    ] {
        assert_eq!(from_row_via_index(&row, &shape).unwrap_err(), Error::TupleShapeMismatch);
    }
}

#[test]
fn named_entry_rejects_non_struct_like_shapes() {
    let row = three_cell_row();
    for shape in [
        Shape::Integer,
        Shape::Tuple(vec![Shape::Integer]),
        Shape::Sequence(Box::new(Shape::Integer)),
        Shape::Enumeration(vec![bytes("A")]),
    ] {
        assert_eq!(from_row_via_name(&row, &shape).unwrap_err(), Error::StructShapeMismatch);
    }
}

#[test]
fn struct_with_more_fields_than_cells_is_a_host_failure() {
    // The cell access layer has no cell at the third field's position.
    let row = Row::new(vec![Cell::Integer(1), Cell::Integer(2)]);
    let shape = Shape::Struct(vec![
        field("a", Shape::Integer),
        field("b", Shape::Integer),
        field("c", Shape::Integer),
    ]);
    assert_eq!(from_row_via_name(&row, &shape).unwrap_err(), Error::HostFailure);
    assert_eq!(from_row_via_index(&row, &shape).unwrap_err(), Error::HostFailure);
}

#[test]
fn struct_ignores_extra_cells() {
    let row = three_cell_row();
    let shape = Shape::Struct(vec![field("id", Shape::Integer)]);
    assert_eq!(
        from_row_via_name(&row, &shape).unwrap(),
        Decoded::Struct(vec![DecodedField { name: bytes("id"), value: Decoded::Integer(1) }])
    );
}

#[test]
fn first_failing_cell_decides_the_error() {
    // The traversal is strictly in column order: the error of the first
    // failing cell is reported, not a later one.
    let row = Row::new(vec![Cell::Integer(1), Cell::Null, Cell::Text(vec![0xFF])]);
    let shape = Shape::Tuple(vec![Shape::Integer, Shape::Integer, Shape::Text]);
    assert_eq!(
        from_row_via_index(&row, &shape).unwrap_err(),
        Error::Custom(Complaint::KindMismatch)
    );
    let shape2 = Shape::Tuple(vec![Shape::Integer, Shape::Text, Shape::Integer]);
    assert_eq!(from_row_via_index(&row, &shape2).unwrap_err(), Error::Custom(
        Complaint::KindMismatch
    ));
}

#[test]
fn row_access_and_bounds() {
    let row = three_cell_row();
    assert_eq!(row.len(), 3);
    assert_eq!(row.cell_at(0), Some(&Cell::Integer(1)));
    assert_eq!(row.cell_at(2), Some(&Cell::Null));
    assert_eq!(row.cell_at(3), None);
}

#[test]
fn validate_utf8_reports_the_stuck_position() {
    assert_eq!(rowvault::validate_utf8(&bytes("plain")), Ok(()));
    assert_eq!(rowvault::validate_utf8(&vec![]), Ok(()));
    assert_eq!(rowvault::validate_utf8(&vec![0x80]), Err(0));
    assert_eq!(rowvault::validate_utf8(&vec![0x61, 0x80]), Err(1));
    assert_eq!(rowvault::validate_utf8(&bytes("héllo")), Ok(()));
}

#[test]
fn error_messages_describe_the_kind() {
    assert_eq!(Error::TupleShapeMismatch.message(), "expected tuple-like base type");
    assert_eq!(Error::StructShapeMismatch.message(), "expected struct-like base type");
    assert_eq!(
        Error::InvalidUtf8 { valid_up_to: 0 }.message(),
        "invalid utf-8 in text cell"
    );
    assert_eq!(Error::HostFailure.message(), "row access failed");
    assert_eq!(
        Error::Custom(Complaint::KindMismatch).message(),
        "cell kind does not fit the requested shape"
    );
    assert_eq!(
        Error::Custom(Complaint::UnknownVariant { text: vec![], expected: vec![] }).message(),
        "text matches no declared enumeration variant"
    );
    assert_eq!(
        Error::Custom(Complaint::WrongLength { expected: 2, found: 1 }).message(),
        "row has fewer cells than the tuple requires"
    );
}
