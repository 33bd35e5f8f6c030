//! The engine against the real host database binding: rows produced by
//! rusqlite queries, copied into cells and decoded.

use rowvault::Cell;
use rowvault::Decoded;
use rowvault::DecodedField;
use rowvault::Field;
use rowvault::Row;
use rowvault::Shape;

use rusqlite::types::ValueRef;
use rusqlite::Connection;

fn bytes(s: &str) -> Vec<u8> {
    s.as_bytes().to_vec()
}

fn cells_of(row: &rusqlite::Row<'_>) -> rusqlite::Result<Row> {
    let mut cells = Vec::new();
    let mut i = 0usize;
    loop {
        match row.get_ref(i) {
            Ok(ValueRef::Null) => cells.push(Cell::Null),
            Ok(ValueRef::Integer(v)) => cells.push(Cell::Integer(v)),
            Ok(ValueRef::Real(v)) => cells.push(Cell::Real(v.to_bits())),
            Ok(ValueRef::Text(b)) => cells.push(Cell::Text(b.to_vec())),
            Ok(ValueRef::Blob(b)) => cells.push(Cell::Blob(b.to_vec())),
            Err(rusqlite::Error::InvalidColumnIndex(_)) => break,
            Err(err) => return Err(err),
        }
        i += 1;
    }
    Ok(Row::new(cells))
}

#[test]
fn decodes_a_real_query_row_by_name() {
    let conn = Connection::open_in_memory().unwrap();
    let shape = Shape::Struct(vec![
        Field { name: bytes("id"), shape: Shape::Integer },
        Field { name: bytes("name"), shape: Shape::Text },
        Field { name: bytes("note"), shape: Shape::Optional(Box::new(Shape::Text)) },
    ]);
    let decoded = conn
        .query_row("SELECT 1, 'alpha', NULL", [], |row| {
            let cells = cells_of(row)?;
            Ok(rowvault::from_row_via_name(&cells, &shape))
        })
        .unwrap()
        .unwrap();
    assert_eq!(
        decoded,
        Decoded::Struct(vec![
            DecodedField { name: bytes("id"), value: Decoded::Integer(1) },
            DecodedField { name: bytes("name"), value: Decoded::Text(bytes("alpha")) },
            DecodedField { name: bytes("note"), value: Decoded::Absent },
        ])
    );
}

#[test]
fn decodes_a_real_query_row_by_position() {
    let conn = Connection::open_in_memory().unwrap();
    let shape = Shape::Tuple(vec![
        Shape::Integer,
        Shape::Real,
        Shape::Bytes,
        Shape::Boolean,
    ]);
    let decoded = conn
        .query_row("SELECT -4, 2.5, x'00ff', 7", [], |row| {
            let cells = cells_of(row)?;
            Ok(rowvault::from_row_via_index(&cells, &shape))
        })
        .unwrap()
        .unwrap();
    assert_eq!(
        decoded,
        Decoded::Tuple(vec![
            Decoded::Integer(-4),
            Decoded::Real((2.5f64).to_bits()),
            Decoded::Bytes(vec![0x00, 0xFF]),
            Decoded::Boolean(true),
        ])
    );
}
