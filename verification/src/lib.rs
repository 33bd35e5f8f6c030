//! A typed row-decoding engine: converts one dynamically-typed database
//! result row -- a sequence of cells, each holding one of five primitive
//! value kinds -- into a statically-declared target shape, without the
//! caller writing per-field extraction code.

mod adapter;
mod bytes;
mod cell;
mod drivers;
mod error;
mod laws;
mod shape;
mod utf8;

pub use adapter::cell_err;
pub use adapter::cell_ok;
pub use adapter::cell_val;
pub use adapter::decode_cell;
pub use adapter::flat_mismatch_err;
pub use cell::Cell;
pub use cell::Row;
pub use drivers::from_row_via_index;
pub use drivers::from_row_via_name;
pub use drivers::named_err;
pub use drivers::named_ok;
pub use drivers::named_val;
pub use drivers::pos_err;
pub use drivers::pos_ok;
pub use drivers::pos_val;
pub use drivers::seq_elems_ok;
pub use drivers::seq_err;
pub use drivers::seq_err_at;
pub use drivers::seq_val;
pub use drivers::struct_err;
pub use drivers::struct_err_at;
pub use drivers::struct_ok;
pub use drivers::struct_val;
pub use drivers::tuple_err;
pub use drivers::tuple_err_at;
pub use drivers::tuple_ok;
pub use drivers::tuple_val;
pub use error::Complaint;
pub use error::Error;
pub use laws::lemma_boolean_coercion;
pub use laws::lemma_cell_val_deterministic;
pub use laws::lemma_enumeration_matching;
pub use laws::lemma_enumeration_mismatch;
pub use laws::lemma_enumeration_variant_value;
pub use laws::lemma_invalid_utf8_rejected;
pub use laws::lemma_named_fields_are_labels;
pub use laws::lemma_option_cell;
pub use laws::lemma_option_presence;
pub use laws::lemma_positional_tuple_reconstructs;
pub use laws::lemma_sequence_stops_at_row_end;
pub use laws::lemma_struct_val_deterministic;
pub use laws::lemma_tuple_arity_error;
pub use shape::Decoded;
pub use shape::DecodedField;
pub use shape::Field;
pub use shape::Shape;
pub use shape::decoded_eq;
pub use utf8::is_cont_byte;
pub use utf8::is_utf8;
pub use utf8::utf8_scan;
pub use utf8::utf8_step;
pub use utf8::validate_utf8;
