//! The value codec: converts engine-native raw values to and from the typed
//! value model. A raw value is a single machine word or an out-of-line
//! textual payload; which cell variant a word denotes is decided by the
//! declared type identifier of the column.

use vstd::prelude::*;
use crate::value::Cell;

verus! {

/// An engine-native raw value: either one machine word (all fixed-width
/// variants travel as a word) or an out-of-line textual payload (text and
/// structured documents).
#[derive(Debug, Clone, PartialEq)]
pub enum Datum {
    Word(u64),
    Text(String),
}

/// Type identifier of a boolean column.
pub const BOOL_OID: u32 = 16;

/// Type identifier of a single-byte integer column.
pub const CHAR_OID: u32 = 18;

/// Type identifier of an eight-byte integer column.
pub const INT8_OID: u32 = 20;

/// Type identifier of a two-byte integer column.
pub const INT2_OID: u32 = 21;

/// Type identifier of a four-byte integer column.
pub const INT4_OID: u32 = 23;

/// Type identifier of a text column.
pub const TEXT_OID: u32 = 25;

/// Type identifier of a single-precision float column.
pub const FLOAT4_OID: u32 = 700;

/// Type identifier of a double-precision float column.
pub const FLOAT8_OID: u32 = 701;

/// Type identifier of a date column.
pub const DATE_OID: u32 = 1082;

/// Type identifier of a timestamp column.
pub const TIMESTAMP_OID: u32 = 1114;

/// Type identifier of a structured document column.
pub const JSONB_OID: u32 = 3802;

/// The declared type identifier matching each cell variant.
pub open spec fn type_oid_of(c: Cell) -> u32 {
    match c {
        Cell::Bool(_) => BOOL_OID,
        Cell::I8(_) => CHAR_OID,
        Cell::I16(_) => INT2_OID,
        Cell::F32(_) => FLOAT4_OID,
        Cell::I32(_) => INT4_OID,
        Cell::F64(_) => FLOAT8_OID,
        Cell::I64(_) => INT8_OID,
        Cell::Text(_) => TEXT_OID,
        Cell::Date(_) => DATE_OID,
        Cell::Timestamp(_) => TIMESTAMP_OID,
        Cell::Json(_) => JSONB_OID,
    }
}

/// The raw form of a cell: fixed-width payloads widen (two's complement)
/// into one word, textual payloads travel out of line.
pub open spec fn encoded(c: Cell) -> Datum {
    match c {
        Cell::Bool(v) => Datum::Word(if v { 1u64 } else { 0u64 }),
        Cell::I8(v) => Datum::Word(v as u64),
        Cell::I16(v) => Datum::Word(v as u64),
        Cell::F32(b) => Datum::Word(b as u64),
        Cell::I32(v) => Datum::Word(v as u64),
        Cell::F64(b) => Datum::Word(b),
        Cell::I64(v) => Datum::Word(v as u64),
        Cell::Text(s) => Datum::Text(s),
        Cell::Date(d) => Datum::Word(d as u64),
        Cell::Timestamp(t) => Datum::Word(t as u64),
        Cell::Json(s) => Datum::Text(s),
    }
}

/// The cell a raw value decodes to under a declared type identifier: absent
/// exactly when the raw value denotes SQL NULL, when the identifier is not
/// one of the closed set of known types, or when the raw form does not fit
/// the identifier (a word where a payload is declared or the reverse) — the
/// value is then not representable, which is not a hard error.
pub open spec fn decoded(raw: Datum, is_null: bool, oid: u32) -> Option<Cell> {
    if is_null {
        None
    } else {
        match raw {
            Datum::Word(w) => if oid == BOOL_OID {
                Some(Cell::Bool(w != 0))
            } else if oid == CHAR_OID {
                Some(Cell::I8(w as i8))
            } else if oid == INT2_OID {
                Some(Cell::I16(w as i16))
            } else if oid == FLOAT4_OID {
                Some(Cell::F32(w as u32))
            } else if oid == INT4_OID {
                Some(Cell::I32(w as i32))
            } else if oid == FLOAT8_OID {
                Some(Cell::F64(w))
            } else if oid == INT8_OID {
                Some(Cell::I64(w as i64))
            } else if oid == DATE_OID {
                Some(Cell::Date(w as i32))
            } else if oid == TIMESTAMP_OID {
                Some(Cell::Timestamp(w as i64))
            } else {
                None
            },
            Datum::Text(s) => if oid == TEXT_OID {
                Some(Cell::Text(s))
            } else if oid == JSONB_OID {
                Some(Cell::Json(s))
            } else {
                None
            },
        }
    }
}

/// The declared type identifier matching a cell's variant.
pub fn type_oid(c: &Cell) -> (r: u32)
    ensures
        r == type_oid_of(*c),
{
    match c {
        Cell::Bool(_) => BOOL_OID,
        Cell::I8(_) => CHAR_OID,
        Cell::I16(_) => INT2_OID,
        Cell::F32(_) => FLOAT4_OID,
        Cell::I32(_) => INT4_OID,
        Cell::F64(_) => FLOAT8_OID,
        Cell::I64(_) => INT8_OID,
        Cell::Text(_) => TEXT_OID,
        Cell::Date(_) => DATE_OID,
        Cell::Timestamp(_) => TIMESTAMP_OID,
        Cell::Json(_) => JSONB_OID,
    }
}

/// Encodes a cell into its engine-native raw form; total over the closed
/// variant set.
pub fn encode(c: &Cell) -> (r: Datum)
    ensures
        r == encoded(*c),
{
    match c {
        Cell::Bool(v) => Datum::Word(if *v { 1u64 } else { 0u64 }),
        Cell::I8(v) => Datum::Word(*v as u64),
        Cell::I16(v) => Datum::Word(*v as u64),
        Cell::F32(b) => Datum::Word(*b as u64),
        Cell::I32(v) => Datum::Word(*v as u64),
        Cell::F64(b) => Datum::Word(*b),
        Cell::I64(v) => Datum::Word(*v as u64),
        Cell::Text(s) => Datum::Text(s.clone()),
        Cell::Date(d) => Datum::Word(*d as u64),
        Cell::Timestamp(t) => Datum::Word(*t as u64),
        Cell::Json(s) => Datum::Text(s.clone()),
    }
}

/// Decodes an engine-native raw value under a declared type identifier,
/// returning the cell it denotes, or nothing when the value is SQL NULL or
/// not representable.
pub fn decode(raw: &Datum, is_null: bool, oid: u32) -> (r: Option<Cell>)
    ensures
        r == decoded(*raw, is_null, oid),
{
    if is_null {
        return None;
    }
    match raw {
        Datum::Word(w) => {
            if oid == BOOL_OID {
                Some(Cell::Bool(*w != 0))
            } else if oid == CHAR_OID {
                Some(Cell::I8(*w as i8))
            } else if oid == INT2_OID {
                Some(Cell::I16(*w as i16))
            } else if oid == FLOAT4_OID {
                Some(Cell::F32(*w as u32))
            } else if oid == INT4_OID {
                Some(Cell::I32(*w as i32))
            } else if oid == FLOAT8_OID {
                Some(Cell::F64(*w))
            } else if oid == INT8_OID {
                Some(Cell::I64(*w as i64))
            } else if oid == DATE_OID {
                Some(Cell::Date(*w as i32))
            } else if oid == TIMESTAMP_OID {
                Some(Cell::Timestamp(*w as i64))
            } else {
                None
            }
        },
        Datum::Text(s) => {
            if oid == TEXT_OID {
                Some(Cell::Text(s.clone()))
            } else if oid == JSONB_OID {
                Some(Cell::Json(s.clone()))
            } else {
                None
            }
        },
    }
}

/// The codec round-trips: decoding a cell's encoding under the cell's own
/// type identifier, with the null flag clear, gives back exactly that cell,
/// for every variant.
pub proof fn lemma_codec_round_trip(c: Cell)
    ensures
        decoded(encoded(c), false, type_oid_of(c)) == Some(c),
{
    match c {
        Cell::Bool(v) => {
        },
        Cell::I8(v) => {
            assert((v as u64) as i8 == v) by (bit_vector);
        },
        Cell::I16(v) => {
            assert((v as u64) as i16 == v) by (bit_vector);
        },
        Cell::F32(b) => {
            assert((b as u64) as u32 == b) by (bit_vector);
        },
        Cell::I32(v) => {
            assert((v as u64) as i32 == v) by (bit_vector);
        },
        Cell::F64(b) => {
        },
        Cell::I64(v) => {
            assert((v as u64) as i64 == v) by (bit_vector);
        },
        Cell::Text(s) => {
        },
        Cell::Date(d) => {
            assert((d as u64) as i32 == d) by (bit_vector);
        },
        Cell::Timestamp(t) => {
            assert((t as u64) as i64 == t) by (bit_vector);
        },
        Cell::Json(s) => {
        },
    }
}

} // verus!
