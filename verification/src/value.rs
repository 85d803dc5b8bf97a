//! The typed value model: the universal currency for row data moving between
//! the engine's row representation and a connector's domain.

use vstd::prelude::*;
use vstd::string::*;
use crate::text::{int_seq, dec_seq, i64_text, u64_text};

verus! {

/// A data cell in a data row.
///
/// Exactly one variant is active. Values that only an engine-native library
/// can compute with are carried here as plain data: a single-precision or
/// double-precision float as its bit pattern, a date as a day number, a
/// timestamp as a microsecond count, and a structured document as its textual
/// payload.
#[derive(Debug, PartialEq)]
pub enum Cell {
    Bool(bool),
    I8(i8),
    I16(i16),
    /// Bit pattern of a single-precision float.
    F32(u32),
    I32(i32),
    /// Bit pattern of a double-precision float.
    F64(u64),
    I64(i64),
    Text(String),
    /// Days since the engine's date epoch.
    Date(i32),
    /// Microseconds since the engine's timestamp epoch.
    Timestamp(i64),
    /// Textual payload of a structured document.
    Json(String),
}

impl Clone for Cell {
    /// Deep copy: the clone equals the original, per variant.
    fn clone(&self) -> (r: Self)
        ensures
            r == *self,
    {
        match self {
            Cell::Bool(v) => Cell::Bool(*v),
            Cell::I8(v) => Cell::I8(*v),
            Cell::I16(v) => Cell::I16(*v),
            Cell::F32(v) => Cell::F32(*v),
            Cell::I32(v) => Cell::I32(*v),
            Cell::F64(v) => Cell::F64(*v),
            Cell::I64(v) => Cell::I64(*v),
            Cell::Text(v) => Cell::Text(v.clone()),
            Cell::Date(v) => Cell::Date(*v),
            Cell::Timestamp(v) => Cell::Timestamp(*v),
            Cell::Json(v) => Cell::Json(v.clone()),
        }
    }
}

/// The textual literal form of a cell, used for diagnostic predicate
/// rendering and never for the wire encoding: text is quoted in single
/// quotes, integers (and the day number of a date, the microsecond count of
/// a timestamp) render in decimal, a boolean renders as `true` or `false`,
/// a document renders as its payload, and a float renders as the decimal of
/// its bit pattern, since at this layer a float is an opaque bit pattern.
pub open spec fn cell_text(c: Cell) -> Seq<char> {
    match c {
        Cell::Bool(v) => if v {
            seq!['t', 'r', 'u', 'e']
        } else {
            seq!['f', 'a', 'l', 's', 'e']
        },
        Cell::I8(v) => int_seq(v as int),
        Cell::I16(v) => int_seq(v as int),
        Cell::F32(v) => dec_seq(v as nat),
        Cell::I32(v) => int_seq(v as int),
        Cell::F64(v) => dec_seq(v as nat),
        Cell::I64(v) => int_seq(v as int),
        Cell::Text(v) => seq!['\''] + v@ + seq!['\''],
        Cell::Date(v) => int_seq(v as int),
        Cell::Timestamp(v) => int_seq(v as int),
        Cell::Json(v) => v@,
    }
}

impl Cell {
    /// Renders this cell in its textual literal form.
    pub fn literal_text(&self) -> (r: String)
        ensures
            r@ == cell_text(*self),
    {
        match self {
            Cell::Bool(v) => {
                proof {
                    reveal_strlit("true");
                    reveal_strlit("false");
                }
                let r = if *v {
                    "true".to_owned()
                } else {
                    "false".to_owned()
                };
                proof {
                    assert(r@ =~= cell_text(*self));
                }
                r
            },
            Cell::I8(v) => i64_text(*v as i64),
            Cell::I16(v) => i64_text(*v as i64),
            Cell::F32(v) => u64_text(*v as u64),
            Cell::I32(v) => i64_text(*v as i64),
            Cell::F64(v) => u64_text(*v),
            Cell::I64(v) => i64_text(*v),
            Cell::Text(v) => {
                proof {
                    reveal_strlit("'");
                }
                let mut r = "'".to_owned();
                r.append(v.as_str());
                r.append("'");
                proof {
                    assert(r@ =~= cell_text(*self));
                }
                r
            },
            Cell::Date(v) => i64_text(*v as i64),
            Cell::Timestamp(v) => i64_text(*v),
            Cell::Json(v) => v.clone(),
        }
    }
}

} // verus!
