//! Interface types and trait for developing a foreign data wrapper: a typed
//! value model for moving row data in and out of a query engine, the
//! declarative query-pushdown model (predicates, sort specification, limit),
//! and the scan/modify lifecycle contract a connector implementation must
//! satisfy.

pub mod text;
pub mod value;
pub mod row;
pub mod query;
pub mod codec;
pub mod fdw;
pub mod mem;
