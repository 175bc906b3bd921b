//! A schema-checked layer over polars tables.
//!
//! A schema is a type that lists named, typed columns. A `TypedDataFrame` of
//! a schema wraps a polars table that is known to have those columns; a
//! `TypedSeries` wraps a column of a known element type; a `TypedExpr` wraps a
//! lazy expression with the type its result is expected to have. Tables and
//! columns enter through a check, and every operation offered on the wrappers
//! keeps what the check established.
//!
//! The contracts of this crate are written over a small mathematical picture
//! of the engine's values (`engine::model`); what is believed of the engine
//! itself, call by call, stands in `engine` and nowhere else. `laws` proves
//! what follows for the library as a whole.

pub mod dtype;
pub mod engine;
pub mod error;
pub mod schema;
pub mod series;
pub mod dataframe;
pub mod expr;
pub mod io;
pub mod laws;
pub mod prelude;

pub use dataframe::TypedDataFrame;
pub use dtype::{LogicalType, RuntimeType};
pub use error::TypedError;
pub use expr::TypedExpr;
pub use schema::Schema;
pub use series::TypedSeries;
