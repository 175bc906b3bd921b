//! The boundary with the engine. Everything that Verus is asked to believe
//! about polars is stated in this module and nowhere else: the engine's types,
//! the names under which contracts speak of what a table, a column or an
//! expression holds, and one small function for each engine call the library
//! makes.

pub mod model;
pub mod types;
pub mod frame;
pub mod schema;
pub mod series;
pub mod expr;
