//! The engine's types as Verus is to know them, and the conversion between the
//! engine's data types and the library's tags.

use vstd::prelude::*;
use polars::prelude::{DataFrame, DataType, Expr, LazyFrame, PolarsError, Series};
use polars::prelude::Column as EngineColumn;
use polars_schema::Schema as EngineSchema;
use crate::dtype::{LogicalType, RuntimeType};

verus! {

/// A polars table: named columns of one common length.
#[verifier::external_type_specification]
#[verifier::external_body]
pub struct ExDataFrame(DataFrame);

/// A polars column as a table holds it.
#[verifier::external_type_specification]
#[verifier::external_body]
pub struct ExEngineColumn(EngineColumn);

/// A polars column on its own: a name, a data type and values.
#[verifier::external_type_specification]
#[verifier::external_body]
pub struct ExSeries(Series);

/// The data type of a polars column.
#[verifier::external_type_specification]
#[verifier::external_body]
pub struct ExDataType(DataType);

/// The error type of every fallible polars call.
#[verifier::external_type_specification]
#[verifier::external_body]
pub struct ExPolarsError(PolarsError);

/// A node of a deferred polars computation.
#[verifier::external_type_specification]
#[verifier::external_body]
pub struct ExExpr(Expr);

/// A deferred polars query.
#[verifier::external_type_specification]
#[verifier::external_body]
pub struct ExLazyFrame(LazyFrame);

/// The ordered name-to-type map that polars calls a schema.
#[verifier::external_type_specification]
#[verifier::external_body]
#[verifier::reject_recursive_types(D)]
pub struct ExEngineSchema<D>(EngineSchema<D>);

/// The kind of an engine data type: the logical type it is the image of, or
/// `Other` for the data types that no logical type maps to.
pub uninterp spec fn dtype_kind(dt: DataType) -> RuntimeType;

/// The engine's own name of a data type: what its `Debug` form prints.
pub uninterp spec fn dtype_text(dt: DataType) -> Seq<char>;

/// Formats a `DataType` with its `Debug` form: the engine's own name of the
/// data type.
#[verifier::external_body]
pub(crate) fn dtype_name(dt: &DataType) -> (name: String)
    ensures
        name@ == dtype_text(*dt),
{
    format!("{:?}", dt)
}

/// Tells the variants of `DataType` apart: each of the twelve variants that a
/// logical type maps to gives that type, every other variant gives `Other`.
#[verifier::external_body]
pub(crate) fn runtime_type_of(dt: &DataType) -> (r: RuntimeType)
    ensures
        r == dtype_kind(*dt),
{
    match dt {
        DataType::Int8 => RuntimeType::Known(LogicalType::Int8),
        DataType::Int16 => RuntimeType::Known(LogicalType::Int16),
        DataType::Int32 => RuntimeType::Known(LogicalType::Int32),
        DataType::Int64 => RuntimeType::Known(LogicalType::Int64),
        DataType::UInt8 => RuntimeType::Known(LogicalType::UInt8),
        DataType::UInt16 => RuntimeType::Known(LogicalType::UInt16),
        DataType::UInt32 => RuntimeType::Known(LogicalType::UInt32),
        DataType::UInt64 => RuntimeType::Known(LogicalType::UInt64),
        DataType::Float32 => RuntimeType::Known(LogicalType::Float32),
        DataType::Float64 => RuntimeType::Known(LogicalType::Float64),
        DataType::Boolean => RuntimeType::Known(LogicalType::Boolean),
        DataType::String => RuntimeType::Known(LogicalType::Text),
        _ => RuntimeType::Other,
    }
}

/// Builds the `DataType` variant that a logical type maps to; its kind is that
/// logical type.
#[verifier::external_body]
pub(crate) fn engine_dtype(t: LogicalType) -> (dt: DataType)
    ensures
        dtype_kind(dt) == RuntimeType::Known(t),
{
    match t {
        LogicalType::Int8 => DataType::Int8,
        LogicalType::Int16 => DataType::Int16,
        LogicalType::Int32 => DataType::Int32,
        LogicalType::Int64 => DataType::Int64,
        LogicalType::UInt8 => DataType::UInt8,
        LogicalType::UInt16 => DataType::UInt16,
        LogicalType::UInt32 => DataType::UInt32,
        LogicalType::UInt64 => DataType::UInt64,
        LogicalType::Float32 => DataType::Float32,
        LogicalType::Float64 => DataType::Float64,
        LogicalType::Boolean => DataType::Boolean,
        LogicalType::Text => DataType::String,
    }
}

/// Calls `PolarsError::to_string`: the engine's own text for one of its errors.
#[verifier::external_body]
pub(crate) fn error_text(e: &PolarsError) -> String {
    e.to_string()
}

} // verus!
