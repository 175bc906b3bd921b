//! The names that code using typed tables needs most, in one place.

pub use crate::dataframe::TypedDataFrame;
pub use crate::dtype::{LogicalType, RuntimeType};
pub use crate::error::TypedError;
pub use crate::expr::{col, NumericType, TypedExpr};
pub use crate::io::{CsvReader, CsvWriter, ParquetReader, ParquetWriter};
pub use crate::schema::{Column, ColumnType, FieldDef, Float32, Float64, Schema};
pub use crate::series::TypedSeries;

pub use polars::prelude::{
    AnyValue, BooleanType, ChunkedArray, DataFrame, DataType, IdxCa, IntoColumn, LazyFrame,
    NamedFrom, PolarsError, PolarsResult, Series,
};
