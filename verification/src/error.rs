//! The errors of the typed layer.

use vstd::prelude::*;
use vstd::string::StringExecFns;
use polars::prelude::PolarsError;
use crate::engine::types::error_text;
use crate::dtype::{LogicalType, RuntimeType};

verus! {

/// Why a table or a column was not accepted, or the engine's own error where
/// an operation handed to the engine failed.
#[derive(Debug)]
pub enum TypedError {
    /// A declared column is absent from the table.
    ColumnNotFound { name: &'static str },
    /// A declared column is present, with another type than the declared
    /// one: `actual` is the kind found, `found` the engine's own name of the
    /// data type found.
    SchemaMismatch { name: &'static str, expected: LogicalType, actual: RuntimeType, found: String },
    /// A column on its own has another element type than the one asked for:
    /// `actual` is the kind found, `found` the engine's own name of the data
    /// type found.
    SeriesTypeMismatch { expected: LogicalType, actual: RuntimeType, found: String },
    /// A failure of the engine, passed on as it came.
    Engine(PolarsError),
}

impl TypedError {
    /// The error says that a column of kind `actual`, whose data type the
    /// engine calls `found`, stands where `expected` was asked for.
    pub open spec fn is_series_mismatch(
        self,
        expected: LogicalType,
        actual: RuntimeType,
        found: Seq<char>,
    ) -> bool {
        self matches TypedError::SeriesTypeMismatch { expected: e, actual: a, found: f } && e
            == expected && a == actual && f@ == found
    }

    /// The error says that the declared column `name` is of kind `actual`,
    /// whose data type the engine calls `found`, where `expected` was declared.
    pub open spec fn is_schema_mismatch(
        self,
        name: &'static str,
        expected: LogicalType,
        actual: RuntimeType,
        found: Seq<char>,
    ) -> bool {
        self matches TypedError::SchemaMismatch { name: n, expected: e, actual: a, found: f } && n
            == name && e == expected && a == actual && f@ == found
    }

    /// The text of an error that the typed layer raises itself.
    pub open spec fn spec_message(self) -> Seq<char> {
        match self {
            TypedError::ColumnNotFound { name } => "Column '"@ + name@
                + "' not found in DataFrame"@,
            TypedError::SchemaMismatch { name, expected, actual, found } => "Column '"@ + name@
                + "' has type "@ + found@ + ", expected "@ + expected.spec_name(),
            TypedError::SeriesTypeMismatch { expected, actual, found } => "Series has type "@
                + found@ + ", expected "@ + expected.spec_name(),
            TypedError::Engine(_) => Seq::empty(),
        }
    }

    /// The error as a line of text: for an error of the typed layer, the
    /// column and the types concerned; for an error of the engine, the
    /// engine's own words.
    pub fn message(&self) -> (s: String)
        ensures
            !(self is Engine) ==> s@ == self.spec_message(),
    {
        match self {
            TypedError::ColumnNotFound { name } => {
                "Column '".to_owned().concat(name).concat("' not found in DataFrame")
            },
            TypedError::SchemaMismatch { name, expected, actual, found } => {
                "Column '".to_owned().concat(name).concat("' has type ").concat(
                    found.as_str(),
                ).concat(", expected ").concat(expected.name())
            },
            TypedError::SeriesTypeMismatch { expected, actual, found } => {
                "Series has type ".to_owned().concat(found.as_str()).concat(", expected ").concat(
                    expected.name(),
                )
            },
            TypedError::Engine(cause) => error_text(cause),
        }
    }
}

} // verus!
