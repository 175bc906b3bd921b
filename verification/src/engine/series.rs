//! What the library believes of a polars `Series`.

use vstd::prelude::*;
use polars::prelude::{DataType, NamedFrom, Series};
use crate::dtype::{LogicalType, RuntimeType};
use crate::engine::model::{text_fits, Cell, ColumnView, MAX_COLUMN_LEN};
use crate::engine::types::{dtype_kind, dtype_text};

verus! {

/// The name of a column.
pub uninterp spec fn series_name(s: Series) -> Seq<char>;

/// The kind of a column's data type.
pub uninterp spec fn series_kind(s: Series) -> RuntimeType;

/// The values of a column, from the first to the last.
pub uninterp spec fn series_values(s: Series) -> Seq<Cell>;

/// The engine's own name of a column's data type.
pub uninterp spec fn series_type_text(s: Series) -> Seq<char>;

/// A column as contracts see it: its name, its kind, the name of its data
/// type and its values.
pub open spec fn column_view(s: Series) -> ColumnView {
    ColumnView {
        name: series_name(s),
        kind: series_kind(s),
        type_text: series_type_text(s),
        values: series_values(s),
    }
}

/// Calls `Series::name`, which returns the column's name.
#[verifier::external_body]
pub(crate) fn series_name_of(s: &Series) -> (n: &str)
    ensures
        n@ == series_name(*s),
{
    s.name().as_str()
}

/// Calls `Series::len`, which returns the number of values.
#[verifier::external_body]
pub(crate) fn series_len_of(s: &Series) -> (n: usize)
    ensures
        n == series_values(*s).len(),
{
    s.len()
}

/// Calls `Series::is_empty`, which is true for a column without values.
#[verifier::external_body]
pub(crate) fn series_is_empty(s: &Series) -> (b: bool)
    ensures
        b == (series_values(*s).len() == 0),
{
    s.is_empty()
}

/// Calls `Series::dtype` and copies the result: the column's data type.
#[verifier::external_body]
pub(crate) fn series_dtype_of(s: &Series) -> (dt: DataType)
    ensures
        dtype_kind(dt) == series_kind(*s),
        dtype_text(dt) == series_type_text(*s),
{
    s.dtype().clone()
}

/// Calls `Series::rename`, which replaces the name and leaves the data type
/// and the values as they are.
#[verifier::external_body]
pub(crate) fn series_rename(s: &mut Series, name: &str)
    ensures
        series_name(*final(s)) == name@,
        series_kind(*final(s)) == series_kind(*old(s)),
        series_type_text(*final(s)) == series_type_text(*old(s)),
        series_values(*final(s)) == series_values(*old(s)),
{
    s.rename(name.into());
}

/// Calls `Series::clone`, which gives the same column again.
#[verifier::external_body]
pub(crate) fn series_clone(s: &Series) -> (r: Series)
    ensures
        r == *s,
{
    s.clone()
}

/// Calls `Series::new` on a vector of `i32`: a column of that name with one
/// 32-bit integer value for each element. The engine stops the program on
/// more values than a column can have.
#[verifier::external_body]
pub(crate) fn series_from_i32(name: &str, data: Vec<i32>) -> (s: Series)
    requires
        data@.len() < MAX_COLUMN_LEN,
    ensures
        series_name(s) == name@,
        series_kind(s) == RuntimeType::Known(LogicalType::Int32),
        series_values(s) == Seq::new(data@.len(), |i: int| Cell::Int(data@[i] as int)),
{
    Series::new(name.into(), data)
}

/// Calls `Series::new` on a vector of `i64`: a column of that name with one
/// 64-bit integer value for each element. The engine stops the program on
/// more values than a column can have.
#[verifier::external_body]
pub(crate) fn series_from_i64(name: &str, data: Vec<i64>) -> (s: Series)
    requires
        data@.len() < MAX_COLUMN_LEN,
    ensures
        series_name(s) == name@,
        series_kind(s) == RuntimeType::Known(LogicalType::Int64),
        series_values(s) == Seq::new(data@.len(), |i: int| Cell::Int(data@[i] as int)),
{
    Series::new(name.into(), data)
}

/// Calls `Series::new` on a vector of `bool`: a column of that name with one
/// boolean value for each element. The engine stops the program on more
/// values than a column can have.
#[verifier::external_body]
pub(crate) fn series_from_bool(name: &str, data: Vec<bool>) -> (s: Series)
    requires
        data@.len() < MAX_COLUMN_LEN,
    ensures
        series_name(s) == name@,
        series_kind(s) == RuntimeType::Known(LogicalType::Boolean),
        series_values(s) == Seq::new(data@.len(), |i: int| Cell::Bool(data@[i])),
{
    Series::new(name.into(), data)
}

/// Calls `Series::new` on a vector of `String`: a column of that name with one
/// text value for each element. The engine stops the program on more values
/// than a column can have and on a text that is too long for it.
#[verifier::external_body]
pub(crate) fn series_from_strings(name: &str, data: Vec<String>) -> (s: Series)
    requires
        data@.len() < MAX_COLUMN_LEN,
        forall|i: int| 0 <= i < data@.len() ==> text_fits((#[trigger] data@[i])@),
    ensures
        series_name(s) == name@,
        series_kind(s) == RuntimeType::Known(LogicalType::Text),
        series_values(s) == Seq::new(data@.len(), |i: int| Cell::Text(data@[i]@)),
{
    Series::new(name.into(), data)
}

/// Calls `Series::new` on a slice of `&str`: a column of that name with one
/// text value for each element. The engine stops the program on more values
/// than a column can have and on a text that is too long for it.
#[verifier::external_body]
pub(crate) fn series_from_strs(name: &str, data: &[&str]) -> (s: Series)
    requires
        data@.len() < MAX_COLUMN_LEN,
        forall|i: int| 0 <= i < data@.len() ==> text_fits((#[trigger] data@[i])@),
    ensures
        series_name(s) == name@,
        series_kind(s) == RuntimeType::Known(LogicalType::Text),
        series_values(s) == Seq::new(data@.len(), |i: int| Cell::Text(data@[i]@)),
{
    Series::new(name.into(), data)
}

} // verus!
