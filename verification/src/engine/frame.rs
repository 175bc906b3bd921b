//! What the library believes of a polars `DataFrame`.

use vstd::prelude::*;
use polars::prelude::{
    BooleanChunked, DataFrame, DataType, IdxCa, IntoLazy, LazyFrame, NewChunkedArray, PolarsError,
    Series, SortMultipleOptions,
};
use polars::series::IsSorted;
use crate::dtype::RuntimeType;
use crate::engine::model::{
    column_index, count_true, has_column, in_key_order, is_row_order, lookup, rows_at, rows_at_or_null, rows_kept,
    rows_window,
    slice_rows, slice_start, Cell, ColumnSig, SortMark, TableView, MAX_COLUMN_LEN,
};
use crate::engine::series::{series_kind, series_name, series_type_text, series_values};
use crate::engine::types::{dtype_kind, dtype_text};

verus! {

/// The columns of a table in their order, each with its name and the kind of
/// its data type. The engine keeps the names of one table distinct.
pub uninterp spec fn frame_fields(df: DataFrame) -> Seq<ColumnSig>;

/// The number of rows of a table.
pub uninterp spec fn frame_height(df: DataFrame) -> nat;

/// The values of a table, column by column in the order of `frame_fields`,
/// each column from the first row to the last.
pub uninterp spec fn frame_values(df: DataFrame) -> Seq<Seq<Cell>>;

/// The sort marks of a table's columns, in the order of `frame_fields`.
pub uninterp spec fn frame_marks(df: DataFrame) -> Seq<SortMark>;

/// The engine's own names of the data types of a table's columns, in the
/// order of `frame_fields`.
pub uninterp spec fn frame_type_texts(df: DataFrame) -> Seq<Seq<char>>;

/// A table as contracts see it: its columns, its row count, its values, its
/// sort marks and the names of its data types.
pub open spec fn table_view(df: DataFrame) -> TableView {
    TableView {
        fields: frame_fields(df),
        height: frame_height(df),
        values: frame_values(df),
        marks: frame_marks(df),
        type_texts: frame_type_texts(df),
    }
}

/// The row count that `head` and `tail` come to when `n` rows are asked for.
pub open spec fn rows_asked(n: Option<usize>, height: nat) -> nat {
    let wanted = match n {
        Some(k) => k,
        None => DEFAULT_ROWS,
    };
    if wanted <= height {
        wanted as nat
    } else {
        height
    }
}

/// The row count that the engine takes where `head` or `tail` is given none.
pub const DEFAULT_ROWS: usize = 10;

/// The largest row count on which the engine can compute a row window: it
/// counts rows from either end with signed 64-bit offsets.
pub const MAX_WINDOW_HEIGHT: u64 = 0x7fff_ffff_ffff_ffff;

/// Calls `DataFrame::height`, which returns the table's row count: every
/// column has that many values.
#[verifier::external_body]
pub(crate) fn frame_height_of(df: &DataFrame) -> (n: usize)
    ensures
        n == frame_height(*df),
        forall|i: int|
            0 <= i < frame_values(*df).len() ==> (#[trigger] frame_values(*df)[i]).len() == n,
{
    df.height()
}

/// Calls `DataFrame::width`, which returns the number of columns.
#[verifier::external_body]
pub(crate) fn frame_width_of(df: &DataFrame) -> (n: usize)
    ensures
        n == frame_fields(*df).len(),
        n == frame_values(*df).len(),
{
    df.width()
}

/// Calls `DataFrame::shape`, which returns the row count and the column count.
#[verifier::external_body]
pub(crate) fn frame_shape_of(df: &DataFrame) -> (shape: (usize, usize))
    ensures
        shape.0 == frame_height(*df),
        shape.1 == frame_fields(*df).len(),
{
    df.shape()
}

/// Calls `DataFrame::is_empty`, which is true for a table without rows and
/// for a table without columns.
#[verifier::external_body]
pub(crate) fn frame_is_empty(df: &DataFrame) -> (b: bool)
    ensures
        b == (frame_height(*df) == 0 || frame_fields(*df).len() == 0),
{
    df.is_empty()
}

/// Calls `DataFrame::clone`, which gives the same table again.
#[verifier::external_body]
pub(crate) fn frame_clone(df: &DataFrame) -> (r: DataFrame)
    ensures
        r == *df,
{
    df.clone()
}

/// Calls `DataFrame::get_column_index`, then `DataFrame::select_at_idx` and
/// `Column::dtype` on what it finds: the data type of the column called
/// `name`, or `None` where the table has no column of that name. (The column
/// itself is asked, not the table's cached schema, which the engine lets fall
/// behind the columns.)
#[verifier::external_body]
pub(crate) fn frame_dtype_of(df: &DataFrame, name: &str) -> (r: Option<DataType>)
    ensures
        r is Some <==> has_column(frame_fields(*df), name@),
        r matches Some(dt) ==> lookup(frame_fields(*df), name@) == Some(dtype_kind(dt)),
        r matches Some(dt) ==> dtype_text(dt) == frame_type_texts(*df)[column_index(
            frame_fields(*df),
            name@,
        )],
{
    df.get_column_index(name).and_then(|i| df.select_at_idx(i)).map(|c| c.dtype().clone())
}

/// Calls `DataFrame::get_column_names` and copies the names out: the names
/// of the columns, in their order.
#[verifier::external_body]
pub(crate) fn frame_names_of(df: &DataFrame) -> (names: Vec<String>)
    ensures
        names@.len() == frame_fields(*df).len(),
        forall|i: int|
            0 <= i < names@.len() ==> (#[trigger] names@[i])@ == frame_fields(*df)[i].name,
{
    df.get_column_names().iter().map(|n| n.to_string()).collect()
}

/// Calls `DataFrame::get_column_index`, then `DataFrame::select_at_idx` and
/// `Column::is_sorted_flag` on what it finds: the sort mark of the column
/// called `name`, or `None` where the table has no column of that name.
#[verifier::external_body]
pub(crate) fn frame_mark_of(df: &DataFrame, name: &str) -> (r: Option<SortMark>)
    ensures
        r is Some <==> has_column(frame_fields(*df), name@),
        r matches Some(mark) ==> mark == frame_marks(*df)[column_index(frame_fields(*df), name@)],
{
    let found = df.get_column_index(name).and_then(|i| df.select_at_idx(i));
    found.map(|c| match c.is_sorted_flag() {
        IsSorted::Ascending => SortMark::Ascending,
        IsSorted::Descending => SortMark::Descending,
        IsSorted::Not => SortMark::Unmarked,
    })
}

/// Calls `DataFrame::column` and copies the column out as a `Series`. The
/// call fails exactly where the table has no column of that name; the column
/// that comes back has that name, and the type and the values that the table
/// has under it, one value for each row.
///
/// A table may hold a column of one repeated value without the values
/// standing in memory; copying it out puts them there, and the engine stops
/// the program on more values than a column can have.
#[verifier::external_body]
pub(crate) fn frame_column(df: &DataFrame, name: &str) -> (r: Result<Series, PolarsError>)
    requires
        has_column(frame_fields(*df), name@) ==> frame_height(*df) < MAX_COLUMN_LEN,
    ensures
        r is Ok <==> has_column(frame_fields(*df), name@),
        r matches Ok(s) ==> {
            &&& series_name(s) == name@
            &&& lookup(frame_fields(*df), name@) == Some(series_kind(s))
            &&& series_type_text(s) == table_view(*df).type_text_of(name@)
            &&& series_values(s) == table_view(*df).values_of(name@)
            &&& series_values(s).len() == frame_height(*df)
        },
{
    df.column(name).map(|c| c.as_materialized_series().clone())
}

/// Calls `DataFrame::select`. The call succeeds exactly where the names are
/// distinct and each names a column; the table that comes back has those
/// columns with their values, in the order of the names.
#[verifier::external_body]
pub(crate) fn frame_select(df: &DataFrame, names: Vec<&str>) -> (r: Result<DataFrame, PolarsError>)
    ensures
        r is Ok <==> {
            &&& forall|i: int, j: int|
                0 <= i < j < names@.len() ==> (#[trigger] names@[i])@ != (#[trigger] names@[j])@
            &&& forall|i: int|
                0 <= i < names@.len() ==> has_column(frame_fields(*df), (#[trigger] names@[i])@)
        },
        r matches Ok(out) ==> {
            &&& frame_height(out) == frame_height(*df)
            &&& frame_fields(out).len() == names@.len()
            &&& frame_values(out).len() == names@.len()
            &&& forall|i: int|
                0 <= i < names@.len() ==> {
                    &&& (#[trigger] frame_fields(out)[i]).name == names@[i]@
                    &&& lookup(frame_fields(*df), names@[i]@) == Some(frame_fields(out)[i].kind)
                    &&& frame_values(out)[i] == table_view(*df).values_of(names@[i]@)
                }
        },
{
    df.select(names)
}

/// Calls `DataFrame::filter` with the mask as a boolean column without nulls.
/// Filtering keeps every column's name and type. A mask with one entry for
/// each row is always accepted, and the rows it marks `true` are the rows that
/// stay. The mask has to fit in an engine column.
///
/// On a table without columns the engine takes a mask of another length as
/// one entry that stands for all rows, and stops the program where such a
/// mask marks more than one entry.
#[verifier::external_body]
pub(crate) fn frame_filter(df: &DataFrame, mask: &[bool]) -> (r: Result<DataFrame, PolarsError>)
    requires
        mask@.len() < MAX_COLUMN_LEN,
        frame_fields(*df).len() > 0 || mask@.len() == frame_height(*df) || count_true(mask@) <= 1,
    ensures
        mask@.len() == frame_height(*df) ==> r is Ok,
        r matches Ok(out) ==> frame_fields(out) == frame_fields(*df),
        r matches Ok(out) ==> (mask@.len() == frame_height(*df) ==> {
            &&& frame_height(out) == count_true(mask@)
            &&& frame_values(out) == rows_kept(frame_values(*df), mask@)
        }),
{
    df.filter(&BooleanChunked::from_slice("".into(), mask))
}

/// Calls `DataFrame::take` with the row numbers as an index column without
/// nulls. Taking keeps every column's name and type and gives one row for each
/// row number; row numbers that are all below the row count are always
/// accepted, and in a table with columns no others are. The row numbers
/// have to fit in an engine column.
#[verifier::external_body]
pub(crate) fn frame_take(df: &DataFrame, rows: &[u32]) -> (r: Result<DataFrame, PolarsError>)
    requires
        rows@.len() < MAX_COLUMN_LEN,
    ensures
        frame_height(*df) <= u32::MAX && (forall|i: int|
            0 <= i < rows@.len() ==> (#[trigger] rows@[i]) < frame_height(*df)) ==> r is Ok,
        frame_fields(*df).len() > 0 && frame_height(*df) <= u32::MAX && (exists|i: int|
            0 <= i < rows@.len() && (#[trigger] rows@[i]) >= frame_height(*df)) ==> r is Err,
        r matches Ok(out) ==> {
            &&& frame_fields(out) == frame_fields(*df)
            &&& frame_height(out) == rows@.len()
            &&& frame_values(out) == rows_at(
                frame_values(*df),
                Seq::new(rows@.len(), |k: int| rows@[k] as int),
            )
        },
{
    df.take(&IdxCa::from_slice("".into(), rows))
}

/// Calls `DataFrame::take` with the row numbers as an index column in which
/// an entry may be missing. Taking keeps every column's name and type and
/// gives one row for each entry, a row of missing values for a missing one;
/// row numbers that are all below the row count are always accepted, and in
/// a table with columns no others are. The entries have to fit in an engine
/// column.
#[verifier::external_body]
pub(crate) fn frame_take_nullable(df: &DataFrame, rows: &[Option<u32>]) -> (r: Result<
    DataFrame,
    PolarsError,
>)
    requires
        rows@.len() < MAX_COLUMN_LEN,
    ensures
        frame_height(*df) <= u32::MAX && (forall|i: int|
            0 <= i < rows@.len() ==> ((#[trigger] rows@[i]) matches Some(row) ==> row
                < frame_height(*df))) ==> r is Ok,
        frame_fields(*df).len() > 0 && frame_height(*df) <= u32::MAX && (exists|i: int|
            0 <= i < rows@.len() && ((#[trigger] rows@[i]) matches Some(row) && row
                >= frame_height(*df))) ==> r is Err,
        r matches Ok(out) ==> {
            &&& frame_fields(out) == frame_fields(*df)
            &&& frame_height(out) == rows@.len()
            &&& frame_values(out) == rows_at_or_null(
                frame_values(*df),
                Seq::new(
                    rows@.len(),
                    |k: int|
                        match rows@[k] {
                            Some(row) => Some(row as int),
                            None => None,
                        },
                ),
            )
        },
{
    df.take(&IdxCa::from_slice_options("".into(), rows))
}

/// Calls `DataFrame::sort` on one column, ascending or descending, with the
/// engine's other sort options at their defaults. The call fails exactly
/// where no column has that name. Sorting keeps every column's name and type
/// and puts the rows in another order: each row of the table is one row of
/// the result.
///
/// The engine trusts the key's sort mark: a key marked as sorted the way that
/// is asked for comes back as it stands, and one marked the other way is
/// turned round. So the key of the result is in the order asked for where
/// the mark of the key handed in is true, and the mark of the result's key is
/// then true as well.
///
/// The engine's sort is not defined on every data type and stops the program
/// on some: only a key that is absent or of a known kind may be handed in.
/// Sorting puts the key's values in memory, so the table must not have more
/// rows than a column can have values.
#[verifier::external_body]
pub(crate) fn frame_sort(df: &DataFrame, by: &str, descending: bool) -> (r: Result<
    DataFrame,
    PolarsError,
>)
    requires
        lookup(frame_fields(*df), by@) != Some(RuntimeType::Other),
        has_column(frame_fields(*df), by@) ==> frame_height(*df) < MAX_COLUMN_LEN,
    ensures
        r is Ok <==> has_column(frame_fields(*df), by@),
        r matches Ok(out) ==> {
            &&& frame_fields(out) == frame_fields(*df)
            &&& frame_height(out) == frame_height(*df)
            &&& exists|order: Seq<int>| #[trigger]
                is_row_order(order, frame_height(*df)) && frame_values(out) == rows_at(
                    frame_values(*df),
                    order,
                )
            &&& table_view(*df).mark_is_true(by@) ==> {
                &&& in_key_order(table_view(out).values_of(by@), descending)
                &&& table_view(out).mark_is_true(by@)
            }
        },
{
    df.sort(vec![by], SortMultipleOptions::default().with_order_descending(descending))
}

/// Calls `DataFrame::head`: the first `n` rows, ten where `n` is `None`, or
/// all rows where the table has fewer; every column keeps its name and type.
#[verifier::external_body]
pub(crate) fn frame_head(df: &DataFrame, n: Option<usize>) -> (out: DataFrame)
    requires
        frame_height(*df) <= MAX_WINDOW_HEIGHT,
    ensures
        frame_fields(out) == frame_fields(*df),
        frame_height(out) == rows_asked(n, frame_height(*df)),
        frame_values(out) == rows_window(
            frame_values(*df),
            0,
            rows_asked(n, frame_height(*df)) as int,
        ),
{
    df.head(n)
}

/// Calls `DataFrame::tail`: the last `n` rows, ten where `n` is `None`, or
/// all rows where the table has fewer; every column keeps its name and type.
#[verifier::external_body]
pub(crate) fn frame_tail(df: &DataFrame, n: Option<usize>) -> (out: DataFrame)
    requires
        frame_height(*df) <= MAX_WINDOW_HEIGHT,
    ensures
        frame_fields(out) == frame_fields(*df),
        frame_height(out) == rows_asked(n, frame_height(*df)),
        frame_values(out) == rows_window(
            frame_values(*df),
            frame_height(*df) - rows_asked(n, frame_height(*df)),
            rows_asked(n, frame_height(*df)) as int,
        ),
{
    df.tail(n)
}

/// Calls `DataFrame::slice`: the rows of the window that starts at `offset`,
/// counted from the end where it is negative, and is `length` rows long, as far
/// as the table has them; every column keeps its name and type.
#[verifier::external_body]
pub(crate) fn frame_slice(df: &DataFrame, offset: i64, length: usize) -> (out: DataFrame)
    requires
        frame_height(*df) <= MAX_WINDOW_HEIGHT,
    ensures
        frame_fields(out) == frame_fields(*df),
        frame_height(out) == slice_rows(offset as int, length as int, frame_height(*df) as int),
        frame_values(out) == rows_window(
            frame_values(*df),
            slice_start(offset as int, frame_height(*df) as int),
            slice_rows(offset as int, length as int, frame_height(*df) as int),
        ),
{
    df.slice(offset, length)
}

/// The shape of a deferred query, as far as the library builds queries.
/// `Other` stands for every query that does more than read a table.
pub enum PlanModel {
    /// The query that reads the rows of one table held in memory, as they
    /// are, and does nothing else.
    Scan(TableView),
    Other,
}

/// The shape of an engine query.
pub uninterp spec fn lazy_plan(query: LazyFrame) -> PlanModel;

/// Calls `DataFrame::lazy`, which makes the query that reads this table and
/// does nothing else; nothing is run.
#[verifier::external_body]
pub(crate) fn frame_lazy(df: DataFrame) -> (query: LazyFrame)
    ensures
        lazy_plan(query) == PlanModel::Scan(table_view(df)),
{
    df.lazy()
}

} // verus!
