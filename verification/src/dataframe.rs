//! A table that is known to have the columns of a schema.

use vstd::prelude::*;
use std::marker::PhantomData;
use polars::prelude::{DataFrame, DataType, LazyFrame, PolarsError};
use polars_schema::Schema as EngineSchema;
use crate::dtype::RuntimeType;
use crate::engine::frame::{
    frame_clone, frame_column, frame_filter, frame_head, frame_height_of, frame_is_empty,
    frame_lazy, frame_mark_of, frame_names_of, frame_select, frame_shape_of, frame_slice,
    frame_sort, frame_tail, frame_take, frame_take_nullable, frame_width_of, lazy_plan,
    rows_asked, table_view, PlanModel, MAX_WINDOW_HEIGHT,
};
use crate::engine::model::{
    count_true, in_key_order, is_row_order, names_distinct, rows_at, rows_at_or_null, rows_kept,
    rows_window, slice_rows, slice_start, ColumnView, SortMark, TableView, MAX_COLUMN_LEN,
};
use crate::engine::schema::schema_fields;
use crate::error::TypedError;
use crate::schema::{
    column_kind, conforms, declared, is_validation_error, names_unique, validate_fields, Column,
    ColumnType, Schema,
};
use crate::series::{column_len_fits, is_column_len, TypedSeries};

verus! {

/// What becomes of an untyped table that the engine was asked for: the table
/// as it came, or the engine's failure as it came.
pub fn pass_on(outcome: Result<DataFrame, PolarsError>) -> (r: Result<DataFrame, TypedError>)
    ensures
        outcome matches Ok(df) ==> r matches Ok(out) && out == df,
        outcome matches Err(cause) ==> r matches Err(e) && e == TypedError::Engine(cause),
{
    match outcome {
        Ok(df) => Ok(df),
        Err(cause) => Err(TypedError::Engine(cause)),
    }
}

/// A table of the engine together with the knowledge that it has every column
/// that the schema `S` declares, each with its declared type. Every way of
/// making or deriving one keeps that true.
pub struct TypedDataFrame<S: Schema> {
    inner: DataFrame,
    marker: PhantomData<S>,
}

impl<S: Schema> View for TypedDataFrame<S> {
    type V = TableView;

    /// A typed table is seen as the table it wraps: columns, row count, values.
    open spec fn view(&self) -> TableView {
        table_view(self.frame())
    }
}

impl<S: Schema> TypedDataFrame<S> {
    /// What a typed table is never without: conformance to its schema.
    #[verifier::type_invariant]
    spec fn conforming(self) -> bool {
        conforms(S::FIELDS@, table_view(self.inner).fields)
    }

    /// The engine table that is wrapped.
    pub closed spec fn frame(self) -> DataFrame {
        self.inner
    }

    /// Wraps a table after checking it against the schema. The table is
    /// accepted exactly when it has every declared column with its declared
    /// type; otherwise the first declared column that is missing or
    /// differently typed is reported. Columns beyond the declared ones are
    /// let through unexamined.
    pub fn new(df: DataFrame) -> (r: Result<Self, TypedError>)
        ensures
            r is Ok <==> conforms(S::FIELDS@, table_view(df).fields),
            r matches Ok(t) ==> t.frame() == df,
            r matches Err(e) ==> is_validation_error(S::FIELDS@, table_view(df), e),
    {
        match validate_fields(S::FIELDS, &df) {
            Ok(()) => Ok(TypedDataFrame { inner: df, marker: PhantomData }),
            Err(e) => Err(e),
        }
    }

    /// Wraps a table without looking at it. The caller answers for its
    /// conformance to the schema.
    pub fn new_unchecked(df: DataFrame) -> (t: Self)
        requires
            conforms(S::FIELDS@, table_view(df).fields),
        ensures
            t.frame() == df,
    {
        TypedDataFrame { inner: df, marker: PhantomData }
    }

    /// The wrapped engine table, which conforms to the schema.
    pub fn inner(&self) -> (df: &DataFrame)
        ensures
            *df == self.frame(),
            conforms(S::FIELDS@, self@.fields),
    {
        proof {
            use_type_invariant(self);
        }
        &self.inner
    }

    /// Gives the engine table back.
    pub fn into_inner(self) -> (df: DataFrame)
        ensures
            df == self.frame(),
            conforms(S::FIELDS@, self@.fields),
    {
        proof {
            use_type_invariant(&self);
        }
        self.inner
    }

    /// The schema's declaration as an engine schema.
    pub fn schema() -> (s: EngineSchema<DataType>)
        ensures
            names_unique(S::FIELDS@) ==> schema_fields(s) == declared(S::FIELDS@),
    {
        S::schema()
    }

    /// The number of rows: every column has that many values.
    pub fn height(&self) -> (n: usize)
        ensures
            n == self@.height,
            forall|i: int| 0 <= i < self@.values.len() ==> (#[trigger] self@.values[i]).len() == n,
    {
        frame_height_of(&self.inner)
    }

    /// The number of columns, declared or not.
    pub fn width(&self) -> (n: usize)
        ensures
            n == self@.fields.len(),
            n == self@.values.len(),
    {
        frame_width_of(&self.inner)
    }

    /// The number of rows and the number of columns.
    pub fn shape(&self) -> (shape: (usize, usize))
        ensures
            shape.0 == self@.height,
            shape.1 == self@.fields.len(),
    {
        frame_shape_of(&self.inner)
    }

    /// Whether the table has no rows or no columns.
    pub fn is_empty(&self) -> (b: bool)
        ensures
            b == (self@.height == 0 || self@.fields.len() == 0),
    {
        frame_is_empty(&self.inner)
    }

    /// Whether the engine can cut a window of rows out of the table: it counts
    /// rows with signed 64-bit numbers.
    pub open spec fn windowable(self) -> bool {
        self@.height <= MAX_WINDOW_HEIGHT
    }

    /// Whether the column called `name`, if the table has one, can be had on
    /// its own. A column on its own has its values in memory, which the engine
    /// counts in 32 bits; a table may have more rows than that.
    pub open spec fn readable(self, name: Seq<char>) -> bool {
        self@.has(name) ==> self@.height < MAX_COLUMN_LEN
    }

    /// Whether the engine can order the table by the column called `name`: it
    /// can where there is no such column (and says so), and where the column
    /// is of a declarable type and can be had in memory.
    pub open spec fn sortable_by(self, name: Seq<char>) -> bool {
        self@.kind_of(name) != Some(RuntimeType::Other) && self.readable(name)
    }

    /// Whether the engine can filter the table by a mask. The mask is handed
    /// over as a column and has to fit in one. And on a table without columns
    /// the engine takes a mask that has not one entry for each row as a single
    /// entry standing for all rows: such a mask must not mark more than one.
    pub open spec fn filterable(self, mask: Seq<bool>) -> bool {
        &&& column_len_fits(mask.len())
        &&& self@.fields.len() > 0 || mask.len() == self@.height || count_true(mask) <= 1
    }

    /// Whether the engine can filter the table by a mask.
    pub fn is_filterable(&self, mask: &[bool]) -> (b: bool)
        ensures
            b == self.filterable(mask@),
    {
        if !is_column_len(mask.len()) {
            return false;
        }
        if frame_width_of(&self.inner) > 0 || mask.len() == frame_height_of(&self.inner) {
            return true;
        }
        let mut marked: usize = 0;
        let mut i: usize = 0;
        while i < mask.len()
            invariant
                i <= mask.len(),
                marked == count_true(mask@.take(i as int)),
                marked <= i,
            decreases mask.len() - i,
        {
            proof {
                assert(mask@.take(i + 1).drop_last() =~= mask@.take(i as int));
            }
            if mask[i] {
                marked += 1;
            }
            i += 1;
        }
        proof {
            assert(mask@.take(mask@.len() as int) =~= mask@);
        }
        marked <= 1
    }

    /// Whether the engine can cut a window of rows out of the table.
    pub fn is_windowable(&self) -> (b: bool)
        ensures
            b == self.windowable(),
    {
        frame_height_of(&self.inner) as u64 <= MAX_WINDOW_HEIGHT
    }

    /// Whether the column called `name`, if the table has one, can be had on
    /// its own.
    pub fn is_readable(&self, name: &str) -> (b: bool)
        ensures
            b == self.readable(name@),
    {
        match column_kind(&self.inner, name) {
            Some(_) => is_column_len(frame_height_of(&self.inner)),
            None => true,
        }
    }

    /// Whether the engine can order the table by the column called `name`.
    pub fn is_sortable_by(&self, name: &str) -> (b: bool)
        ensures
            b == self.sortable_by(name@),
    {
        match column_kind(&self.inner, name) {
            Some(RuntimeType::Other) => false,
            Some(RuntimeType::Known(_)) => is_column_len(frame_height_of(&self.inner)),
            None => true,
        }
    }

    /// The names of the table's columns, declared or not, in their order.
    pub fn column_names(&self) -> (names: Vec<String>)
        ensures
            names@.len() == self@.fields.len(),
            forall|i: int| 0 <= i < names@.len() ==> (#[trigger] names@[i])@ == self@.fields[i].name,
    {
        frame_names_of(&self.inner)
    }

    /// Whether no two columns of the table share a name. The engine means to
    /// keep it so; this looks.
    pub fn has_distinct_names(&self) -> (b: bool)
        ensures
            b == names_distinct(self@.fields),
    {
        let names = frame_names_of(&self.inner);
        let ghost fields = self@.fields;
        let mut i: usize = 0;
        while i < names.len()
            invariant
                i <= names.len(),
                fields == self@.fields,
                names@.len() == fields.len(),
                forall|k: int| 0 <= k < names@.len() ==> (#[trigger] names@[k])@ == fields[k].name,
                forall|a: int, b: int|
                    0 <= a < i && a < b < fields.len() ==> (#[trigger] fields[a]).name != (
                    #[trigger] fields[b]).name,
            decreases names.len() - i,
        {
            let mut j: usize = i + 1;
            while j < names.len()
                invariant
                    i < j <= names.len(),
                    fields == self@.fields,
                    names@.len() == fields.len(),
                    forall|k: int|
                        0 <= k < names@.len() ==> (#[trigger] names@[k])@ == fields[k].name,
                    forall|b: int|
                        i < b < j ==> fields[i as int].name != (#[trigger] fields[b]).name,
                decreases names.len() - j,
            {
                if names[i].eq(&names[j]) {
                    assert(fields[i as int].name == fields[j as int].name);
                    assert(!names_distinct(fields)) by {
                        let a = i as int;
                        let b = j as int;
                        assert(0 <= a < fields.len() && 0 <= b < fields.len() && a != b);
                        assert(fields[a].name == fields[b].name);
                    }
                    return false;
                }
                j += 1;
            }
            i += 1;
        }
        proof {
            assert forall|a: int, b: int|
                0 <= a < fields.len() && 0 <= b < fields.len() && a != b implies (
            #[trigger] fields[a]).name != (#[trigger] fields[b]).name by {
                if a < b {
                } else {
                    assert(fields[b].name != fields[a].name);
                }
            }
        }
        true
    }

    /// The sort mark of the column called `name`, or `None` where the table
    /// has no column of that name. An unmarked key is one that `sort` orders
    /// whatever its values are.
    pub fn sort_mark(&self, name: &str) -> (r: Option<SortMark>)
        ensures
            r is Some <==> self@.has(name@),
            r matches Some(mark) ==> mark == self@.mark_of(name@),
    {
        frame_mark_of(&self.inner, name)
    }

    /// What becomes of the engine's answer to a row operation on a typed
    /// table: a table that keeps the schema is wrapped as it came, and a
    /// failure of the engine is passed on as it came.
    pub fn from_row_operation(outcome: Result<DataFrame, PolarsError>) -> (r: Result<
        Self,
        TypedError,
    >)
        requires
            outcome matches Ok(df) ==> conforms(S::FIELDS@, table_view(df).fields),
        ensures
            outcome matches Ok(df) ==> r matches Ok(t) && t.frame() == df,
            outcome matches Err(cause) ==> r matches Err(e) && e == TypedError::Engine(cause),
    {
        match outcome {
            Ok(df) => Ok(TypedDataFrame { inner: df, marker: PhantomData }),
            Err(cause) => Err(TypedError::Engine(cause)),
        }
    }

    /// The run-time kind of the column called `name`, declared or not, or
    /// `None` where the table has no column of that name.
    pub fn kind_of(&self, name: &str) -> (r: Option<RuntimeType>)
        ensures
            r == self@.kind_of(name@),
    {
        column_kind(&self.inner, name)
    }

    /// The column that a handle names, as a typed column with the values the
    /// table has under that name. The column is found by its name alone,
    /// wherever it stands in the table. A handle whose name the table does not
    /// have gets the engine's error; a handle whose type is not the column's
    /// gets a type mismatch.
    ///
    /// A column on its own has its values in memory: the column asked for
    /// must be one that can be had so.
    pub fn column<T: ColumnType>(&self, col: Column<T>) -> (r: Result<TypedSeries<T>, TypedError>)
        requires
            self.readable(col.name@),
        ensures
            r is Ok <==> self@.kind_of(col.name@) == Some(RuntimeType::Known(T::LOGICAL)),
            r matches Ok(s) ==> s@ == (ColumnView {
                name: col.name@,
                kind: RuntimeType::Known(T::LOGICAL),
                type_text: self@.type_text_of(col.name@),
                values: self@.values_of(col.name@),
            }) && s@.values.len() == self@.height,
            r matches Err(e) ==> (match self@.kind_of(col.name@) {
                None => e is Engine,
                Some(actual) => e.is_series_mismatch(
                    T::LOGICAL,
                    actual,
                    self@.type_text_of(col.name@),
                ),
            }),
    {
        TypedSeries::from_lookup(frame_column(&self.inner, col.name))
    }

    /// A table of the named columns only, with their values, in the order of
    /// the names. The result is an untyped engine table: a choice of columns
    /// need not conform to the schema. The engine refuses a name that is
    /// given twice or that no column has.
    pub fn select(&self, columns: Vec<&str>) -> (r: Result<DataFrame, TypedError>)
        ensures
            r is Ok <==> {
                &&& forall|i: int, j: int|
                    0 <= i < j < columns@.len() ==> (#[trigger] columns@[i])@ != (
                    #[trigger] columns@[j])@
                &&& forall|i: int|
                    0 <= i < columns@.len() ==> self@.has((#[trigger] columns@[i])@)
            },
            r matches Ok(out) ==> {
                &&& table_view(out).height == self@.height
                &&& table_view(out).fields.len() == columns@.len()
                &&& table_view(out).values.len() == columns@.len()
                &&& forall|i: int|
                    0 <= i < columns@.len() ==> {
                        &&& (#[trigger] table_view(out).fields[i]).name == columns@[i]@
                        &&& self@.kind_of(columns@[i]@) == Some(table_view(out).fields[i].kind)
                        &&& table_view(out).values[i] == self@.values_of(columns@[i]@)
                    }
            },
            r matches Err(e) ==> e is Engine,
    {
        pass_on(frame_select(&self.inner, columns))
    }

    /// The rows that a mask marks `true`, in their order, as a typed table of
    /// the same schema. A mask with one entry for each row is always
    /// accepted; what the engine makes of any other mask, a result or an
    /// error, is passed on. The mask must be one that the engine can filter
    /// this table by.
    pub fn filter(&self, mask: &[bool]) -> (r: Result<Self, TypedError>)
        requires
            self.filterable(mask@),
        ensures
            mask@.len() == self@.height ==> r is Ok,
            r matches Ok(t) ==> t@.fields == self@.fields,
            r matches Ok(t) ==> (mask@.len() == self@.height ==> {
                &&& t@.height == count_true(mask@)
                &&& t@.values == rows_kept(self@.values, mask@)
            }),
            r matches Err(e) ==> e is Engine,
    {
        proof {
            use_type_invariant(self);
        }
        Self::from_row_operation(frame_filter(&self.inner, mask))
    }

    /// The rows at the given row numbers, one for each and in their order, as
    /// a typed table of the same schema. Row numbers below the row count are
    /// always accepted; the engine's error for any other is passed on. The
    /// row numbers are handed to the engine as a column and have to fit in one.
    pub fn take(&self, rows: &[u32]) -> (r: Result<Self, TypedError>)
        requires
            column_len_fits(rows@.len()),
        ensures
            self@.height <= u32::MAX && (forall|i: int|
                0 <= i < rows@.len() ==> (#[trigger] rows@[i]) < self@.height) ==> r is Ok,
            self@.fields.len() > 0 && self@.height <= u32::MAX && (exists|i: int|
                0 <= i < rows@.len() && (#[trigger] rows@[i]) >= self@.height) ==> r is Err,
            r matches Ok(t) ==> {
                &&& t@.fields == self@.fields
                &&& t@.height == rows@.len()
                &&& t@.values == rows_at(
                    self@.values,
                    Seq::new(rows@.len(), |k: int| rows@[k] as int),
                )
            },
            r matches Err(e) ==> e is Engine,
    {
        proof {
            use_type_invariant(self);
        }
        Self::from_row_operation(frame_take(&self.inner, rows))
    }

    /// The rows at the given row numbers, one for each and in their order,
    /// where a row number may be missing: a missing row number gives a row of
    /// missing values. Row numbers below the row count are always accepted;
    /// the engine's error for any other is passed on. The entries are handed
    /// to the engine as a column and have to fit in one.
    pub fn take_nullable(&self, rows: &[Option<u32>]) -> (r: Result<Self, TypedError>)
        requires
            column_len_fits(rows@.len()),
        ensures
            self@.height <= u32::MAX && (forall|i: int|
                0 <= i < rows@.len() ==> ((#[trigger] rows@[i]) matches Some(row) ==> row
                    < self@.height)) ==> r is Ok,
            self@.fields.len() > 0 && self@.height <= u32::MAX && (exists|i: int|
                0 <= i < rows@.len() && ((#[trigger] rows@[i]) matches Some(row) && row
                    >= self@.height)) ==> r is Err,
            r matches Ok(t) ==> {
                &&& t@.fields == self@.fields
                &&& t@.height == rows@.len()
                &&& t@.values == rows_at_or_null(
                    self@.values,
                    Seq::new(
                        rows@.len(),
                        |k: int|
                            match rows@[k] {
                                Some(row) => Some(row as int),
                                None => None,
                            },
                    ),
                )
            },
            r matches Err(e) ==> e is Engine,
    {
        proof {
            use_type_invariant(self);
        }
        Self::from_row_operation(frame_take_nullable(&self.inner, rows))
    }

    /// The rows in the order of one column's values, ascending or descending,
    /// as a typed table of the same schema: the same columns and the same
    /// rows, in another order. The column is named by a handle; the call
    /// fails, with the engine's error, exactly where the table has no column
    /// of the handle's name.
    ///
    /// The engine trusts a key's sort mark in place of looking at the values.
    /// The key of the result is in the order asked for wherever the mark of
    /// the key is true (an unmarked key always is so), and the result's own
    /// mark is then true, so that it can be sorted again.
    ///
    /// The engine cannot order values of every data type, and to order them
    /// it puts them in memory: the key must be one that it can order. A handle
    /// of the table's own schema names such a key in every table that is not
    /// taller than a column can be.
    pub fn sort<T: ColumnType>(&self, col: Column<T>, descending: bool) -> (r: Result<
        Self,
        TypedError,
    >)
        requires
            self.sortable_by(col.name@),
        ensures
            r is Ok <==> self@.has(col.name@),
            r matches Ok(t) ==> {
                &&& t@.fields == self@.fields
                &&& t@.height == self@.height
                &&& exists|order: Seq<int>| #[trigger]
                    is_row_order(order, self@.height) && t@.values == rows_at(
                        self@.values,
                        order,
                    )
                &&& self@.mark_is_true(col.name@) ==> {
                    &&& in_key_order(t@.values_of(col.name@), descending)
                    &&& t@.mark_is_true(col.name@)
                }
            },
            r matches Err(e) ==> e is Engine,
    {
        proof {
            use_type_invariant(self);
        }
        Self::from_row_operation(frame_sort(&self.inner, col.name, descending))
    }

    /// The first `n` rows, or all rows where there are fewer, as a typed table
    /// of the same schema. Without `n`, ten rows are asked for.
    ///
    /// The table must be one that the engine can cut a window out of.
    pub fn head(&self, n: Option<usize>) -> (t: Self)
        requires
            self.windowable(),
        ensures
            t@.fields == self@.fields,
            conforms(S::FIELDS@, t@.fields),
            t@.height == rows_asked(n, self@.height),
            t@.values == rows_window(self@.values, 0, t@.height as int),
    {
        proof {
            use_type_invariant(self);
        }
        TypedDataFrame { inner: frame_head(&self.inner, n), marker: PhantomData }
    }

    /// The last `n` rows, or all rows where there are fewer, as a typed table
    /// of the same schema. Without `n`, ten rows are asked for.
    pub fn tail(&self, n: Option<usize>) -> (t: Self)
        requires
            self.windowable(),
        ensures
            t@.fields == self@.fields,
            conforms(S::FIELDS@, t@.fields),
            t@.height == rows_asked(n, self@.height),
            t@.values == rows_window(self@.values, self@.height - t@.height, t@.height as int),
    {
        proof {
            use_type_invariant(self);
        }
        TypedDataFrame { inner: frame_tail(&self.inner, n), marker: PhantomData }
    }

    /// The rows of a window, as a typed table of the same schema. The window
    /// starts at row `offset`, or `-offset` rows before the end where `offset`
    /// is negative, and is `length` rows long; the part of it that lies
    /// outside the table is dropped.
    pub fn slice(&self, offset: i64, length: usize) -> (t: Self)
        requires
            self.windowable(),
        ensures
            t@.fields == self@.fields,
            conforms(S::FIELDS@, t@.fields),
            t@.height == slice_rows(offset as int, length as int, self@.height as int),
            t@.values == rows_window(
                self@.values,
                slice_start(offset as int, self@.height as int),
                t@.height as int,
            ),
    {
        proof {
            use_type_invariant(self);
        }
        TypedDataFrame { inner: frame_slice(&self.inner, offset, length), marker: PhantomData }
    }

    /// Hands the table to the engine's lazy query builder: the query that
    /// comes back reads this table and does nothing else, and nothing is run
    /// yet. The query is untyped: whatever is built on it, its result has to
    /// be checked anew to be typed again.
    pub fn lazy(self) -> (query: LazyFrame)
        ensures
            lazy_plan(query) == PlanModel::Scan(self@),
    {
        frame_lazy(self.inner)
    }
}

impl<S: Schema> Clone for TypedDataFrame<S> {
    fn clone(&self) -> (t: Self)
        ensures
            t.frame() == self.frame(),
    {
        proof {
            use_type_invariant(self);
        }
        TypedDataFrame { inner: frame_clone(&self.inner), marker: PhantomData }
    }
}

} // verus!
