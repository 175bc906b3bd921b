//! A column whose element type is known at compile time.

use vstd::prelude::*;
use std::marker::PhantomData;
use polars::prelude::{PolarsError, Series};
use crate::dtype::{LogicalType, RuntimeType};
use crate::engine::model::{text_fits, Cell, ColumnView, MAX_COLUMN_LEN, MAX_TEXT_BYTES};
use crate::engine::series::{
    column_view, series_clone, series_dtype_of, series_from_bool, series_from_i32,
    series_from_i64, series_from_strings, series_from_strs, series_is_empty, series_kind,
    series_len_of, series_name_of, series_rename,
};
use crate::engine::types::{dtype_name, runtime_type_of};
use crate::error::TypedError;
use crate::schema::{lemma_marker_types, ColumnType};

verus! {

/// A column of the engine together with the knowledge that its values are of
/// the kind that `T` stands for.
pub struct TypedSeries<T: ColumnType> {
    inner: Series,
    marker: PhantomData<T>,
}

impl<T: ColumnType> View for TypedSeries<T> {
    type V = ColumnView;

    /// A typed column is seen as the column it wraps: a name, a kind and values.
    open spec fn view(&self) -> ColumnView {
        column_view(self.series())
    }
}

impl<T: ColumnType> TypedSeries<T> {
    /// What a typed column is never without: the element type that `T` names.
    #[verifier::type_invariant]
    spec fn well_typed(self) -> bool {
        series_kind(self.inner) == RuntimeType::Known(T::LOGICAL)
    }

    /// The engine column that is wrapped.
    pub closed spec fn series(self) -> Series {
        self.inner
    }

    /// Wraps a column after checking that its element type is the one `T`
    /// stands for; a column of any other type is refused, with both types in
    /// the error.
    pub fn new(series: Series) -> (r: Result<Self, TypedError>)
        ensures
            r is Ok <==> column_view(series).kind == RuntimeType::Known(T::LOGICAL),
            r matches Ok(t) ==> t.series() == series,
            r matches Err(e) ==> e.is_series_mismatch(
                T::LOGICAL,
                column_view(series).kind,
                column_view(series).type_text,
            ),
    {
        let expected = T::LOGICAL;
        let dt = series_dtype_of(&series);
        let actual = runtime_type_of(&dt);
        if actual != RuntimeType::Known(expected) {
            let found = dtype_name(&dt);
            return Err(TypedError::SeriesTypeMismatch { expected, actual, found });
        }
        Ok(TypedSeries { inner: series, marker: PhantomData })
    }

    /// What becomes of the engine's answer when it was asked for a column:
    /// the column is wrapped if its element type is the one `T` stands for
    /// and refused otherwise, and a failure of the engine is passed on as it
    /// came.
    pub fn from_lookup(outcome: Result<Series, PolarsError>) -> (r: Result<Self, TypedError>)
        ensures
            outcome matches Err(cause) ==> r matches Err(e) && e == TypedError::Engine(cause),
            outcome matches Ok(series) ==> {
                &&& r is Ok <==> column_view(series).kind == RuntimeType::Known(T::LOGICAL)
                &&& r matches Ok(t) ==> t.series() == series
                &&& r matches Err(e) ==> e.is_series_mismatch(
                    T::LOGICAL,
                    column_view(series).kind,
                    column_view(series).type_text,
                )
            },
    {
        match outcome {
            Ok(series) => TypedSeries::new(series),
            Err(cause) => Err(TypedError::Engine(cause)),
        }
    }

    /// Wraps a column without looking at it. The caller answers for its
    /// element type, which `kind_of_series` reads.
    pub fn new_unchecked(series: Series) -> (t: Self)
        requires
            column_view(series).kind == RuntimeType::Known(T::LOGICAL),
        ensures
            t.series() == series,
    {
        TypedSeries { inner: series, marker: PhantomData }
    }

    /// The wrapped engine column, whose element type is the one `T` stands for.
    pub fn inner(&self) -> (s: &Series)
        ensures
            *s == self.series(),
            self@.kind == RuntimeType::Known(T::LOGICAL),
    {
        proof {
            use_type_invariant(self);
        }
        &self.inner
    }

    /// Gives the engine column back.
    pub fn into_inner(self) -> (s: Series)
        ensures
            s == self.series(),
            self@.kind == RuntimeType::Known(T::LOGICAL),
    {
        proof {
            use_type_invariant(&self);
        }
        self.inner
    }

    /// The column's name.
    pub fn name(&self) -> (n: &str)
        ensures
            n@ == self@.name,
    {
        series_name_of(&self.inner)
    }

    /// The number of values.
    pub fn len(&self) -> (n: usize)
        ensures
            n == self@.values.len(),
    {
        series_len_of(&self.inner)
    }

    /// Whether the column has no values.
    pub fn is_empty(&self) -> (b: bool)
        ensures
            b == (self@.values.len() == 0),
    {
        series_is_empty(&self.inner)
    }

    /// Gives the column another name. Its element type and its values stay.
    pub fn rename(&mut self, name: &str)
        ensures
            final(self)@ == (ColumnView { name: name@, ..old(self)@ }),
    {
        proof {
            use_type_invariant(&*self);
        }
        let mut renamed = series_clone(&self.inner);
        series_rename(&mut renamed, name);
        self.inner = renamed;
    }
}

impl<T: ColumnType> Clone for TypedSeries<T> {
    fn clone(&self) -> (t: Self)
        ensures
            t.series() == self.series(),
    {
        proof {
            use_type_invariant(self);
        }
        TypedSeries { inner: series_clone(&self.inner), marker: PhantomData }
    }
}

/// The run-time kind of an engine column.
pub fn kind_of_series(series: &Series) -> (kind: RuntimeType)
    ensures
        kind == column_view(*series).kind,
{
    let dt = series_dtype_of(series);
    runtime_type_of(&dt)
}

/// Whether a buffer has few enough values to become one column.
pub open spec fn column_len_fits(len: nat) -> bool {
    len < MAX_COLUMN_LEN
}

/// Whether every text of a buffer is short enough for the engine.
pub open spec fn texts_fit(texts: Seq<Seq<char>>) -> bool {
    forall|i: int| 0 <= i < texts.len() ==> text_fits(#[trigger] texts[i])
}

/// Whether a buffer of `len` values has few enough to become one column.
pub fn is_column_len(len: usize) -> (b: bool)
    ensures
        b == column_len_fits(len as nat),
{
    (len as u64) < MAX_COLUMN_LEN as u64
}

/// Whether a buffer of owned strings can become one column of text.
pub fn can_be_text_column(data: &Vec<String>) -> (b: bool)
    ensures
        b == (column_len_fits(data@.len()) && texts_fit(data@.map_values(|s: String| s@))),
{
    if !is_column_len(data.len()) {
        return false;
    }
    let ghost texts = data@.map_values(|s: String| s@);
    let mut i: usize = 0;
    while i < data.len()
        invariant
            i <= data.len(),
            texts == data@.map_values(|s: String| s@),
            forall|j: int| 0 <= j < i ==> text_fits(#[trigger] texts[j]),
        decreases data.len() - i,
    {
        if data[i].as_str().as_bytes().len() as u64 > MAX_TEXT_BYTES as u64 {
            assert(!text_fits(texts[i as int]));
            return false;
        }
        assert(text_fits(texts[i as int]));
        i += 1;
    }
    true
}

/// Whether a buffer of borrowed strings can become one column of text.
pub fn can_be_text_column_from_slice(data: &[&str]) -> (b: bool)
    ensures
        b == (column_len_fits(data@.len()) && texts_fit(data@.map_values(|s: &str| s@))),
{
    if !is_column_len(data.len()) {
        return false;
    }
    let ghost texts = data@.map_values(|s: &str| s@);
    let mut i: usize = 0;
    while i < data.len()
        invariant
            i <= data.len(),
            texts == data@.map_values(|s: &str| s@),
            forall|j: int| 0 <= j < i ==> text_fits(#[trigger] texts[j]),
        decreases data.len() - i,
    {
        if data[i].as_bytes().len() as u64 > MAX_TEXT_BYTES as u64 {
            assert(!text_fits(texts[i as int]));
            return false;
        }
        assert(text_fits(texts[i as int]));
        i += 1;
    }
    true
}

impl TypedSeries<i32> {
    /// A column of 32-bit integers with the given name and values, which must
    /// not be more than a column can have.
    pub fn from_vec(name: &str, data: Vec<i32>) -> (t: Self)
        requires
            column_len_fits(data@.len()),
        ensures
            t@.name == name@,
            t@.kind == RuntimeType::Known(LogicalType::Int32),
            t@.values == Seq::new(data@.len(), |i: int| Cell::Int(data@[i] as int)),
    {
        proof {
            lemma_marker_types();
        }
        TypedSeries { inner: series_from_i32(name, data), marker: PhantomData }
    }
}

impl TypedSeries<i64> {
    /// A column of 64-bit integers with the given name and values, which must
    /// not be more than a column can have.
    pub fn from_vec(name: &str, data: Vec<i64>) -> (t: Self)
        requires
            column_len_fits(data@.len()),
        ensures
            t@.name == name@,
            t@.kind == RuntimeType::Known(LogicalType::Int64),
            t@.values == Seq::new(data@.len(), |i: int| Cell::Int(data@[i] as int)),
    {
        proof {
            lemma_marker_types();
        }
        TypedSeries { inner: series_from_i64(name, data), marker: PhantomData }
    }
}

impl TypedSeries<bool> {
    /// A column of booleans with the given name and values, which must not be
    /// more than a column can have.
    pub fn from_vec(name: &str, data: Vec<bool>) -> (t: Self)
        requires
            column_len_fits(data@.len()),
        ensures
            t@.name == name@,
            t@.kind == RuntimeType::Known(LogicalType::Boolean),
            t@.values == Seq::new(data@.len(), |i: int| Cell::Bool(data@[i])),
    {
        proof {
            lemma_marker_types();
        }
        TypedSeries { inner: series_from_bool(name, data), marker: PhantomData }
    }
}

impl TypedSeries<String> {
    /// A column of text with the given name and values, which must not be more
    /// than a column can have, nor any of them longer than the engine takes.
    pub fn from_vec(name: &str, data: Vec<String>) -> (t: Self)
        requires
            column_len_fits(data@.len()),
            texts_fit(data@.map_values(|s: String| s@)),
        ensures
            t@.name == name@,
            t@.kind == RuntimeType::Known(LogicalType::Text),
            t@.values == Seq::new(data@.len(), |i: int| Cell::Text(data@[i]@)),
    {
        proof {
            lemma_marker_types();
            assert forall|i: int| 0 <= i < data@.len() implies text_fits(
                (#[trigger] data@[i])@,
            ) by {
                assert(data@.map_values(|s: String| s@)[i] == data@[i]@);
            }
        }
        TypedSeries { inner: series_from_strings(name, data), marker: PhantomData }
    }

    /// A column of text with the given name and values, from borrowed strings;
    /// the values must not be more than a column can have, nor any of them
    /// longer than the engine takes.
    pub fn from_slice(name: &str, data: &[&str]) -> (t: Self)
        requires
            column_len_fits(data@.len()),
            texts_fit(data@.map_values(|s: &str| s@)),
        ensures
            t@.name == name@,
            t@.kind == RuntimeType::Known(LogicalType::Text),
            t@.values == Seq::new(data@.len(), |i: int| Cell::Text(data@[i]@)),
    {
        proof {
            lemma_marker_types();
            assert forall|i: int| 0 <= i < data@.len() implies text_fits(
                (#[trigger] data@[i])@,
            ) by {
                assert(data@.map_values(|s: &str| s@)[i] == data@[i]@);
            }
        }
        TypedSeries { inner: series_from_strs(name, data), marker: PhantomData }
    }
}

} // verus!
