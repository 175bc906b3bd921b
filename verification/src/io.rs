//! Readers and writers of typed tables: what to read or write and how, and
//! the check that a decoded table has to pass before it counts as typed.
//! Opening files and running the engine's codecs on them is left to the
//! caller; the types here hold the settings of a transfer and decide on its
//! result.

use vstd::prelude::*;
use std::marker::PhantomData;
use polars::prelude::{DataFrame, DataType, PolarsError};
use polars_schema::Schema as EngineSchema;
use crate::dataframe::TypedDataFrame;
use crate::engine::frame::table_view;
use crate::engine::schema::schema_fields;
use crate::error::TypedError;
use crate::schema::{conforms, declared, is_validation_error, names_unique, Schema};

verus! {

/// What becomes of a decoded table: a failure of the decoder is passed on as
/// it is, and a table that was decoded is accepted exactly when it conforms to
/// the schema.
pub fn check_decoded<S: Schema>(decoded: Result<DataFrame, PolarsError>) -> (r: Result<
    TypedDataFrame<S>,
    TypedError,
>)
    ensures
        decoded matches Err(cause) ==> r matches Err(e) && e == TypedError::Engine(cause),
        decoded matches Ok(df) ==> {
            &&& r is Ok <==> conforms(S::FIELDS@, table_view(df).fields)
            &&& r matches Ok(t) ==> t.frame() == df
            &&& r matches Err(e) ==> is_validation_error(S::FIELDS@, table_view(df), e)
        },
{
    match decoded {
        Ok(df) => TypedDataFrame::new(df),
        Err(cause) => Err(TypedError::Engine(cause)),
    }
}

/// The settings for reading a delimited-text source into a typed table.
pub struct CsvReader<S: Schema> {
    path: String,
    has_header: bool,
    marker: PhantomData<S>,
}

impl<S: Schema> CsvReader<S> {
    /// The path of the source.
    pub closed spec fn path_view(self) -> Seq<char> {
        self.path@
    }

    /// Whether the first line of the source is taken as column names.
    pub closed spec fn header_flag(self) -> bool {
        self.has_header
    }

    /// A reader of the source at `path`, whose first line is taken as column
    /// names.
    pub fn new(path: &str) -> (r: Self)
        ensures
            r.path_view() == path@,
            r.header_flag(),
    {
        CsvReader { path: path.to_owned(), has_header: true, marker: PhantomData }
    }

    /// Says whether the first line of the source holds column names.
    pub fn has_header(self, has_header: bool) -> (r: Self)
        ensures
            r.path_view() == self.path_view(),
            r.header_flag() == has_header,
    {
        CsvReader { path: self.path, has_header, marker: PhantomData }
    }

    /// The path of the source.
    pub fn path(&self) -> (p: &str)
        ensures
            p@ == self.path_view(),
    {
        self.path.as_str()
    }

    /// Whether the first line of the source is taken as column names.
    pub fn expects_header(&self) -> (b: bool)
        ensures
            b == self.header_flag(),
    {
        self.has_header
    }

    /// The schema to hand to the decoder, so that it reads each column as the
    /// declared type where the text allows.
    pub fn schema_hint(&self) -> (s: EngineSchema<DataType>)
        ensures
            names_unique(S::FIELDS@) ==> schema_fields(s) == declared(S::FIELDS@),
    {
        S::schema()
    }

    /// Ends the read with what the decoder produced: its failure is passed
    /// on, and its table is checked against the schema.
    pub fn finish_with(self, decoded: Result<DataFrame, PolarsError>) -> (r: Result<
        TypedDataFrame<S>,
        TypedError,
    >)
        ensures
            decoded matches Err(cause) ==> r matches Err(e) && e == TypedError::Engine(cause),
            decoded matches Ok(df) ==> {
                &&& r is Ok <==> conforms(S::FIELDS@, table_view(df).fields)
                &&& r matches Ok(t) ==> t.frame() == df
                &&& r matches Err(e) ==> is_validation_error(S::FIELDS@, table_view(df), e)
            },
    {
        check_decoded(decoded)
    }
}

/// The settings for writing a typed table as delimited text.
pub struct CsvWriter<'a, S: Schema> {
    df: &'a TypedDataFrame<S>,
    has_header: bool,
}

impl<'a, S: Schema> CsvWriter<'a, S> {
    /// The typed table that is written.
    pub closed spec fn table(self) -> TypedDataFrame<S> {
        *self.df
    }

    /// Whether a first line of column names is written.
    pub closed spec fn header_flag(self) -> bool {
        self.has_header
    }

    /// A writer of `df` that writes a first line of column names.
    pub fn new(df: &'a TypedDataFrame<S>) -> (w: Self)
        ensures
            w.table() == *df,
            w.header_flag(),
    {
        CsvWriter { df, has_header: true }
    }

    /// Says whether a first line of column names is written.
    pub fn has_header(self, has_header: bool) -> (w: Self)
        ensures
            w.table() == self.table(),
            w.header_flag() == has_header,
    {
        CsvWriter { df: self.df, has_header }
    }

    /// Whether a first line of column names is written.
    pub fn writes_header(&self) -> (b: bool)
        ensures
            b == self.header_flag(),
    {
        self.has_header
    }

    /// The engine table to hand to the encoder. It conforms to the schema, so
    /// nothing is checked on the way out.
    pub fn frame(&self) -> (df: &'a DataFrame)
        ensures
            *df == self.table().frame(),
            conforms(S::FIELDS@, table_view(*df).fields),
    {
        self.df.inner()
    }
}

/// The settings for reading a columnar binary source into a typed table.
pub struct ParquetReader<S: Schema> {
    path: String,
    marker: PhantomData<S>,
}

impl<S: Schema> ParquetReader<S> {
    /// The path of the source.
    pub closed spec fn path_view(self) -> Seq<char> {
        self.path@
    }

    /// A reader of the source at `path`.
    pub fn new(path: &str) -> (r: Self)
        ensures
            r.path_view() == path@,
    {
        ParquetReader { path: path.to_owned(), marker: PhantomData }
    }

    /// The path of the source.
    pub fn path(&self) -> (p: &str)
        ensures
            p@ == self.path_view(),
    {
        self.path.as_str()
    }

    /// Ends the read with what the decoder produced: its failure is passed
    /// on, and its table is checked against the schema.
    pub fn finish_with(self, decoded: Result<DataFrame, PolarsError>) -> (r: Result<
        TypedDataFrame<S>,
        TypedError,
    >)
        ensures
            decoded matches Err(cause) ==> r matches Err(e) && e == TypedError::Engine(cause),
            decoded matches Ok(df) ==> {
                &&& r is Ok <==> conforms(S::FIELDS@, table_view(df).fields)
                &&& r matches Ok(t) ==> t.frame() == df
                &&& r matches Err(e) ==> is_validation_error(S::FIELDS@, table_view(df), e)
            },
    {
        check_decoded(decoded)
    }
}

/// The settings for writing a typed table in the columnar binary format.
pub struct ParquetWriter<'a, S: Schema> {
    df: &'a TypedDataFrame<S>,
}

impl<'a, S: Schema> ParquetWriter<'a, S> {
    /// The typed table that is written.
    pub closed spec fn table(self) -> TypedDataFrame<S> {
        *self.df
    }

    /// A writer of `df`.
    pub fn new(df: &'a TypedDataFrame<S>) -> (w: Self)
        ensures
            w.table() == *df,
    {
        ParquetWriter { df }
    }

    /// The engine table to hand to the encoder. It conforms to the schema, so
    /// nothing is checked on the way out.
    pub fn frame(&self) -> (df: &'a DataFrame)
        ensures
            *df == self.table().frame(),
            conforms(S::FIELDS@, table_view(*df).fields),
    {
        self.df.inner()
    }
}

} // verus!
