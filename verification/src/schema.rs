//! Column declarations: the schema trait, the column handle, and the check of
//! a table against a declaration.

use vstd::prelude::*;
use std::marker::PhantomData;
use polars::prelude::{DataFrame, DataType};
use polars_schema::Schema as EngineSchema;
use crate::dtype::{LogicalType, RuntimeType};
use crate::engine::frame::{frame_dtype_of, frame_fields, table_view};
use crate::engine::model::{has_column, lookup, ColumnSig, TableView};
use crate::engine::schema::{schema_fields, schema_with_capacity, schema_with_column};
use crate::engine::types::{dtype_kind, dtype_name, engine_dtype, runtime_type_of};
use crate::error::TypedError;

verus! {

/// One declared column: its name and the kind of value it holds.
#[derive(Clone, Copy, Debug)]
pub struct FieldDef {
    pub name: &'static str,
    pub dtype: LogicalType,
}

/// A declared column is satisfied by a table that has a column of its name
/// with exactly its type.
pub open spec fn field_ok(f: FieldDef, table: Seq<ColumnSig>) -> bool {
    lookup(table, f.name@) == Some(RuntimeType::Known(f.dtype))
}

/// A table conforms to a declaration when every declared column is satisfied.
/// Columns of the table that the declaration does not mention are not looked at.
pub open spec fn conforms(fields: Seq<FieldDef>, table: Seq<ColumnSig>) -> bool {
    forall|i: int| 0 <= i < fields.len() ==> field_ok(#[trigger] fields[i], table)
}

/// The declared column at `i` is the first, in declaration order, that the
/// table does not satisfy.
pub open spec fn is_first_failure(fields: Seq<FieldDef>, table: Seq<ColumnSig>, i: int) -> bool {
    &&& 0 <= i < fields.len()
    &&& !field_ok(fields[i], table)
    &&& forall|j: int| 0 <= j < i ==> field_ok(#[trigger] fields[j], table)
}

/// `e` is the error that an unsatisfied declared column is reported with:
/// the column is missing, or it is there with another type than the declared
/// one, and the error names the kind and the data type found.
pub open spec fn is_field_error(e: TypedError, f: FieldDef, table: TableView) -> bool {
    match table.kind_of(f.name@) {
        None => e == TypedError::ColumnNotFound { name: f.name },
        Some(actual) => e.is_schema_mismatch(
            f.name,
            f.dtype,
            actual,
            table.type_text_of(f.name@),
        ),
    }
}

/// `e` is the error of the first declared column that the table does not satisfy.
pub open spec fn is_validation_error(fields: Seq<FieldDef>, table: TableView, e: TypedError) -> bool {
    exists|i: int| #[trigger]
        is_first_failure(fields, table.fields, i) && is_field_error(e, fields[i], table)
}

/// The run-time kind of the column of a table that is called `name`, or
/// `None` where the table has no column of that name.
pub fn column_kind(df: &DataFrame, name: &str) -> (r: Option<RuntimeType>)
    ensures
        r == table_view(*df).kind_of(name@),
{
    match frame_dtype_of(df, name) {
        Some(dt) => Some(runtime_type_of(&dt)),
        None => None,
    }
}

/// Checks a table against a declaration, column by column in declaration
/// order, and stops at the first declared column that is missing or has
/// another type.
pub fn validate_fields(fields: &[FieldDef], df: &DataFrame) -> (r: Result<(), TypedError>)
    ensures
        r is Ok <==> conforms(fields@, table_view(*df).fields),
        r matches Err(e) ==> is_validation_error(fields@, table_view(*df), e),
{
    let ghost table = frame_fields(*df);
    let mut i: usize = 0;
    while i < fields.len()
        invariant
            i <= fields.len(),
            table == frame_fields(*df),
            forall|j: int| 0 <= j < i ==> field_ok(#[trigger] fields@[j], table),
        decreases fields.len() - i,
    {
        let f = fields[i];
        match frame_dtype_of(df, f.name) {
            None => {
                assert(is_first_failure(fields@, table, i as int));
                let e = TypedError::ColumnNotFound { name: f.name };
                assert(is_field_error(e, fields@[i as int], table_view(*df)));
                return Err(e);
            },
            Some(dt) => {
                let actual = runtime_type_of(&dt);
                if actual != RuntimeType::Known(f.dtype) {
                    assert(is_first_failure(fields@, table, i as int));
                    let found = dtype_name(&dt);
                    let e = TypedError::SchemaMismatch {
                        name: f.name,
                        expected: f.dtype,
                        actual,
                        found,
                    };
                    assert(is_field_error(e, fields@[i as int], table_view(*df)));
                    return Err(e);
                }
            },
        }
        i += 1;
    }
    Ok(())
}

/// The table that has exactly the declared columns, in declaration order.
pub open spec fn declared(fields: Seq<FieldDef>) -> Seq<ColumnSig> {
    Seq::new(
        fields.len(),
        |i: int| ColumnSig { name: fields[i].name@, kind: RuntimeType::Known(fields[i].dtype) },
    )
}

/// No two declared columns share a name.
pub open spec fn names_unique(fields: Seq<FieldDef>) -> bool {
    forall|i: int, j: int|
        0 <= i < fields.len() && 0 <= j < fields.len() && i != j
            ==> (#[trigger] fields[i]).name@ != (#[trigger] fields[j]).name@
}

/// A type that stands for one table layout: an ordered list of named, typed
/// columns. A schema type carries no data; it only says which columns a
/// `TypedDataFrame` of it is known to have.
pub trait Schema: Sized {
    /// The declared columns, in declaration order. Their names are unique.
    const FIELDS: &'static [FieldDef];

    /// The names of the declared columns, in declaration order.
    fn column_names() -> (names: Vec<&'static str>)
        ensures
            names@.len() == Self::FIELDS@.len(),
            forall|i: int| 0 <= i < names@.len() ==> #[trigger] names@[i] == Self::FIELDS@[i].name,
    {
        let fields = Self::FIELDS;
        let mut names: Vec<&'static str> = Vec::new();
        let mut i: usize = 0;
        while i < fields.len()
            invariant
                fields == Self::FIELDS,
                i <= fields.len(),
                names@.len() == i,
                forall|j: int| 0 <= j < i ==> #[trigger] names@[j] == fields@[j].name,
            decreases fields.len() - i,
        {
            names.push(fields[i].name);
            i += 1;
        }
        names
    }

    /// The declaration as an engine schema, to hand to the engine where it
    /// takes one (as a hint to a decoder, for instance).
    fn schema() -> (s: EngineSchema<DataType>)
        ensures
            names_unique(Self::FIELDS@) ==> schema_fields(s) == declared(Self::FIELDS@),
    {
        let fields = Self::FIELDS;
        let mut s = schema_with_capacity(fields.len());
        let mut i: usize = 0;
        while i < fields.len()
            invariant
                fields == Self::FIELDS,
                i <= fields.len(),
                names_unique(fields@) ==> schema_fields(s) == declared(fields@).take(i as int),
            decreases fields.len() - i,
        {
            let f = fields[i];
            let dt = engine_dtype(f.dtype);
            proof {
                if names_unique(fields@) {
                    let before = declared(fields@).take(i as int);
                    assert forall|k: int| 0 <= k < before.len() implies (#[trigger] before[k]).name
                        != f.name@ by {
                        assert(fields@[k].name@ != fields@[i as int].name@);
                    }
                    assert(!has_column(before, f.name@));
                    assert(before.push(
                        ColumnSig { name: f.name@, kind: RuntimeType::Known(f.dtype) },
                    ) =~= declared(fields@).take(i + 1));
                }
            }
            schema_with_column(&mut s, f.name, dt);
            i += 1;
        }
        proof {
            assert(declared(fields@).take(fields@.len() as int) =~= declared(fields@));
        }
        s
    }

    /// Checks that a table has every declared column with its declared type.
    /// The first declared column that is missing or differently typed is
    /// reported; columns that the declaration does not mention are ignored.
    fn validate(df: &DataFrame) -> (r: Result<(), TypedError>)
        ensures
            r is Ok <==> conforms(Self::FIELDS@, table_view(*df).fields),
            r matches Err(e) ==> is_validation_error(Self::FIELDS@, table_view(*df), e),
    {
        validate_fields(Self::FIELDS, df)
    }
}

/// A native type that stands, at the type level, for one logical type.
pub trait ColumnType {
    /// The logical type that this marker stands for.
    const LOGICAL: LogicalType;

    /// The engine data type of a column declared with this marker.
    fn data_type() -> (dt: DataType)
        ensures
            dtype_kind(dt) == RuntimeType::Known(Self::LOGICAL),
    {
        engine_dtype(Self::LOGICAL)
    }
}

impl ColumnType for i8 {
    const LOGICAL: LogicalType = LogicalType::Int8;
}

impl ColumnType for i16 {
    const LOGICAL: LogicalType = LogicalType::Int16;
}

impl ColumnType for i32 {
    const LOGICAL: LogicalType = LogicalType::Int32;
}

impl ColumnType for i64 {
    const LOGICAL: LogicalType = LogicalType::Int64;
}

impl ColumnType for u8 {
    const LOGICAL: LogicalType = LogicalType::UInt8;
}

impl ColumnType for u16 {
    const LOGICAL: LogicalType = LogicalType::UInt16;
}

impl ColumnType for u32 {
    const LOGICAL: LogicalType = LogicalType::UInt32;
}

impl ColumnType for u64 {
    const LOGICAL: LogicalType = LogicalType::UInt64;
}

impl ColumnType for bool {
    const LOGICAL: LogicalType = LogicalType::Boolean;
}

impl ColumnType for String {
    const LOGICAL: LogicalType = LogicalType::Text;
}

impl ColumnType for str {
    const LOGICAL: LogicalType = LogicalType::Text;
}

/// Marker for columns of 32-bit floating-point values.
#[derive(Clone, Copy, Debug)]
pub struct Float32;

/// Marker for columns of 64-bit floating-point values.
#[derive(Clone, Copy, Debug)]
pub struct Float64;

impl ColumnType for Float32 {
    const LOGICAL: LogicalType = LogicalType::Float32;
}

impl ColumnType for Float64 {
    const LOGICAL: LogicalType = LogicalType::Float64;
}

/// The logical type that each marker of this module stands for.
pub proof fn lemma_marker_types()
    ensures
        <i8 as ColumnType>::LOGICAL == LogicalType::Int8,
        <i16 as ColumnType>::LOGICAL == LogicalType::Int16,
        <i32 as ColumnType>::LOGICAL == LogicalType::Int32,
        <i64 as ColumnType>::LOGICAL == LogicalType::Int64,
        <u8 as ColumnType>::LOGICAL == LogicalType::UInt8,
        <u16 as ColumnType>::LOGICAL == LogicalType::UInt16,
        <u32 as ColumnType>::LOGICAL == LogicalType::UInt32,
        <u64 as ColumnType>::LOGICAL == LogicalType::UInt64,
        <Float32 as ColumnType>::LOGICAL == LogicalType::Float32,
        <Float64 as ColumnType>::LOGICAL == LogicalType::Float64,
        <bool as ColumnType>::LOGICAL == LogicalType::Boolean,
        <String as ColumnType>::LOGICAL == LogicalType::Text,
        <str as ColumnType>::LOGICAL == LogicalType::Text,
{
}

/// A handle on one column of a schema: the column's name, with the kind of its
/// values carried in the type. Handles are how typed code names a column.
pub struct Column<T: ColumnType> {
    pub name: &'static str,
    pub marker: PhantomData<T>,
}

impl<T: ColumnType> Column<T> {
    /// A handle on the column called `name`.
    pub fn new(name: &'static str) -> (c: Self)
        ensures
            c.name == name,
    {
        Column { name, marker: PhantomData }
    }

    /// The column's name.
    pub fn name(&self) -> (n: &'static str)
        ensures
            n == self.name,
    {
        self.name
    }

    /// The engine data type of the column, which depends on the handle's type
    /// alone and on no table.
    pub fn data_type(&self) -> (dt: DataType)
        ensures
            dtype_kind(dt) == RuntimeType::Known(T::LOGICAL),
    {
        T::data_type()
    }

    /// The logical type of the column.
    pub fn logical_type(&self) -> (t: LogicalType)
        ensures
            t == T::LOGICAL,
    {
        T::LOGICAL
    }
}

impl<T: ColumnType> Clone for Column<T> {
    fn clone(&self) -> (c: Self)
        ensures
            c.name == self.name,
    {
        Column { name: self.name, marker: PhantomData }
    }
}

impl<T: ColumnType> Copy for Column<T> {}

} // verus!
