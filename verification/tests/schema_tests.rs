use polars::prelude::DataType;
use std::marker::PhantomData;
use typed_polars::schema::{Column, ColumnType, FieldDef, Float32, Float64};
use typed_polars::{LogicalType, Schema, TypedDataFrame};

struct User;

impl Schema for User {
    const FIELDS: &'static [FieldDef] = &[
        FieldDef { name: "id", dtype: LogicalType::Int64 },
        FieldDef { name: "name", dtype: LogicalType::Text },
        FieldDef { name: "age", dtype: LogicalType::Int32 },
        FieldDef { name: "salary", dtype: LogicalType::Float64 },
        FieldDef { name: "active", dtype: LogicalType::Boolean },
    ];
}

#[allow(non_upper_case_globals)]
impl User {
    pub const salary: Column<Float64> = Column { name: "salary", marker: PhantomData };
}

struct Nothing;

impl Schema for Nothing {
    const FIELDS: &'static [FieldDef] = &[];
}

#[test]
fn column_names_in_declaration_order() {
    assert_eq!(User::column_names(), vec!["id", "name", "age", "salary", "active"]);
    assert_eq!(Nothing::column_names(), Vec::<&str>::new());
}

#[test]
fn engine_schema_of_a_declaration() {
    let s = User::schema();
    assert_eq!(s.len(), 5);
    let got: Vec<(String, DataType)> =
        s.iter().map(|(n, d)| (n.to_string(), d.clone())).collect();
    assert_eq!(
        got,
        vec![
            ("id".to_string(), DataType::Int64),
            ("name".to_string(), DataType::String),
            ("age".to_string(), DataType::Int32),
            ("salary".to_string(), DataType::Float64),
            ("active".to_string(), DataType::Boolean),
        ]
    );
    assert_eq!(Nothing::schema().len(), 0);
    assert_eq!(TypedDataFrame::<User>::schema(), s);
}

#[test]
fn markers_map_to_engine_types() {
    assert_eq!(<i8 as ColumnType>::data_type(), DataType::Int8);
    assert_eq!(<i16 as ColumnType>::data_type(), DataType::Int16);
    assert_eq!(<i32 as ColumnType>::data_type(), DataType::Int32);
    assert_eq!(<i64 as ColumnType>::data_type(), DataType::Int64);
    assert_eq!(<u8 as ColumnType>::data_type(), DataType::UInt8);
    assert_eq!(<u16 as ColumnType>::data_type(), DataType::UInt16);
    assert_eq!(<u32 as ColumnType>::data_type(), DataType::UInt32);
    assert_eq!(<u64 as ColumnType>::data_type(), DataType::UInt64);
    assert_eq!(<Float32 as ColumnType>::data_type(), DataType::Float32);
    assert_eq!(<Float64 as ColumnType>::data_type(), DataType::Float64);
    assert_eq!(<bool as ColumnType>::data_type(), DataType::Boolean);
    assert_eq!(<String as ColumnType>::data_type(), DataType::String);
    assert_eq!(<str as ColumnType>::data_type(), DataType::String);
}

#[test]
fn markers_name_their_logical_type() {
    assert_eq!(<i8 as ColumnType>::LOGICAL, LogicalType::Int8);
    assert_eq!(<u64 as ColumnType>::LOGICAL, LogicalType::UInt64);
    assert_eq!(<Float32 as ColumnType>::LOGICAL, LogicalType::Float32);
    assert_eq!(<str as ColumnType>::LOGICAL, LogicalType::Text);
    assert_eq!(<String as ColumnType>::LOGICAL, LogicalType::Text);
}

#[test]
fn handle_carries_name_and_type() {
    let h: Column<i64> = Column::new("id");
    assert_eq!(h.name(), "id");
    assert_eq!(h.name, "id");
    assert_eq!(h.data_type(), DataType::Int64);
    assert_eq!(h.logical_type(), LogicalType::Int64);
    let copy = h;
    assert_eq!(copy.clone().name(), h.name());
    assert_eq!(User::salary.name(), "salary");
    assert_eq!(User::salary.data_type(), DataType::Float64);
    assert_eq!(User::salary.logical_type(), LogicalType::Float64);
}

#[test]
fn type_names_and_kinds() {
    assert_eq!(LogicalType::Int8.name(), "Int8");
    assert_eq!(LogicalType::UInt16.name(), "UInt16");
    assert_eq!(LogicalType::Float32.name(), "Float32");
    assert_eq!(LogicalType::Boolean.name(), "Boolean");
    assert_eq!(LogicalType::Text.name(), "String");
}
