use polars::prelude::{DataFrame, DataType, IntoColumn, IntoSeries, NamedFrom, Series};
use std::marker::PhantomData;
use typed_polars::schema::{column_kind, validate_fields, Column, FieldDef};
use typed_polars::{LogicalType, RuntimeType, Schema, TypedDataFrame, TypedError};

struct Sample;

impl Schema for Sample {
    const FIELDS: &'static [FieldDef] = &[
        FieldDef { name: "id", dtype: LogicalType::Int64 },
        FieldDef { name: "name", dtype: LogicalType::Text },
        FieldDef { name: "value", dtype: LogicalType::Int32 },
    ];
}

#[allow(non_upper_case_globals)]
impl Sample {
    pub const id: Column<i64> = Column { name: "id", marker: PhantomData };
    pub const name: Column<String> = Column { name: "name", marker: PhantomData };
    pub const value: Column<i32> = Column { name: "value", marker: PhantomData };
}

struct Nothing;

impl Schema for Nothing {
    const FIELDS: &'static [FieldDef] = &[];
}

fn ids() -> Series {
    Series::new("id".into(), vec![1i64, 2, 3])
}

fn names() -> Series {
    Series::new("name".into(), vec!["a", "b", "c"])
}

fn values() -> Series {
    Series::new("value".into(), vec![10i32, 20, 30])
}

fn frame(columns: Vec<Series>) -> DataFrame {
    DataFrame::new(columns.into_iter().map(|s| s.into_column()).collect()).unwrap()
}

#[test]
fn conforming_table_is_wrapped_unchanged() {
    let df = frame(vec![ids(), names(), values()]);
    let typed = TypedDataFrame::<Sample>::new(df.clone()).unwrap();
    assert!(typed.inner().equals(&df));
    assert_eq!(typed.shape(), (3, 3));
    assert!(typed.into_inner().equals(&df));
}

#[test]
fn scenario_three_rows() {
    let df = frame(vec![ids(), names(), values()]);
    let typed = TypedDataFrame::<Sample>::new(df).unwrap();

    let value = typed.column(Sample::value).unwrap();
    assert_eq!(value.len(), 3);

    let sorted = typed.sort(Sample::value, false).unwrap();
    let out = sorted.inner();
    let id: Vec<Option<i64>> = out.column("id").unwrap().i64().unwrap().into_iter().collect();
    let name: Vec<Option<&str>> = out.column("name").unwrap().str().unwrap().into_iter().collect();
    let val: Vec<Option<i32>> = out.column("value").unwrap().i32().unwrap().into_iter().collect();
    assert_eq!(id, vec![Some(1), Some(2), Some(3)]);
    assert_eq!(name, vec![Some("a"), Some("b"), Some("c")]);
    assert_eq!(val, vec![Some(10), Some(20), Some(30)]);
}

#[test]
fn scenario_float_values_are_a_mismatch() {
    let floats = Series::new("value".into(), vec![10.5f64, 20.5, 30.5]);
    let df = frame(vec![ids(), names(), floats]);
    let err = TypedDataFrame::<Sample>::new(df).err().unwrap();
    assert!(matches!(
        err,
        TypedError::SchemaMismatch {
            name: "value",
            expected: LogicalType::Int32,
            actual: RuntimeType::Known(LogicalType::Float64),
            ..
        }
    ));
}

#[test]
fn scenario_missing_value_column() {
    let df = frame(vec![ids(), names()]);
    let err = TypedDataFrame::<Sample>::new(df).err().unwrap();
    assert!(matches!(err, TypedError::ColumnNotFound { name: "value" }));
}

#[test]
fn first_failing_declared_column_is_reported() {
    // "id" has the wrong type and "value" is missing: "id" is declared first.
    let short_ids = Series::new("id".into(), vec![1i32, 2, 3]);
    let df = frame(vec![names(), short_ids]);
    let err = TypedDataFrame::<Sample>::new(df).err().unwrap();
    assert!(matches!(
        err,
        TypedError::SchemaMismatch {
            name: "id",
            expected: LogicalType::Int64,
            actual: RuntimeType::Known(LogicalType::Int32),
            ..
        }
    ));

    // "id" is missing and "value" has the wrong type: again "id" comes first.
    let wide_values = Series::new("value".into(), vec![1i64, 2, 3]);
    let df = frame(vec![names(), wide_values]);
    let err = TypedDataFrame::<Sample>::new(df).err().unwrap();
    assert!(matches!(err, TypedError::ColumnNotFound { name: "id" }));
}

#[test]
fn undeclarable_type_is_reported_as_other() {
    let dates = Series::new("value".into(), vec![1i32, 2, 3]).cast(&DataType::Null).unwrap();
    let df = frame(vec![ids(), names(), dates]);
    let err = TypedDataFrame::<Sample>::new(df).err().unwrap();
    assert!(matches!(
        err,
        TypedError::SchemaMismatch {
            name: "value",
            expected: LogicalType::Int32,
            actual: RuntimeType::Other,
            ..
        }
    ));
}

#[test]
fn column_order_does_not_matter() {
    let a = frame(vec![ids(), names(), values()]);
    let b = frame(vec![values(), ids(), names()]);
    let ta = TypedDataFrame::<Sample>::new(a).unwrap();
    let tb = TypedDataFrame::<Sample>::new(b).unwrap();
    let va = ta.column(Sample::value).unwrap();
    let vb = tb.column(Sample::value).unwrap();
    assert!(va.inner().equals(vb.inner()));
    assert!(va.inner().equals(&values()));
    assert_eq!(vb.name(), "value");
    let na = ta.column(Sample::name).unwrap();
    let nb = tb.column(Sample::name).unwrap();
    assert!(na.inner().equals(nb.inner()));
    assert!(nb.inner().equals(&names()));
}

#[test]
fn column_names_are_exact() {
    let upper = Series::new("Value".into(), vec![10i32, 20, 30]);
    let df = frame(vec![ids(), names(), upper]);
    let err = TypedDataFrame::<Sample>::new(df).err().unwrap();
    assert!(matches!(err, TypedError::ColumnNotFound { name: "value" }));
}

#[test]
fn extra_columns_are_let_through() {
    let extra = Series::new("note".into(), vec![true, false, true]);
    let df = frame(vec![ids(), extra, names(), values()]);
    let typed = TypedDataFrame::<Sample>::new(df).unwrap();
    assert_eq!(typed.width(), 4);
    assert_eq!(typed.column(Sample::id).unwrap().len(), 3);
}

#[test]
fn empty_declaration_accepts_every_table() {
    assert!(TypedDataFrame::<Nothing>::new(DataFrame::empty()).is_ok());
    assert!(TypedDataFrame::<Nothing>::new(frame(vec![ids()])).is_ok());
    assert!(Nothing::validate(&frame(vec![values()])).is_ok());
}

#[test]
fn table_without_rows_conforms_by_its_columns() {
    let df = frame(vec![
        Series::new("id".into(), Vec::<i64>::new()),
        Series::new("name".into(), Vec::<String>::new()),
        Series::new("value".into(), Vec::<i32>::new()),
    ]);
    let typed = TypedDataFrame::<Sample>::new(df).unwrap();
    assert_eq!(typed.height(), 0);
    assert!(typed.is_empty());
}

#[test]
fn validate_agrees_with_validate_fields() {
    let good = frame(vec![ids(), names(), values()]);
    let bad = frame(vec![ids(), names()]);
    assert!(Sample::validate(&good).is_ok());
    assert!(validate_fields(Sample::FIELDS, &good).is_ok());
    assert!(matches!(Sample::validate(&bad), Err(TypedError::ColumnNotFound { name: "value" })));
    assert!(matches!(
        validate_fields(Sample::FIELDS, &bad),
        Err(TypedError::ColumnNotFound { name: "value" })
    ));
    // A shorter declaration is met by the same table.
    assert!(validate_fields(&Sample::FIELDS[..2], &bad).is_ok());
}

#[test]
fn unchecked_wrap_keeps_the_table() {
    let df = frame(vec![ids(), names(), values()]);
    assert!(Sample::validate(&df).is_ok());
    let typed = TypedDataFrame::<Sample>::new_unchecked(df.clone());
    assert!(typed.inner().equals(&df));
}

#[test]
fn messages_name_column_and_types() {
    let e = TypedError::ColumnNotFound { name: "value" };
    assert_eq!(e.message(), "Column 'value' not found in DataFrame");
    let e = TypedError::SchemaMismatch {
        name: "value",
        expected: LogicalType::Int32,
        actual: RuntimeType::Known(LogicalType::Float64),
        found: "Float64".to_string(),
    };
    assert_eq!(e.message(), "Column 'value' has type Float64, expected Int32");
    let e = TypedError::SeriesTypeMismatch {
        expected: LogicalType::Text,
        actual: RuntimeType::Other,
        found: "Date".to_string(),
    };
    assert_eq!(e.message(), "Series has type Date, expected String");
    let missing = frame(vec![ids()]).column("nope").err().unwrap();
    let text = missing.to_string();
    assert_eq!(TypedError::Engine(missing).message(), text);
}

#[test]
fn errors_name_the_type_found_as_the_engine_does() {
    let floats = Series::new("value".into(), vec![10.5f64, 20.5, 30.5]);
    let e = TypedDataFrame::<Sample>::new(frame(vec![ids(), names(), floats])).err().unwrap();
    assert_eq!(e.message(), "Column 'value' has type Float64, expected Int32");
    match e {
        TypedError::SchemaMismatch { found, .. } => assert_eq!(found, "Float64"),
        _ => panic!("not a mismatch"),
    }
    let texts = Series::new("id".into(), vec!["a", "b", "c"]);
    let e = TypedDataFrame::<Sample>::new(frame(vec![texts, names(), values()])).err().unwrap();
    assert_eq!(e.message(), "Column 'id' has type String, expected Int64");
    let blank = Series::new_null("name".into(), 3);
    let e = TypedDataFrame::<Sample>::new(frame(vec![ids(), blank, values()])).err().unwrap();
    assert_eq!(e.message(), "Column 'name' has type Null, expected String");
    match e {
        TypedError::SchemaMismatch { actual, found, .. } => {
            assert_eq!(actual, RuntimeType::Other);
            assert_eq!(found, format!("{:?}", DataType::Null));
        },
        _ => panic!("not a mismatch"),
    }
    let lists = Series::new("value".into(), vec![1i32, 2, 3]).implode().unwrap().into_series();
    let lists = lists.new_from_index(0, 3);
    let e = TypedDataFrame::<Sample>::new(frame(vec![ids(), names(), lists.clone()])).err().unwrap();
    assert_eq!(e.message(), format!("Column 'value' has type {:?}, expected Int32", lists.dtype()));
}

#[test]
fn kind_of_a_column_by_name() {
    let extra = Series::new_null("blank".into(), 3);
    let df = frame(vec![ids(), names(), values(), extra]);
    assert_eq!(column_kind(&df, "id"), Some(RuntimeType::Known(LogicalType::Int64)));
    assert_eq!(column_kind(&df, "name"), Some(RuntimeType::Known(LogicalType::Text)));
    assert_eq!(column_kind(&df, "blank"), Some(RuntimeType::Other));
    assert_eq!(column_kind(&df, "ID"), None);
    let typed = TypedDataFrame::<Sample>::new(df).unwrap();
    assert_eq!(typed.kind_of("value"), Some(RuntimeType::Known(LogicalType::Int32)));
    assert_eq!(typed.kind_of("blank"), Some(RuntimeType::Other));
    assert_eq!(typed.kind_of("ghost"), None);
}

#[test]
fn columns_are_read_as_they_are_now() {
    // The engine remembers a table's schema once asked and does not always
    // renew it when a column changes; the check looks at the columns.
    let mut df = frame(vec![ids(), names(), values()]);
    assert_eq!(df.schema().get("value"), Some(&DataType::Int32));
    df.apply("value", |c| c.cast(&DataType::Int64).unwrap()).unwrap();
    assert_eq!(column_kind(&df, "value"), Some(RuntimeType::Known(LogicalType::Int64)));
    assert!(matches!(
        TypedDataFrame::<Sample>::new(df.clone()),
        Err(TypedError::SchemaMismatch {
            name: "value",
            expected: LogicalType::Int32,
            actual: RuntimeType::Known(LogicalType::Int64),
            ..
        })
    ));
    df.rename("value", "amount".into()).unwrap();
    assert_eq!(column_kind(&df, "value"), None);
    assert_eq!(column_kind(&df, "amount"), Some(RuntimeType::Known(LogicalType::Int64)));
    assert!(matches!(
        TypedDataFrame::<Sample>::new(df),
        Err(TypedError::ColumnNotFound { name: "value" })
    ));

    let mut ok = frame(vec![ids(), names(), Series::new("v".into(), vec![1i32, 2, 3])]);
    let _ = ok.schema();
    ok.rename("v", "value".into()).unwrap();
    let typed = TypedDataFrame::<Sample>::new(ok).unwrap();
    assert_eq!(typed.column(Sample::value).unwrap().len(), 3);
}
