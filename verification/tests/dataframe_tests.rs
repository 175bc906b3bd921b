use polars::prelude::{Column as PolarsColumn, DataFrame, DataType, IntoColumn, NamedFrom, Series};
use std::marker::PhantomData;
use typed_polars::engine::frame::{DEFAULT_ROWS, MAX_WINDOW_HEIGHT};
use typed_polars::engine::model::SortMark;
use typed_polars::schema::{Column, FieldDef};
use typed_polars::{LogicalType, RuntimeType, Schema, TypedDataFrame, TypedError};

struct Sample;

impl Schema for Sample {
    const FIELDS: &'static [FieldDef] = &[
        FieldDef { name: "id", dtype: LogicalType::Int64 },
        FieldDef { name: "name", dtype: LogicalType::Text },
        FieldDef { name: "value", dtype: LogicalType::Int32 },
    ];
}

#[allow(non_upper_case_globals)]
impl Sample {
    pub const id: Column<i64> = Column { name: "id", marker: PhantomData };
    pub const name: Column<String> = Column { name: "name", marker: PhantomData };
    pub const value: Column<i32> = Column { name: "value", marker: PhantomData };
}

struct Nothing;

impl Schema for Nothing {
    const FIELDS: &'static [FieldDef] = &[];
}

fn five() -> TypedDataFrame<Sample> {
    let df = DataFrame::new(vec![
        Series::new("id".into(), vec![1i64, 2, 3, 4, 5]).into_column(),
        Series::new("name".into(), vec!["a", "b", "c", "d", "e"]).into_column(),
        Series::new("value".into(), vec![30i32, 10, 50, 20, 40]).into_column(),
    ])
    .unwrap();
    TypedDataFrame::new(df).unwrap()
}

fn many(n: i64) -> TypedDataFrame<Sample> {
    let ids: Vec<i64> = (0..n).collect();
    let names: Vec<String> = ids.iter().map(|i| format!("n{}", i)).collect();
    let values: Vec<i32> = ids.iter().map(|i| *i as i32).collect();
    let df = DataFrame::new(vec![
        Series::new("id".into(), ids).into_column(),
        Series::new("name".into(), names).into_column(),
        Series::new("value".into(), values).into_column(),
    ])
    .unwrap();
    TypedDataFrame::new(df).unwrap()
}

fn ids_of<S: Schema>(t: &TypedDataFrame<S>) -> Vec<i64> {
    t.inner().column("id").unwrap().i64().unwrap().into_no_null_iter().collect()
}

fn values_of<S: Schema>(t: &TypedDataFrame<S>) -> Vec<i32> {
    t.inner().column("value").unwrap().i32().unwrap().into_no_null_iter().collect()
}

fn still_conforms(t: &TypedDataFrame<Sample>) -> bool {
    Sample::validate(t.inner()).is_ok()
}

#[test]
fn projections_of_the_table() {
    let t = five();
    assert_eq!(t.height(), 5);
    assert_eq!(t.width(), 3);
    assert_eq!(t.shape(), (5, 3));
    assert!(!t.is_empty());
    let none = TypedDataFrame::<Nothing>::new(DataFrame::empty()).unwrap();
    assert_eq!(none.shape(), (0, 0));
    assert!(none.is_empty());
}

#[test]
fn head_takes_the_first_rows() {
    let t = five();
    assert!((t.height() as u64) <= MAX_WINDOW_HEIGHT);
    let h = t.head(Some(2));
    assert_eq!(h.height(), 2);
    assert_eq!(ids_of(&h), vec![1, 2]);
    assert!(still_conforms(&h));
    assert_eq!(t.head(Some(0)).height(), 0);
    assert_eq!(t.head(Some(5)).height(), 5);
    assert_eq!(t.head(Some(9)).height(), 5);
    assert_eq!(t.head(Some(usize::MAX)).height(), 5);
    assert_eq!(h.width(), 3);
}

#[test]
fn head_and_tail_default_to_ten_rows() {
    assert_eq!(DEFAULT_ROWS, 10);
    let t = many(25);
    assert_eq!(t.head(None).height(), 10);
    assert_eq!(t.tail(None).height(), 10);
    assert_eq!(ids_of(&t.tail(None)), (15..25).collect::<Vec<i64>>());
    assert_eq!(five().head(None).height(), 5);
    assert_eq!(five().tail(None).height(), 5);
}

#[test]
fn tail_takes_the_last_rows() {
    let t = five();
    let l = t.tail(Some(2));
    assert_eq!(l.height(), 2);
    assert_eq!(ids_of(&l), vec![4, 5]);
    assert!(still_conforms(&l));
    assert_eq!(t.tail(Some(0)).height(), 0);
    assert_eq!(t.tail(Some(7)).height(), 5);
}

#[test]
fn slice_takes_a_window() {
    let t = five();
    let s = t.slice(1, 2);
    assert_eq!(s.height(), 2);
    assert_eq!(ids_of(&s), vec![2, 3]);
    assert!(still_conforms(&s));
    // capped at the rows that follow the start
    assert_eq!(t.slice(3, 10).height(), 2);
    assert_eq!(ids_of(&t.slice(3, 10)), vec![4, 5]);
    assert_eq!(t.slice(0, 5).height(), 5);
    assert_eq!(t.slice(5, 1).height(), 0);
    assert_eq!(t.slice(9, 3).height(), 0);
    assert_eq!(t.slice(2, 0).height(), 0);
    assert_eq!(t.slice(0, usize::MAX).height(), 5);
    assert_eq!(t.slice(i64::MAX, usize::MAX).height(), 0);
}

#[test]
fn slice_counts_negative_offsets_from_the_end() {
    let t = five();
    assert_eq!(ids_of(&t.slice(-2, 2)), vec![4, 5]);
    assert_eq!(ids_of(&t.slice(-2, 1)), vec![4]);
    assert_eq!(ids_of(&t.slice(-2, 9)), vec![4, 5]);
    // a start before the first row is held at the first row, and the part of
    // the window before it is lost
    assert_eq!(ids_of(&t.slice(-7, 3)), vec![1]);
    assert_eq!(t.slice(-7, 2).height(), 0);
    assert_eq!(t.slice(i64::MIN, 4).height(), 0);
    assert_eq!(t.slice(i64::MIN, usize::MAX).height(), 5);
}

#[test]
fn slice_of_a_table_without_columns() {
    let none = TypedDataFrame::<Nothing>::new(DataFrame::empty()).unwrap();
    assert_eq!(none.slice(0, 3).height(), 0);
    assert_eq!(none.head(Some(3)).height(), 0);
    assert_eq!(none.tail(None).height(), 0);
}

#[test]
fn sort_orders_by_the_key() {
    let t = five();
    let up = t.sort(Sample::value, false).unwrap();
    assert_eq!(values_of(&up), vec![10, 20, 30, 40, 50]);
    assert_eq!(ids_of(&up), vec![2, 4, 1, 5, 3]);
    assert_eq!(up.shape(), (5, 3));
    assert!(still_conforms(&up));
    let down = t.sort(Sample::value, true).unwrap();
    assert_eq!(values_of(&down), vec![50, 40, 30, 20, 10]);
    assert!(still_conforms(&down));
}

#[test]
fn opposite_direction_reverses_distinct_keys() {
    let t = five();
    let up = t.sort(Sample::value, false).unwrap();
    let down = up.sort(Sample::value, true).unwrap();
    let mut reversed = ids_of(&up);
    reversed.reverse();
    assert_eq!(ids_of(&down), reversed);
    let by_name_down = t.sort(Sample::name, true).unwrap();
    assert_eq!(ids_of(&by_name_down), vec![5, 4, 3, 2, 1]);
}

#[test]
fn sort_by_an_unknown_name_is_an_engine_error() {
    let t = five();
    let ghost: Column<i32> = Column::new("ghost");
    assert!(t.inner().schema().get("ghost").is_none());
    assert!(matches!(t.sort(ghost, false), Err(TypedError::Engine(_))));
}

#[test]
fn sort_of_an_empty_table() {
    let t = five().head(Some(0));
    let s = t.sort(Sample::id, true).unwrap();
    assert_eq!(s.shape(), (0, 3));
}

#[test]
fn filter_keeps_marked_rows() {
    let t = five();
    let f = t.filter(&[true, false, true, false, false]).unwrap();
    assert_eq!(f.height(), 2);
    assert_eq!(ids_of(&f), vec![1, 3]);
    assert!(still_conforms(&f));
    assert_eq!(t.filter(&[false; 5]).unwrap().height(), 0);
    assert_eq!(t.filter(&[true; 5]).unwrap().height(), 5);
    assert_eq!(f.width(), 3);
}

#[test]
fn filter_with_a_mask_of_another_length() {
    let t = five();
    assert!(matches!(t.filter(&[true, false]), Err(TypedError::Engine(_))));
    assert!(matches!(t.filter(&[]), Err(TypedError::Engine(_))));
    // a mask of one entry of a one-row table is an ordinary mask
    let one = t.head(Some(1));
    assert_eq!(one.filter(&[true]).unwrap().height(), 1);
    assert_eq!(one.filter(&[false]).unwrap().height(), 0);
    let none = t.head(Some(0));
    assert_eq!(none.filter(&[]).unwrap().height(), 0);
}

#[test]
fn filter_of_a_table_without_columns() {
    let none = TypedDataFrame::<Nothing>::new(DataFrame::empty()).unwrap();
    let out = none.filter(&[]).unwrap();
    assert_eq!(out.shape(), (0, 0));
}

#[test]
fn filter_keeps_columns_that_hold_one_repeated_value() {
    let df = DataFrame::new(vec![
        Series::new("id".into(), vec![1i64, 2, 3]).into_column(),
        Series::new("name".into(), vec!["a", "b", "c"]).into_column(),
        PolarsColumn::new_scalar(
            "value".into(),
            polars::prelude::Scalar::new(DataType::Int32, polars::prelude::AnyValue::Int32(7)),
            3,
        ),
    ])
    .unwrap();
    let t = TypedDataFrame::<Sample>::new(df).unwrap();
    let f = t.filter(&[false, true, true]).unwrap();
    assert_eq!(f.height(), 2);
    assert_eq!(values_of(&f), vec![7, 7]);
    assert!(still_conforms(&f));
    assert_eq!(t.head(Some(2)).height(), 2);
    assert_eq!(t.slice(-1, 4).height(), 1);
    assert_eq!(t.take(&[2, 0]).unwrap().height(), 2);
    assert_eq!(t.sort(Sample::value, true).unwrap().height(), 3);
    assert_eq!(t.column(Sample::value).unwrap().len(), 3);
}

#[test]
fn take_gathers_rows_in_the_given_order() {
    let t = five();
    let g = t.take(&[4, 0, 0, 2]).unwrap();
    assert_eq!(g.height(), 4);
    assert_eq!(ids_of(&g), vec![5, 1, 1, 3]);
    assert!(still_conforms(&g));
    assert_eq!(t.take(&[]).unwrap().height(), 0);
}

#[test]
fn take_beyond_the_last_row_is_an_engine_error() {
    let t = five();
    assert!(matches!(t.take(&[0, 5]), Err(TypedError::Engine(_))));
    assert!(matches!(t.take(&[u32::MAX]), Err(TypedError::Engine(_))));
    assert!(t.take(&[4]).is_ok());
}

#[test]
fn select_gives_the_named_columns_in_order() {
    let t = five();
    let out = t.select(vec!["value", "id"]).unwrap();
    assert_eq!(out.shape(), (5, 2));
    let names: Vec<String> = out.get_column_names().iter().map(|n| n.to_string()).collect();
    assert_eq!(names, vec!["value".to_string(), "id".to_string()]);
    assert_eq!(out.column("value").unwrap().dtype(), &DataType::Int32);
    assert_eq!(out.column("id").unwrap().dtype(), &DataType::Int64);
    assert_eq!(t.select(vec![]).unwrap().width(), 0);
    assert_eq!(t.select(vec![]).unwrap().height(), 5);
}

#[test]
fn select_refuses_unknown_and_repeated_names() {
    let t = five();
    assert!(matches!(t.select(vec!["id", "ghost"]), Err(TypedError::Engine(_))));
    assert!(matches!(t.select(vec!["id", "id"]), Err(TypedError::Engine(_))));
}

#[test]
fn column_by_handle() {
    let t = five();
    let v = t.column(Sample::value).unwrap();
    assert_eq!(v.name(), "value");
    assert_eq!(v.len(), 5);
    assert_eq!(v.inner().dtype(), &DataType::Int32);
    let got: Vec<i32> = v.inner().i32().unwrap().into_no_null_iter().collect();
    assert_eq!(got, vec![30, 10, 50, 20, 40]);
}

#[test]
fn column_with_a_handle_of_another_type() {
    let t = five();
    let wrong: Column<i64> = Column::new("value");
    assert!(matches!(
        t.column(wrong),
        Err(TypedError::SeriesTypeMismatch {
            expected: LogicalType::Int64,
            actual: RuntimeType::Known(LogicalType::Int32),
            ..
        })
    ));
    let ghost: Column<i64> = Column::new("ghost");
    assert!(matches!(t.column(ghost), Err(TypedError::Engine(_))));
}

#[test]
fn clone_wraps_the_same_table() {
    let t = five();
    let c = t.clone();
    assert!(c.inner().equals(t.inner()));
    assert_eq!(c.shape(), t.shape());
}

#[test]
fn lazy_hands_the_rows_to_a_query() {
    let t = five();
    let back = t.clone().lazy().collect().unwrap();
    assert!(back.equals(t.inner()));
    assert!(TypedDataFrame::<Sample>::new(back).is_ok());
}

#[test]
fn lazy_query_reads_the_table_and_does_nothing_else() {
    let t = five();
    let query = t.clone().lazy();
    match query.logical_plan {
        polars::prelude::DslPlan::DataFrameScan { df, .. } => {
            assert!(df.equals(t.inner()));
            assert_eq!(df.shape(), (5, 3));
        },
        _ => panic!("the query is not a plain read of the table"),
    }
    let none = TypedDataFrame::<Nothing>::new(DataFrame::empty()).unwrap();
    assert_eq!(none.lazy().collect().unwrap().shape(), (0, 0));
}

fn tall(rows: usize) -> TypedDataFrame<Sample> {
    let scalar = |name: &str, dtype: DataType, value: polars::prelude::AnyValue<'static>| {
        PolarsColumn::new_scalar(name.into(), polars::prelude::Scalar::new(dtype, value), rows)
    };
    let df = DataFrame::new(vec![
        scalar("id", DataType::Int64, polars::prelude::AnyValue::Int64(1)),
        scalar("name", DataType::String, polars::prelude::AnyValue::StringOwned("x".into())),
        scalar("value", DataType::Int32, polars::prelude::AnyValue::Int32(2)),
    ])
    .unwrap();
    TypedDataFrame::new(df).unwrap()
}

#[test]
fn limits_of_the_engine_are_told_apart() {
    let t = five();
    assert!(t.is_windowable());
    assert!(t.is_readable("value"));
    assert!(t.is_readable("ghost"));
    assert!(t.is_sortable_by("value"));
    assert!(t.is_sortable_by("ghost"));

    // More rows than a column can hold in memory, as one repeated value.
    let wide = tall(u32::MAX as usize);
    assert_eq!(wide.height(), u32::MAX as usize);
    assert!(wide.is_windowable());
    assert!(!wide.is_readable("value"));
    assert!(wide.is_readable("ghost"));
    assert!(!wide.is_sortable_by("value"));
    assert!(wide.is_sortable_by("ghost"));
    assert_eq!(wide.head(Some(3)).height(), 3);
    assert_eq!(wide.tail(None).height(), 10);
    assert_eq!(wide.slice(-4, 9).height(), 4);
    assert!(tall(u32::MAX as usize - 1).is_readable("value"));
    assert!(tall(u32::MAX as usize - 1).is_sortable_by("id"));

    // More rows than the engine can count from either end.
    let taller = tall(MAX_WINDOW_HEIGHT as usize + 1);
    assert!(!taller.is_windowable());
    assert!(tall(MAX_WINDOW_HEIGHT as usize).is_windowable());
    assert_eq!(tall(MAX_WINDOW_HEIGHT as usize).head(Some(1)).height(), 1);
}

#[test]
fn undeclarable_keys_are_not_sortable() {
    let df = DataFrame::new(vec![
        Series::new("id".into(), vec![1i64, 2]).into_column(),
        Series::new("name".into(), vec!["a", "b"]).into_column(),
        Series::new("value".into(), vec![1i32, 2]).into_column(),
        Series::new_null("blank".into(), 2).into_column(),
    ])
    .unwrap();
    let t = TypedDataFrame::<Sample>::new(df).unwrap();
    assert!(!t.is_sortable_by("blank"));
    assert!(t.is_readable("blank"));
    assert!(t.is_sortable_by("name"));
}

fn names_of<S: Schema>(t: &TypedDataFrame<S>) -> Vec<String> {
    t.inner().column("name").unwrap().str().unwrap().into_no_null_iter().map(String::from).collect()
}

fn three(ids: Vec<i64>, names: Vec<&str>, values: Vec<i32>) -> TypedDataFrame<Sample> {
    let df = DataFrame::new(vec![
        Series::new("id".into(), ids).into_column(),
        Series::new("name".into(), names).into_column(),
        Series::new("value".into(), values).into_column(),
    ])
    .unwrap();
    TypedDataFrame::new(df).unwrap()
}

#[test]
fn sort_moves_whole_rows() {
    let t = three(vec![3, 1, 2], vec!["c", "a", "b"], vec![30, 10, 20]);
    assert_eq!(t.sort_mark("value"), Some(SortMark::Unmarked));
    let down = t.sort(Sample::value, true).unwrap();
    assert_eq!(values_of(&down), vec![30, 20, 10]);
    assert_eq!(ids_of(&down), vec![3, 2, 1]);
    assert_eq!(names_of(&down), vec!["c", "b", "a"]);
    let up = t.sort(Sample::value, false).unwrap();
    assert_eq!(values_of(&up), vec![10, 20, 30]);
    assert_eq!(ids_of(&up), vec![1, 2, 3]);
    assert_eq!(names_of(&up), vec!["a", "b", "c"]);
}

#[test]
fn sorted_table_comes_back_as_it_is() {
    let t = three(vec![1, 2, 3], vec!["a", "b", "c"], vec![10, 20, 30]);
    let up = t.sort(Sample::value, false).unwrap();
    assert!(up.inner().equals(t.inner()));
    let again = up.sort(Sample::value, false).unwrap();
    assert!(again.inner().equals(t.inner()));
}

#[test]
fn sort_sets_a_true_mark() {
    let t = five();
    assert_eq!(t.sort_mark("value"), Some(SortMark::Unmarked));
    assert_eq!(t.sort_mark("ghost"), None);
    let up = t.sort(Sample::value, false).unwrap();
    assert_eq!(up.sort_mark("value"), Some(SortMark::Ascending));
    let down = up.sort(Sample::value, true).unwrap();
    assert_eq!(down.sort_mark("value"), Some(SortMark::Descending));
    assert_eq!(values_of(&down), vec![50, 40, 30, 20, 10]);
    let by_name = down.sort(Sample::name, false).unwrap();
    assert_eq!(by_name.sort_mark("name"), Some(SortMark::Ascending));
    assert_eq!(names_of(&by_name), vec!["a", "b", "c", "d", "e"]);
}

#[test]
fn sort_orders_text_by_code_points() {
    let t = three(vec![1, 2, 3], vec!["b", "B", "ab"], vec![1, 2, 3]);
    let up = t.sort(Sample::name, false).unwrap();
    assert_eq!(names_of(&up), vec!["B", "ab", "b"]);
    let down = t.sort(Sample::name, true).unwrap();
    assert_eq!(names_of(&down), vec!["b", "ab", "B"]);
    let accents = three(vec![1, 2, 3], vec!["z", "\u{e9}", "e"], vec![1, 2, 3]);
    assert_eq!(names_of(&accents.sort(Sample::name, false).unwrap()), vec!["e", "z", "\u{e9}"]);
    let lengths = three(vec![1, 2, 3], vec!["aa", "", "a"], vec![1, 2, 3]);
    assert_eq!(names_of(&lengths.sort(Sample::name, false).unwrap()), vec!["", "a", "aa"]);
}

#[test]
fn sort_orders_negative_integers_by_value() {
    let t = three(vec![-1, 5, -7], vec!["a", "b", "c"], vec![0, i32::MIN, i32::MAX]);
    assert_eq!(ids_of(&t.sort(Sample::id, false).unwrap()), vec![-7, -1, 5]);
    assert_eq!(values_of(&t.sort(Sample::value, true).unwrap()), vec![i32::MAX, 0, i32::MIN]);
}

#[test]
fn a_false_mark_is_trusted_by_the_engine() {
    // A key marked ascending that is not: the engine hands the table back as
    // it stands. The typed layer promises the order only under a true mark.
    let mut value = Series::new("value".into(), vec![30i32, 10, 20]);
    value.set_sorted_flag(polars::series::IsSorted::Ascending);
    let df = DataFrame::new(vec![
        Series::new("id".into(), vec![3i64, 1, 2]).into_column(),
        Series::new("name".into(), vec!["c", "a", "b"]).into_column(),
        value.into_column(),
    ])
    .unwrap();
    let t = TypedDataFrame::<Sample>::new(df).unwrap();
    assert_eq!(t.sort_mark("value"), Some(SortMark::Ascending));
    let up = t.sort(Sample::value, false).unwrap();
    assert_eq!(values_of(&up), vec![30, 10, 20]);
    assert_eq!(up.height(), 3);
}

#[test]
fn sort_with_missing_keys_keeps_the_others_in_order() {
    let df = DataFrame::new(vec![
        Series::new("id".into(), vec![Some(2i64), None, Some(1), Some(3)]).into_column(),
        Series::new("name".into(), vec!["b", "n", "a", "c"]).into_column(),
        Series::new("value".into(), vec![2i32, 0, 1, 3]).into_column(),
    ])
    .unwrap();
    let t = TypedDataFrame::<Sample>::new(df).unwrap();
    let present = |t: &TypedDataFrame<Sample>| -> Vec<i64> {
        t.inner().column("id").unwrap().i64().unwrap().into_iter().flatten().collect()
    };
    let up = t.sort(Sample::id, false).unwrap();
    assert_eq!(present(&up), vec![1, 2, 3]);
    let down = up.sort(Sample::id, true).unwrap();
    assert_eq!(present(&down), vec![3, 2, 1]);
    let up_again = down.sort(Sample::id, false).unwrap();
    assert_eq!(present(&up_again), vec![1, 2, 3]);
    assert_eq!(up_again.height(), 4);
}

#[test]
fn filterable_masks_are_told_apart() {
    let t = five();
    assert!(t.is_filterable(&[true, false, true, false, false]));
    assert!(t.is_filterable(&[true, true]));
    assert!(t.is_filterable(&[]));
    let none = TypedDataFrame::<Nothing>::new(DataFrame::empty()).unwrap();
    assert!(none.is_filterable(&[]));
    assert!(none.is_filterable(&[true]));
    assert!(none.is_filterable(&[false, false, true]));
    assert!(!none.is_filterable(&[true, true]));
    assert!(!none.is_filterable(&[true, false, true]));
    assert_eq!(none.filter(&[true]).unwrap().shape(), (0, 0));
    assert_eq!(none.filter(&[false, false]).unwrap().shape(), (0, 0));
    let bare = five().select(vec![]).unwrap();
    let bare = TypedDataFrame::<Nothing>::new(bare).unwrap();
    assert_eq!(bare.shape(), (5, 0));
    assert!(bare.is_filterable(&[true, true, false, true, false]));
    assert!(!bare.is_filterable(&[true, true]));
    assert_eq!(bare.filter(&[true, true, false, true, false]).unwrap().height(), 3);
}

#[test]
fn engine_errors_are_passed_on_as_they_came() {
    let t = five();
    let own = t.inner().column("ghost").err().unwrap().to_string();
    let ghost: Column<i32> = Column::new("ghost");
    match t.column(ghost) {
        Err(TypedError::Engine(e)) => assert_eq!(e.to_string(), own),
        _ => panic!("the engine's error was not passed on"),
    }
    let own = t.inner().select(["id", "id"]).err().unwrap().to_string();
    match t.select(vec!["id", "id"]) {
        Err(TypedError::Engine(e)) => assert_eq!(e.to_string(), own),
        _ => panic!("the engine's error was not passed on"),
    }
    let cause = t.inner().column("ghost").err().unwrap();
    let text = cause.to_string();
    match TypedDataFrame::<Sample>::from_row_operation(Err(cause)) {
        Err(TypedError::Engine(e)) => assert_eq!(e.to_string(), text),
        _ => panic!("the engine's error was not passed on"),
    }
    let back = TypedDataFrame::<Sample>::from_row_operation(Ok(t.inner().clone())).unwrap();
    assert!(back.inner().equals(t.inner()));
    let cause = t.inner().column("ghost").err().unwrap();
    assert!(matches!(typed_polars::dataframe::pass_on(Err(cause)), Err(TypedError::Engine(_))));
    assert!(typed_polars::dataframe::pass_on(Ok(t.inner().clone())).unwrap().equals(t.inner()));
}

#[test]
fn take_with_missing_row_numbers() {
    let t = five();
    let g = t.take_nullable(&[Some(4), None, Some(0)]).unwrap();
    assert_eq!(g.height(), 3);
    let ids: Vec<Option<i64>> = g.inner().column("id").unwrap().i64().unwrap().into_iter().collect();
    assert_eq!(ids, vec![Some(5), None, Some(1)]);
    let names: Vec<Option<&str>> =
        g.inner().column("name").unwrap().str().unwrap().into_iter().collect();
    assert_eq!(names, vec![Some("e"), None, Some("a")]);
    assert!(still_conforms(&g));
    assert!(matches!(t.take_nullable(&[None, Some(5)]), Err(TypedError::Engine(_))));
    assert_eq!(t.take_nullable(&[None, None]).unwrap().height(), 2);
    assert_eq!(t.take_nullable(&[]).unwrap().height(), 0);
    let empty = t.head(Some(0));
    let blank = empty.take_nullable(&[None]).unwrap();
    assert_eq!(blank.height(), 1);
    assert_eq!(blank.inner().column("value").unwrap().null_count(), 1);
    assert!(matches!(empty.take_nullable(&[Some(0)]), Err(TypedError::Engine(_))));
}

#[test]
fn take_with_missing_row_numbers_from_a_repeated_value() {
    let df = DataFrame::new(vec![
        Series::new("id".into(), vec![1i64, 2, 3]).into_column(),
        Series::new("name".into(), vec!["a", "b", "c"]).into_column(),
        PolarsColumn::new_scalar(
            "value".into(),
            polars::prelude::Scalar::new(DataType::Int32, polars::prelude::AnyValue::Int32(7)),
            3,
        ),
    ])
    .unwrap();
    let t = TypedDataFrame::<Sample>::new(df).unwrap();
    let g = t.take_nullable(&[Some(2), None, Some(0), None]).unwrap();
    let values: Vec<Option<i32>> =
        g.inner().column("value").unwrap().i32().unwrap().into_iter().collect();
    assert_eq!(values, vec![Some(7), None, Some(7), None]);
    let all_blank = t.take_nullable(&[None, None]).unwrap();
    assert_eq!(all_blank.inner().column("value").unwrap().null_count(), 2);
    assert!(still_conforms(&all_blank));
}

#[test]
fn names_of_the_columns() {
    let t = five();
    assert_eq!(t.column_names(), vec!["id", "name", "value"]);
    assert!(t.has_distinct_names());
    let none = TypedDataFrame::<Nothing>::new(DataFrame::empty()).unwrap();
    assert_eq!(none.column_names(), Vec::<String>::new());
    assert!(none.has_distinct_names());
}

#[test]
fn the_same_name_twice_is_seen() {
    // The engine checks a new name against a schema it remembers, which may
    // have fallen behind: two renames can leave one name on two columns.
    let mut df = DataFrame::new(vec![
        Series::new("a".into(), vec![1i64]).into_column(),
        Series::new("b".into(), vec![2i64]).into_column(),
    ])
    .unwrap();
    let _ = df.schema();
    df.rename("a", "c".into()).unwrap();
    if df.rename("b", "c".into()).is_ok() {
        let t = TypedDataFrame::<Nothing>::new_unchecked(df);
        assert_eq!(t.column_names(), vec!["c", "c"]);
        assert!(!t.has_distinct_names());
    }
}
