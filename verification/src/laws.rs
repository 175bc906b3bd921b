//! What holds of the library as a whole, stated over the models that its
//! contracts use and proved from the definitions.

use vstd::prelude::*;
use crate::dtype::RuntimeType;
use crate::engine::frame::rows_asked;
use crate::engine::model::{
    column_index, has_column, in_key_order, is_row_order, keep, lemma_lookup_at, lookup,
    names_distinct, rows_at, rows_kept, rows_window, slice_rows, slice_start, text_before,
    value_before, Cell, ColumnSig, TableView,
};
use crate::error::TypedError;
use crate::schema::{
    conforms, declared, field_ok, is_field_error, is_first_failure, is_validation_error,
    names_unique, FieldDef,
};

verus! {

/// At most one declared column is the first that a table does not satisfy.
pub proof fn lemma_first_failure_unique(
    fields: Seq<FieldDef>,
    table: Seq<ColumnSig>,
    i: int,
    j: int,
)
    requires
        is_first_failure(fields, table, i),
        is_first_failure(fields, table, j),
    ensures
        i == j,
{
    if i < j {
        assert(field_ok(fields[i], table));
    }
    if j < i {
        assert(field_ok(fields[j], table));
    }
}

/// A table is refused exactly when some declared column is the first that it
/// does not satisfy: the check cannot both pass and name a culprit, and it
/// cannot fail without one.
pub proof fn lemma_conforms_or_first_failure(fields: Seq<FieldDef>, table: Seq<ColumnSig>)
    ensures
        conforms(fields, table) <==> !exists|i: int| is_first_failure(fields, table, i),
{
    if conforms(fields, table) {
        assert forall|i: int| !is_first_failure(fields, table, i) by {
            if 0 <= i < fields.len() {
                assert(field_ok(fields[i], table));
            }
        }
    } else {
        let k = least_failure(fields, table, fields.len() as int);
        assert(is_first_failure(fields, table, k));
    }
}

/// The least position below `bound` of a declared column that the table does
/// not satisfy, where there is one.
proof fn least_failure(fields: Seq<FieldDef>, table: Seq<ColumnSig>, bound: int) -> (k: int)
    requires
        0 <= bound <= fields.len(),
        exists|i: int| 0 <= i < bound && !field_ok(#[trigger] fields[i], table),
    ensures
        is_first_failure(fields, table, k),
        k < bound,
    decreases bound,
{
    let last = bound - 1;
    if exists|i: int| 0 <= i < last && !field_ok(#[trigger] fields[i], table) {
        least_failure(fields, table, last)
    } else {
        assert(!field_ok(fields[last], table));
        last
    }
}

/// A table in which a declared column is missing does not conform; and where
/// every column declared before it is satisfied, the error of the check is
/// `ColumnNotFound` with that column's name.
pub proof fn lemma_missing_column_reported(
    fields: Seq<FieldDef>,
    table: TableView,
    i: int,
    e: TypedError,
)
    requires
        0 <= i < fields.len(),
        !table.has(fields[i].name@),
    ensures
        !conforms(fields, table.fields),
        (forall|j: int| 0 <= j < i ==> field_ok(#[trigger] fields[j], table.fields))
            && is_validation_error(fields, table, e) ==> e == (TypedError::ColumnNotFound {
            name: fields[i].name,
        }),
{
    assert(!field_ok(fields[i], table.fields));
    if (forall|j: int| 0 <= j < i ==> field_ok(#[trigger] fields[j], table.fields))
        && is_validation_error(fields, table, e) {
        assert(is_first_failure(fields, table.fields, i));
        let k = choose|k: int| #[trigger]
            is_first_failure(fields, table.fields, k) && is_field_error(e, fields[k], table);
        lemma_first_failure_unique(fields, table.fields, i, k);
    }
}

/// A table in which a declared column has another type than the declared one
/// does not conform; and where every column declared before it is satisfied,
/// the error of the check is `SchemaMismatch` with that column's name, the
/// declared type, the kind found and the engine's name of the type found.
pub proof fn lemma_mistyped_column_reported(
    fields: Seq<FieldDef>,
    table: TableView,
    i: int,
    actual: RuntimeType,
    e: TypedError,
)
    requires
        0 <= i < fields.len(),
        table.kind_of(fields[i].name@) == Some(actual),
        actual != RuntimeType::Known(fields[i].dtype),
    ensures
        !conforms(fields, table.fields),
        (forall|j: int| 0 <= j < i ==> field_ok(#[trigger] fields[j], table.fields))
            && is_validation_error(fields, table, e) ==> e.is_schema_mismatch(
            fields[i].name,
            fields[i].dtype,
            actual,
            table.type_text_of(fields[i].name@),
        ),
{
    assert(!field_ok(fields[i], table.fields));
    if (forall|j: int| 0 <= j < i ==> field_ok(#[trigger] fields[j], table.fields))
        && is_validation_error(fields, table, e) {
        assert(is_first_failure(fields, table.fields, i));
        let k = choose|k: int| #[trigger]
            is_first_failure(fields, table.fields, k) && is_field_error(e, fields[k], table);
        lemma_first_failure_unique(fields, table.fields, i, k);
    }
}

/// Two tables hold the same columns, in whatever order.
pub open spec fn same_columns(a: Seq<ColumnSig>, b: Seq<ColumnSig>) -> bool {
    forall|c: ColumnSig| a.contains(c) <==> b.contains(c)
}

/// Looking a column up by name does not depend on where the column stands:
/// two tables with the same columns in different orders answer alike.
pub proof fn lemma_lookup_ignores_order(a: Seq<ColumnSig>, b: Seq<ColumnSig>, name: Seq<char>)
    requires
        names_distinct(a),
        names_distinct(b),
        same_columns(a, b),
    ensures
        lookup(a, name) == lookup(b, name),
{
    if has_column(a, name) {
        let i = column_index(a, name);
        assert(a.contains(a[i]));
        assert(b.contains(a[i]));
        let j = choose|j: int| 0 <= j < b.len() && b[j] == a[i];
        lemma_lookup_at(a, i);
        lemma_lookup_at(b, j);
    } else if has_column(b, name) {
        let j = column_index(b, name);
        assert(b.contains(b[j]));
        assert(a.contains(b[j]));
        let i = choose|i: int| 0 <= i < a.len() && a[i] == b[j];
        assert(a[i].name == name);
    }
}

/// Conformance does not depend on the order of a table's columns.
pub proof fn lemma_conforms_ignores_order(
    fields: Seq<FieldDef>,
    a: Seq<ColumnSig>,
    b: Seq<ColumnSig>,
)
    requires
        names_distinct(a),
        names_distinct(b),
        same_columns(a, b),
    ensures
        conforms(fields, a) == conforms(fields, b),
{
    assert forall|i: int| 0 <= i < fields.len() implies field_ok(#[trigger] fields[i], a)
        == field_ok(fields[i], b) by {
        lemma_lookup_ignores_order(a, b, fields[i].name@);
    }
}

/// In a table that conforms to a declaration, every declared column is found
/// under its name with its declared type.
pub proof fn lemma_declared_column_found(fields: Seq<FieldDef>, table: Seq<ColumnSig>, i: int)
    requires
        conforms(fields, table),
        0 <= i < fields.len(),
    ensures
        has_column(table, fields[i].name@),
        lookup(table, fields[i].name@) == Some(RuntimeType::Known(fields[i].dtype)),
{
    assert(field_ok(fields[i], table));
}

/// The table that has exactly the declared columns conforms to the declaration.
pub proof fn lemma_declared_conforms(fields: Seq<FieldDef>)
    requires
        names_unique(fields),
    ensures
        names_distinct(declared(fields)),
        conforms(fields, declared(fields)),
{
    let table = declared(fields);
    assert forall|i: int, j: int|
        0 <= i < table.len() && 0 <= j < table.len() && i != j implies (#[trigger] table[i]).name
        != (#[trigger] table[j]).name by {
        assert(fields[i].name@ != fields[j].name@);
    }
    assert forall|i: int| 0 <= i < fields.len() implies field_ok(#[trigger] fields[i], table) by {
        lemma_lookup_at(table, i);
    }
}

/// Conformance looks at the declared columns only: a conforming table still
/// conforms when it is given one more column under a new name.
pub proof fn lemma_extra_column_tolerated(
    fields: Seq<FieldDef>,
    table: Seq<ColumnSig>,
    extra: ColumnSig,
)
    requires
        names_distinct(table),
        !has_column(table, extra.name),
        conforms(fields, table),
    ensures
        names_distinct(table.push(extra)),
        conforms(fields, table.push(extra)),
{
    let wider = table.push(extra);
    assert forall|i: int, j: int|
        0 <= i < wider.len() && 0 <= j < wider.len() && i != j implies (#[trigger] wider[i]).name
        != (#[trigger] wider[j]).name by {
        if i < table.len() && j < table.len() {
            assert(table[i].name != table[j].name);
        } else if i < table.len() {
            assert(table[i].name != extra.name);
        } else {
            assert(table[j].name != extra.name);
        }
    }
    assert forall|i: int| 0 <= i < fields.len() implies field_ok(#[trigger] fields[i], wider) by {
        assert(field_ok(fields[i], table));
        let k = column_index(table, fields[i].name@);
        assert(wider[k] == table[k]);
        lemma_lookup_at(table, k);
        lemma_lookup_at(wider, k);
    }
}

/// A window never has more rows than were asked for nor than the table has;
/// a window that starts inside the table has the rows asked for, capped at
/// those that follow its start.
pub proof fn lemma_slice_rows_capped(offset: int, length: int, height: int)
    requires
        0 <= length,
        0 <= height,
    ensures
        0 <= slice_rows(offset, length, height) <= length,
        slice_rows(offset, length, height) <= height,
        0 <= offset <= height ==> slice_rows(offset, length, height) == vstd::math::min(
            length,
            height - offset,
        ),
        -height <= offset < 0 ==> slice_rows(offset, length, height) == vstd::math::min(
            length,
            -offset,
        ),
        slice_rows(0, height, height) == height,
        slice_start(offset, height) + slice_rows(offset, length, height) <= height,
{
}

/// Table `b` holds the columns of table `a`, names, types and values, in
/// another order: column `j` of `b` is column `order[j]` of `a`.
pub open spec fn is_rearranged(
    fields_a: Seq<ColumnSig>,
    values_a: Seq<Seq<Cell>>,
    fields_b: Seq<ColumnSig>,
    values_b: Seq<Seq<Cell>>,
    order: Seq<int>,
) -> bool {
    &&& fields_a.len() == values_a.len()
    &&& fields_b.len() == values_b.len()
    &&& is_row_order(order, fields_a.len())
    &&& fields_b.len() == fields_a.len()
    &&& forall|j: int|
        0 <= j < fields_b.len() ==> #[trigger] fields_b[j] == fields_a[order[j]] && values_b[j]
            == values_a[order[j]]
}

/// A column is read by its name alone: where two tables hold the same columns
/// in different orders, a name that one of them has is found in both, with the
/// same type and the same values.
pub proof fn lemma_column_ignores_order(
    fields_a: Seq<ColumnSig>,
    values_a: Seq<Seq<Cell>>,
    fields_b: Seq<ColumnSig>,
    values_b: Seq<Seq<Cell>>,
    order: Seq<int>,
    name: Seq<char>,
)
    requires
        names_distinct(fields_a),
        is_rearranged(fields_a, values_a, fields_b, values_b, order),
        has_column(fields_b, name),
    ensures
        has_column(fields_a, name),
        lookup(fields_a, name) == lookup(fields_b, name),
        values_a[column_index(fields_a, name)] == values_b[column_index(fields_b, name)],
{
    let j = column_index(fields_b, name);
    let i = order[j];
    assert(fields_b[j] == fields_a[i]);
    assert(fields_a[i].name == name);
    lemma_lookup_at(fields_a, i);
}

/// The first rows of a table are the window of that many rows at its start.
pub proof fn lemma_head_is_a_slice(n: usize, height: nat)
    ensures
        slice_start(0, height as int) == 0,
        slice_rows(0, n as int, height as int) == rows_asked(Some(n), height),
        rows_asked(Some(n), height) == vstd::math::min(n as int, height as int),
{
}

/// The last rows of a table are the window of that many rows at its end.
/// (Asked for no rows, both are empty, wherever the window is said to start.)
pub proof fn lemma_tail_is_a_slice(n: usize, height: nat)
    ensures
        rows_asked(Some(n), height) > 0 ==> slice_start(
            -(rows_asked(Some(n), height) as int),
            height as int,
        ) == height - rows_asked(Some(n), height),
        slice_rows(
            -(rows_asked(Some(n), height) as int),
            rows_asked(Some(n), height) as int,
            height as int,
        ) == rows_asked(Some(n), height),
{
}

/// A window of a table's rows is cut from every column alike: row `k` of the
/// window is row `start + k` of the table.
pub proof fn lemma_window_rows(columns: Seq<Seq<Cell>>, start: int, len: int, i: int, k: int)
    requires
        0 <= i < columns.len(),
        0 <= start,
        0 <= k < len,
        start + len <= columns[i].len(),
    ensures
        rows_window(columns, start, len).len() == columns.len(),
        rows_window(columns, start, len)[i].len() == len,
        rows_window(columns, start, len)[i][k] == columns[i][start + k],
{
}

/// The window that spans a whole table is the table.
pub proof fn lemma_whole_window(columns: Seq<Seq<Cell>>, height: int)
    requires
        forall|i: int| 0 <= i < columns.len() ==> (#[trigger] columns[i]).len() == height,
    ensures
        rows_window(columns, 0, height) == columns,
{
    assert forall|i: int| 0 <= i < columns.len() implies #[trigger] rows_window(
        columns,
        0,
        height,
    )[i] == columns[i] by {
        assert(columns[i].subrange(0, height) =~= columns[i]);
    }
    assert(rows_window(columns, 0, height) =~= columns);
}

/// A mask that marks every row keeps every value.
pub proof fn lemma_keep_all(values: Seq<Cell>, mask: Seq<bool>)
    requires
        values.len() == mask.len(),
        forall|k: int| 0 <= k < mask.len() ==> mask[k],
    ensures
        keep(values, mask) == values,
    decreases values.len(),
{
    if values.len() > 0 {
        lemma_keep_all(values.drop_last(), mask.drop_last());
        assert(values.drop_last().push(values.last()) =~= values);
    } else {
        assert(keep(values, mask) =~= values);
    }
}

/// A mask that marks no row keeps no value.
pub proof fn lemma_keep_none(values: Seq<Cell>, mask: Seq<bool>)
    requires
        values.len() == mask.len(),
        forall|k: int| 0 <= k < mask.len() ==> !mask[k],
    ensures
        keep(values, mask) == Seq::<Cell>::empty(),
    decreases values.len(),
{
    if values.len() > 0 {
        lemma_keep_none(values.drop_last(), mask.drop_last());
    }
}

/// Every value that a mask keeps is a value that it marks, and the values that
/// it marks are kept in their order: the value at a marked row `k` stands in
/// the result at the number of marked rows before `k`.
pub proof fn lemma_keep_marked(values: Seq<Cell>, mask: Seq<bool>, k: int)
    requires
        values.len() == mask.len(),
        0 <= k < mask.len(),
        mask[k],
    ensures
        marked_before(mask, k) < keep(values, mask).len(),
        keep(values, mask)[marked_before(mask, k) as int] == values[k],
    decreases values.len(),
{
    let n = values.len() as int;
    crate::engine::model::lemma_keep_len(values.drop_last(), mask.drop_last());
    if k == n - 1 {
        assert(mask.drop_last() =~= mask.take(k));
    } else {
        lemma_keep_marked(values.drop_last(), mask.drop_last(), k);
        assert(mask.drop_last().take(k) =~= mask.take(k));
    }
}

/// The number of rows before row `k` that a mask marks.
pub open spec fn marked_before(mask: Seq<bool>, k: int) -> nat {
    crate::engine::model::count_true(mask.take(k))
}

/// Filtering cuts every column alike: each keeps the values at the rows that
/// the mask marks, as many as the mask has `true` entries.
pub proof fn lemma_kept_rows(columns: Seq<Seq<Cell>>, mask: Seq<bool>, i: int)
    requires
        0 <= i < columns.len(),
        columns[i].len() == mask.len(),
    ensures
        rows_kept(columns, mask).len() == columns.len(),
        rows_kept(columns, mask)[i] == keep(columns[i], mask),
        rows_kept(columns, mask)[i].len() == crate::engine::model::count_true(mask),
{
    crate::engine::model::lemma_keep_len(columns[i], mask);
}

/// Taking the rows at given row numbers gives, in every column, the values at
/// those rows in the order of the row numbers.
pub proof fn lemma_rows_at(columns: Seq<Seq<Cell>>, rows: Seq<int>, i: int, k: int)
    requires
        0 <= i < columns.len(),
        0 <= k < rows.len(),
    ensures
        rows_at(columns, rows).len() == columns.len(),
        rows_at(columns, rows)[i].len() == rows.len(),
        rows_at(columns, rows)[i][k] == columns[i][rows[k]],
{
}

/// Taking every row number in turn gives the table back.
pub proof fn lemma_take_all_in_turn(columns: Seq<Seq<Cell>>, height: nat)
    requires
        forall|i: int| 0 <= i < columns.len() ==> (#[trigger] columns[i]).len() == height,
    ensures
        is_row_order(Seq::new(height, |k: int| k), height),
        rows_at(columns, Seq::new(height, |k: int| k)) == columns,
{
    let rows = Seq::new(height, |k: int| k);
    assert forall|i: int| 0 <= i < columns.len() implies #[trigger] rows_at(columns, rows)[i]
        == columns[i] by {
        assert(rows_at(columns, rows)[i] =~= columns[i]);
    }
    assert(rows_at(columns, rows) =~= columns);
}

/// Putting rows in another order, as sorting does, loses no row and adds
/// none: every row of the table is a row of the result, and every row of the
/// result is a row of the table.
pub proof fn lemma_reordered_rows(columns: Seq<Seq<Cell>>, order: Seq<int>, height: nat, k: int)
    requires
        is_row_order(order, height),
        0 <= k < height,
    ensures
        exists|j: int| 0 <= j < height && #[trigger] order[j] == k,
        0 <= order[k] < height,
        forall|i: int|
            0 <= i < columns.len() ==> (#[trigger] rows_at(columns, order)[i])[k]
                == columns[i][order[k]],
{
    lemma_order_is_onto(order, height, k);
}

/// A list of `height` distinct row numbers below `height` holds each of them.
proof fn lemma_order_is_onto(order: Seq<int>, height: nat, k: int)
    requires
        is_row_order(order, height),
        0 <= k < height,
    ensures
        exists|j: int| 0 <= j < height && #[trigger] order[j] == k,
{
    if !exists|j: int| 0 <= j < height && #[trigger] order[j] == k {
        // The row numbers listed all lie in the `height - 1` numbers other
        // than `k`, so two of them coincide.
        let listed = order.to_set();
        let below = Set::new(|x: int| 0 <= x < height);
        order.unique_seq_to_set();
        assert(order.no_duplicates());
        assert(listed.len() == height);
        vstd::set_lib::lemma_int_range(0, height as int);
        assert(below =~= vstd::set_lib::set_int_range(0, height as int));
        assert(listed.subset_of(below.remove(k))) by {
            assert forall|x: int| listed.contains(x) implies below.remove(k).contains(x) by {
                let j = choose|j: int| 0 <= j < order.len() && order[j] == x;
                assert(0 <= order[j] < height);
            }
        }
        vstd::set_lib::lemma_len_subset(listed, below.remove(k));
    }
}

/// Of two texts, at most one comes before the other.
pub proof fn lemma_text_before_one_way(a: Seq<char>, b: Seq<char>)
    requires
        text_before(a, b),
    ensures
        !text_before(b, a),
    decreases a.len(),
{
    if a.len() > 0 && b.len() > 0 && a[0] == b[0] {
        lemma_text_before_one_way(a.drop_first(), b.drop_first());
    }
}

/// Of two values, at most one comes before the other.
pub proof fn lemma_value_before_one_way(a: Cell, b: Cell)
    requires
        value_before(a, b),
    ensures
        !value_before(b, a),
{
    match (a, b) {
        (Cell::Text(x), Cell::Text(y)) => {
            lemma_text_before_one_way(x, y);
        },
        _ => {},
    }
}

/// The values of a key are pairwise distinct and all placed by the order that
/// the engine sorts by: of any two, one comes before the other. Such a key
/// holds no missing and no floating-point value.
pub open spec fn keys_all_differ(key: Seq<Cell>) -> bool {
    forall|j: int, k: int|
        0 <= j < key.len() && 0 <= k < key.len() && j != k ==> value_before(
            #[trigger] key[j],
            #[trigger] key[k],
        ) || value_before(key[k], key[j])
}

/// A list of every row number below `height` that falls from entry to entry
/// counts down from the last row.
proof fn lemma_falling_order(order: Seq<int>, height: nat, k: int)
    requires
        is_row_order(order, height),
        forall|i: int, j: int| 0 <= i < j < height ==> order[i] > order[j],
        0 <= k < height,
    ensures
        order[k] == height - 1 - k,
{
    lemma_falling_below(order, height, k);
    lemma_falling_above(order, height, k);
}

proof fn lemma_falling_below(order: Seq<int>, height: nat, k: int)
    requires
        is_row_order(order, height),
        forall|i: int, j: int| 0 <= i < j < height ==> order[i] > order[j],
        0 <= k < height,
    ensures
        order[k] <= height - 1 - k,
    decreases k,
{
    if k > 0 {
        lemma_falling_below(order, height, k - 1);
        assert(order[k - 1] > order[k]);
    }
}

proof fn lemma_falling_above(order: Seq<int>, height: nat, k: int)
    requires
        is_row_order(order, height),
        forall|i: int, j: int| 0 <= i < j < height ==> order[i] > order[j],
        0 <= k < height,
    ensures
        order[k] >= height - 1 - k,
    decreases height - k,
{
    if k < height - 1 {
        lemma_falling_above(order, height, k + 1);
        assert(order[k] > order[k + 1]);
    }
}

/// A list of every row number below `height` that rises from entry to entry
/// counts up from the first row.
proof fn lemma_rising_order(order: Seq<int>, height: nat, k: int)
    requires
        is_row_order(order, height),
        forall|i: int, j: int| 0 <= i < j < height ==> order[i] < order[j],
        0 <= k < height,
    ensures
        order[k] == k,
{
    lemma_rising_above(order, height, k);
    lemma_rising_below(order, height, k);
}

proof fn lemma_rising_above(order: Seq<int>, height: nat, k: int)
    requires
        is_row_order(order, height),
        forall|i: int, j: int| 0 <= i < j < height ==> order[i] < order[j],
        0 <= k < height,
    ensures
        order[k] >= k,
    decreases k,
{
    if k > 0 {
        lemma_rising_above(order, height, k - 1);
        assert(order[k - 1] < order[k]);
    }
}

proof fn lemma_rising_below(order: Seq<int>, height: nat, k: int)
    requires
        is_row_order(order, height),
        forall|i: int, j: int| 0 <= i < j < height ==> order[i] < order[j],
        0 <= k < height,
    ensures
        order[k] <= k,
    decreases height - k,
{
    if k < height - 1 {
        lemma_rising_below(order, height, k + 1);
        assert(order[k] < order[k + 1]);
    }
}

/// Sorting again in the opposite direction turns the rows round. Where the
/// values of the key all differ and stand in one direction, and the rows are
/// put in an order in which the key stands in the other direction, that order
/// is the reverse: row `k` of the result is row `height - 1 - k` of the table,
/// in every column.
pub proof fn lemma_opposite_sort_reverses(
    table: Seq<Seq<Cell>>,
    key: int,
    order: Seq<int>,
    height: nat,
    descending: bool,
)
    requires
        0 <= key < table.len(),
        table[key].len() == height,
        keys_all_differ(table[key]),
        in_key_order(table[key], descending),
        is_row_order(order, height),
        in_key_order(rows_at(table, order)[key], !descending),
    ensures
        forall|k: int| 0 <= k < height ==> #[trigger] order[k] == height - 1 - k,
        forall|i: int, k: int|
            0 <= i < table.len() && 0 <= k < height ==> #[trigger] rows_at(table, order)[i][k]
                == table[i][height - 1 - k],
{
    let was = table[key];
    let now = rows_at(table, order)[key];
    assert forall|i: int, j: int| 0 <= i < j < height implies order[i] > order[j] by {
        assert(now[i] == was[order[i]]);
        assert(now[j] == was[order[j]]);
        let a = order[i];
        let b = order[j];
        assert(a != b);
        if a < b {
            // `was` stands one way, so `was[a]` and `was[b]` are placed that
            // way; `now` stands the other way, so they are placed this way.
            if descending {
                assert(!value_before(was[a], was[b]));
                assert(!value_before(now[j], now[i]));
            } else {
                assert(!value_before(was[b], was[a]));
                assert(!value_before(now[i], now[j]));
            }
            assert(value_before(was[a], was[b]) || value_before(was[b], was[a]));
            assert(false);
        }
    }
    assert forall|k: int| 0 <= k < height implies #[trigger] order[k] == height - 1 - k by {
        lemma_falling_order(order, height, k);
    }
}

/// Sorting a table that is in order already changes nothing. Where the
/// values of the key all differ and stand in one direction, and the rows are
/// put in an order in which the key stands in that direction, every row stays
/// where it is.
pub proof fn lemma_sorted_table_stays(
    table: Seq<Seq<Cell>>,
    key: int,
    order: Seq<int>,
    height: nat,
    descending: bool,
)
    requires
        0 <= key < table.len(),
        forall|i: int| 0 <= i < table.len() ==> (#[trigger] table[i]).len() == height,
        keys_all_differ(table[key]),
        in_key_order(table[key], descending),
        is_row_order(order, height),
        in_key_order(rows_at(table, order)[key], descending),
    ensures
        forall|k: int| 0 <= k < height ==> #[trigger] order[k] == k,
        rows_at(table, order) == table,
{
    let was = table[key];
    let now = rows_at(table, order)[key];
    assert forall|i: int, j: int| 0 <= i < j < height implies order[i] < order[j] by {
        assert(now[i] == was[order[i]]);
        assert(now[j] == was[order[j]]);
        let a = order[i];
        let b = order[j];
        assert(a != b);
        if a > b {
            if descending {
                assert(!value_before(was[b], was[a]));
                assert(!value_before(now[i], now[j]));
            } else {
                assert(!value_before(was[a], was[b]));
                assert(!value_before(now[j], now[i]));
            }
            assert(value_before(was[a], was[b]) || value_before(was[b], was[a]));
            assert(false);
        }
    }
    assert forall|k: int| 0 <= k < height implies #[trigger] order[k] == k by {
        lemma_rising_order(order, height, k);
    }
    assert forall|i: int| 0 <= i < table.len() implies #[trigger] rows_at(table, order)[i]
        == table[i] by {
        assert(rows_at(table, order)[i] =~= table[i]);
    }
    assert(rows_at(table, order) =~= table);
}

/// In a key that is in order and whose values all differ, each value stands
/// strictly between its neighbours: ascending, the earlier of two values is
/// the one that comes before; descending, the later.
pub proof fn lemma_ordered_key_is_strict(key: Seq<Cell>, descending: bool, j: int, k: int)
    requires
        keys_all_differ(key),
        in_key_order(key, descending),
        0 <= j < k < key.len(),
    ensures
        descending ==> value_before(key[k], key[j]),
        !descending ==> value_before(key[j], key[k]),
{
    assert(value_before(key[j], key[k]) || value_before(key[k], key[j]));
    if descending {
        assert(!value_before(key[j], key[k]));
    } else {
        assert(!value_before(key[k], key[j]));
    }
}

/// Putting rows in another order keeps the values of a key pairwise distinct.
pub proof fn lemma_reordered_keys_differ(
    table: Seq<Seq<Cell>>,
    key: int,
    order: Seq<int>,
    height: nat,
)
    requires
        0 <= key < table.len(),
        table[key].len() == height,
        keys_all_differ(table[key]),
        is_row_order(order, height),
    ensures
        rows_at(table, order)[key].len() == height,
        keys_all_differ(rows_at(table, order)[key]),
{
    let was = table[key];
    let now = rows_at(table, order)[key];
    assert forall|j: int, k: int|
        0 <= j < now.len() && 0 <= k < now.len() && j != k implies value_before(
        #[trigger] now[j],
        #[trigger] now[k],
    ) || value_before(now[k], now[j]) by {
        assert(now[j] == was[order[j]]);
        assert(now[k] == was[order[k]]);
        if j < k {
            assert(order[j] != order[k]);
        } else {
            assert(order[k] != order[j]);
        }
        assert(value_before(was[order[j]], was[order[k]]) || value_before(
            was[order[k]],
            was[order[j]],
        ));
    }
}

/// Where the values of the key all differ, the sorted table is one table and
/// no other: two orders of the rows that both put the key in the direction
/// asked for are the same order.
pub proof fn lemma_sort_is_determined(
    table: Seq<Seq<Cell>>,
    key: int,
    one: Seq<int>,
    other: Seq<int>,
    height: nat,
    descending: bool,
)
    requires
        0 <= key < table.len(),
        table[key].len() == height,
        keys_all_differ(table[key]),
        is_row_order(one, height),
        is_row_order(other, height),
        in_key_order(rows_at(table, one)[key], descending),
        in_key_order(rows_at(table, other)[key], descending),
    ensures
        one == other,
        rows_at(table, one) == rows_at(table, other),
{
    let was = table[key];
    let a = rows_at(table, one)[key];
    let b = rows_at(table, other)[key];
    lemma_reordered_keys_differ(table, key, one, height);
    lemma_reordered_keys_differ(table, key, other, height);
    // Where each row of `other` stands in `one`.
    let back = Seq::new(height, |k: int| choose|j: int| 0 <= j < height && one[j] == other[k]);
    assert forall|k: int| 0 <= k < height implies 0 <= #[trigger] back[k] < height && one[back[k]]
        == other[k] by {
        lemma_order_is_onto(one, height, other[k]);
    }
    assert forall|j: int, k: int| 0 <= j < k < height implies back[j] != back[k] by {
        if back[j] == back[k] {
            assert(one[back[j]] == other[j]);
            assert(one[back[k]] == other[k]);
            assert(other[j] != other[k]);
        }
    }
    assert(is_row_order(back, height));
    // `b` is `a` with its rows in the order `back`, and both are in order.
    let single = seq![a];
    assert(rows_at(single, back)[0] =~= b) by {
        assert forall|k: int| 0 <= k < height implies rows_at(single, back)[0][k] == b[k] by {
            assert(a[back[k]] == was[one[back[k]]]);
            assert(b[k] == was[other[k]]);
        }
    }
    lemma_sorted_table_stays(single, 0, back, height, descending);
    assert forall|k: int| 0 <= k < height implies one[k] == other[k] by {
        assert(back[k] == k);
    }
    assert(one =~= other);
}

} // verus!
