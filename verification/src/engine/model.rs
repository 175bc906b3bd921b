//! The mathematical picture of a table that the contracts are written over: a
//! sequence of named, typed columns, a row count, and the values of each
//! column from the first row to the last.

use vstd::prelude::*;
use crate::dtype::RuntimeType;

verus! {

/// One column of a table as contracts see it: its name and its run-time kind.
pub struct ColumnSig {
    pub name: Seq<char>,
    pub kind: RuntimeType,
}

/// One value of a column as contracts see it. Integers of every width stand
/// as their mathematical value, text as its characters, and a floating-point
/// value as the integer that its bit pattern spells; values of the data types
/// that no schema can declare all stand as `Other`.
pub enum Cell {
    Null,
    Int(int),
    Bool(bool),
    Text(Seq<char>),
    Float(int),
    Other,
}

/// The engine's note on a column that its values are in order. The engine
/// sets the note when it sorts, lets callers set it, and trusts it.
#[derive(Clone, Copy, Debug, PartialEq, Eq, Structural)]
pub enum SortMark {
    Unmarked,
    Ascending,
    Descending,
}

/// One text comes before another: at the first place where they differ, its
/// character has the smaller code point, or it ends there and the other goes on.
pub open spec fn text_before(a: Seq<char>, b: Seq<char>) -> bool
    decreases a.len(),
{
    if b.len() == 0 {
        false
    } else if a.len() == 0 {
        true
    } else if a[0] != b[0] {
        (a[0] as u32) < (b[0] as u32)
    } else {
        text_before(a.drop_first(), b.drop_first())
    }
}

/// One value comes before another in the order that the engine sorts by:
/// integers by value, `false` before `true`, text as `text_before` says.
/// Missing values, floating-point values and values of other types are not
/// placed by this order.
pub open spec fn value_before(a: Cell, b: Cell) -> bool {
    match (a, b) {
        (Cell::Int(x), Cell::Int(y)) => x < y,
        (Cell::Bool(x), Cell::Bool(y)) => !x && y,
        (Cell::Text(x), Cell::Text(y)) => text_before(x, y),
        _ => false,
    }
}

/// The values of a key stand in order: ascending, no value comes before one
/// that stands earlier; descending, no value comes before one that stands
/// later.
pub open spec fn in_key_order(key: Seq<Cell>, descending: bool) -> bool {
    forall|j: int, k: int|
        0 <= j < k < key.len() ==> if descending {
            !value_before(#[trigger] key[j], #[trigger] key[k])
        } else {
            !value_before(key[k], key[j])
        }
}

/// The missing values of a key stand together, before all others or after
/// all others.
pub open spec fn nulls_at_an_end(key: Seq<Cell>) -> bool {
    ||| forall|j: int, k: int|
        0 <= j < k < key.len() && (#[trigger] key[k]) is Null ==> (#[trigger] key[j]) is Null
    ||| forall|j: int, k: int|
        0 <= j < k < key.len() && (#[trigger] key[j]) is Null ==> (#[trigger] key[k]) is Null
}

/// What a sort mark says of a key is so: a marked key has its missing values
/// together at one end and its values in the order of the mark.
pub open spec fn mark_holds(key: Seq<Cell>, mark: SortMark) -> bool {
    match mark {
        SortMark::Unmarked => true,
        SortMark::Ascending => nulls_at_an_end(key) && in_key_order(key, false),
        SortMark::Descending => nulls_at_an_end(key) && in_key_order(key, true),
    }
}

/// The engine counts the values of one column in 32 bits and keeps the
/// largest count for its own use: a column that stands in memory has fewer
/// values than this.
pub const MAX_COLUMN_LEN: u32 = 0xffff_ffff;

/// The engine holds the length of one text value, in bytes of its UTF-8
/// form, in 32 bits.
pub const MAX_TEXT_BYTES: u32 = 0xffff_ffff;

/// Whether a text value is short enough for the engine.
pub open spec fn text_fits(text: Seq<char>) -> bool {
    vstd::utf8::encode_utf8(text).len() <= MAX_TEXT_BYTES
}

/// Whether some column of `table` is called `name`.
pub open spec fn has_column(table: Seq<ColumnSig>, name: Seq<char>) -> bool {
    exists|i: int| 0 <= i < table.len() && (#[trigger] table[i]).name == name
}

/// The position of a column called `name`; meaningful where `has_column` holds,
/// and the only such position where the names of `table` are distinct.
pub open spec fn column_index(table: Seq<ColumnSig>, name: Seq<char>) -> int {
    choose|i: int| 0 <= i < table.len() && (#[trigger] table[i]).name == name
}

/// The run-time kind of the column called `name`, or `None` where the table has
/// no such column.
pub open spec fn lookup(table: Seq<ColumnSig>, name: Seq<char>) -> Option<RuntimeType> {
    if has_column(table, name) {
        Some(table[column_index(table, name)].kind)
    } else {
        None
    }
}

/// No two columns of `table` share a name.
pub open spec fn names_distinct(table: Seq<ColumnSig>) -> bool {
    forall|i: int, j: int|
        0 <= i < table.len() && 0 <= j < table.len() && i != j
            ==> (#[trigger] table[i]).name != (#[trigger] table[j]).name
}

/// In a table with distinct names, a column is found at the position where it stands.
pub proof fn lemma_lookup_at(table: Seq<ColumnSig>, i: int)
    requires
        names_distinct(table),
        0 <= i < table.len(),
    ensures
        has_column(table, table[i].name),
        column_index(table, table[i].name) == i,
        lookup(table, table[i].name) == Some(table[i].kind),
{
    let name = table[i].name;
    assert(0 <= i < table.len() && table[i].name == name);
    let j = column_index(table, name);
    assert(0 <= j < table.len() && table[j].name == name);
    if j != i {
        assert(table[i].name != table[j].name);
    }
}

/// A table as contracts see it.
pub struct TableView {
    /// The columns in their order, each with its name and its run-time kind.
    pub fields: Seq<ColumnSig>,
    /// The number of rows.
    pub height: nat,
    /// The values, column by column in the order of `fields`, each column from
    /// the first row to the last.
    pub values: Seq<Seq<Cell>>,
    /// The sort marks, column by column in the order of `fields`.
    pub marks: Seq<SortMark>,
    /// The engine's own names of the columns' data types, column by column
    /// in the order of `fields`.
    pub type_texts: Seq<Seq<char>>,
}

impl TableView {
    /// Whether the table has a column called `name`.
    pub open spec fn has(self, name: Seq<char>) -> bool {
        has_column(self.fields, name)
    }

    /// The run-time kind of the column called `name`, if there is one.
    pub open spec fn kind_of(self, name: Seq<char>) -> Option<RuntimeType> {
        lookup(self.fields, name)
    }

    /// The values of the column called `name`.
    pub open spec fn values_of(self, name: Seq<char>) -> Seq<Cell> {
        self.values[column_index(self.fields, name)]
    }

    /// The engine's own name of the data type of the column called `name`.
    pub open spec fn type_text_of(self, name: Seq<char>) -> Seq<char> {
        self.type_texts[column_index(self.fields, name)]
    }

    /// The sort mark of the column called `name`.
    pub open spec fn mark_of(self, name: Seq<char>) -> SortMark {
        self.marks[column_index(self.fields, name)]
    }

    /// What the sort mark of the column called `name` says of it is so.
    pub open spec fn mark_is_true(self, name: Seq<char>) -> bool {
        mark_holds(self.values_of(name), self.mark_of(name))
    }
}

/// A column on its own as contracts see it.
pub struct ColumnView {
    pub name: Seq<char>,
    pub kind: RuntimeType,
    /// The engine's own name of the column's data type.
    pub type_text: Seq<char>,
    /// The values, from the first to the last.
    pub values: Seq<Cell>,
}

/// The number of `true` entries of a mask.
pub open spec fn count_true(mask: Seq<bool>) -> nat
    decreases mask.len(),
{
    if mask.len() == 0 {
        0
    } else {
        count_true(mask.drop_last()) + if mask.last() {
            1nat
        } else {
            0nat
        }
    }
}

/// The values that a mask marks `true`, in their order. The mask has one entry
/// for each value.
pub open spec fn keep<A>(values: Seq<A>, mask: Seq<bool>) -> Seq<A>
    decreases values.len(),
{
    if values.len() == 0 || mask.len() == 0 {
        Seq::empty()
    } else if mask.last() {
        keep(values.drop_last(), mask.drop_last()).push(values.last())
    } else {
        keep(values.drop_last(), mask.drop_last())
    }
}

/// As many values are kept as the mask has `true` entries.
pub proof fn lemma_keep_len<A>(values: Seq<A>, mask: Seq<bool>)
    requires
        values.len() == mask.len(),
    ensures
        keep(values, mask).len() == count_true(mask),
    decreases values.len(),
{
    if values.len() > 0 {
        lemma_keep_len(values.drop_last(), mask.drop_last());
    }
}

/// The rows of every column from row `start` on, `len` of them.
pub open spec fn rows_window(columns: Seq<Seq<Cell>>, start: int, len: int) -> Seq<Seq<Cell>> {
    Seq::new(columns.len(), |i: int| columns[i].subrange(start, start + len))
}

/// The rows of every column that a mask marks `true`.
pub open spec fn rows_kept(columns: Seq<Seq<Cell>>, mask: Seq<bool>) -> Seq<Seq<Cell>> {
    Seq::new(columns.len(), |i: int| keep(columns[i], mask))
}

/// The rows of every column at the given row numbers, one for each and in
/// their order.
pub open spec fn rows_at(columns: Seq<Seq<Cell>>, rows: Seq<int>) -> Seq<Seq<Cell>> {
    Seq::new(columns.len(), |i: int| Seq::new(rows.len(), |k: int| columns[i][rows[k]]))
}

/// The rows of every column at the given row numbers, one for each and in
/// their order; where a row number is missing, a row of missing values.
pub open spec fn rows_at_or_null(columns: Seq<Seq<Cell>>, rows: Seq<Option<int>>) -> Seq<
    Seq<Cell>,
> {
    Seq::new(
        columns.len(),
        |i: int|
            Seq::new(
                rows.len(),
                |k: int|
                    match rows[k] {
                        Some(row) => columns[i][row],
                        None => Cell::Null,
                    },
            ),
    )
}

/// `order` lists every row number below `height` exactly once.
pub open spec fn is_row_order(order: Seq<int>, height: nat) -> bool {
    &&& order.len() == height
    &&& forall|k: int| 0 <= k < order.len() ==> 0 <= #[trigger] order[k] < height
    &&& forall|j: int, k: int| 0 <= j < k < order.len() ==> order[j] != order[k]
}

/// `x` held between `lo` and `hi`.
pub open spec fn clamp(x: int, lo: int, hi: int) -> int {
    if x < lo {
        lo
    } else if x > hi {
        hi
    } else {
        x
    }
}

/// The first row of the window that `offset` asks for in a table of `height`
/// rows: `offset` itself, or `height + offset` where it is negative, held
/// within the table.
pub open spec fn slice_start(offset: int, height: int) -> int {
    clamp(if offset < 0 { offset + height } else { offset }, 0, height)
}

/// The number of rows in the window of `length` rows at `offset`, as far as a
/// table of `height` rows has them.
pub open spec fn slice_rows(offset: int, length: int, height: int) -> int {
    clamp((if offset < 0 { offset + height } else { offset }) + length, 0, height) - slice_start(
        offset,
        height,
    )
}

} // verus!
