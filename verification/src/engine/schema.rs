//! What the library believes of a polars `Schema`, the engine's own
//! description of a table's columns.

use vstd::prelude::*;
use polars::prelude::DataType;
use polars_schema::Schema as EngineSchema;
use crate::engine::model::{column_index, has_column, ColumnSig};
use crate::engine::types::dtype_kind;

verus! {

/// The entries of an engine schema in their order, each with its name and the
/// kind of its data type.
pub uninterp spec fn schema_fields(s: EngineSchema<DataType>) -> Seq<ColumnSig>;

/// Calls `Schema::with_capacity`, which makes a schema without entries.
#[verifier::external_body]
pub(crate) fn schema_with_capacity(capacity: usize) -> (s: EngineSchema<DataType>)
    ensures
        schema_fields(s) == Seq::<ColumnSig>::empty(),
{
    EngineSchema::with_capacity(capacity)
}

/// Calls `Schema::with_column`: a name that the schema does not hold yet is
/// added behind the last entry; for a name that it holds, the entry stays in
/// its place and takes the new data type.
#[verifier::external_body]
pub(crate) fn schema_with_column(s: &mut EngineSchema<DataType>, name: &str, dt: DataType)
    ensures
        !has_column(schema_fields(*old(s)), name@) ==> schema_fields(*final(s)) == schema_fields(
            *old(s),
        ).push(ColumnSig { name: name@, kind: dtype_kind(dt) }),
        has_column(schema_fields(*old(s)), name@) ==> schema_fields(*final(s)) == schema_fields(
            *old(s),
        ).update(
            column_index(schema_fields(*old(s)), name@),
            ColumnSig { name: name@, kind: dtype_kind(dt) },
        ),
{
    s.with_column(name.into(), dt);
}

} // verus!
