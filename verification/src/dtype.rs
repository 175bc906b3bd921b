//! The closed set of value kinds a declared column may have, and the kind of a
//! column as the engine reports it at run time.

use vstd::prelude::*;

verus! {

/// The kind of value a declared column holds. Every schema is written in terms
/// of these twelve tags; each stands for exactly one data type of the engine.
#[derive(Clone, Copy, Debug, PartialEq, Eq, Hash, Structural)]
pub enum LogicalType {
    Int8,
    Int16,
    Int32,
    Int64,
    UInt8,
    UInt16,
    UInt32,
    UInt64,
    Float32,
    Float64,
    Boolean,
    Text,
}

/// The kind of a column found in a table at run time: one of the twelve
/// logical types, or some other data type of the engine that no schema can
/// declare (dates, lists, ...).
#[derive(Clone, Copy, Debug, PartialEq, Eq, Hash, Structural)]
pub enum RuntimeType {
    Known(LogicalType),
    Other,
}

impl LogicalType {
    /// The name under which the engine prints the data type of this tag.
    pub open spec fn spec_name(self) -> Seq<char> {
        match self {
            LogicalType::Int8 => "Int8"@,
            LogicalType::Int16 => "Int16"@,
            LogicalType::Int32 => "Int32"@,
            LogicalType::Int64 => "Int64"@,
            LogicalType::UInt8 => "UInt8"@,
            LogicalType::UInt16 => "UInt16"@,
            LogicalType::UInt32 => "UInt32"@,
            LogicalType::UInt64 => "UInt64"@,
            LogicalType::Float32 => "Float32"@,
            LogicalType::Float64 => "Float64"@,
            LogicalType::Boolean => "Boolean"@,
            LogicalType::Text => "String"@,
        }
    }

    /// The name under which the engine prints the data type of this tag.
    pub fn name(self) -> (s: &'static str)
        ensures
            s@ == self.spec_name(),
    {
        match self {
            LogicalType::Int8 => "Int8",
            LogicalType::Int16 => "Int16",
            LogicalType::Int32 => "Int32",
            LogicalType::Int64 => "Int64",
            LogicalType::UInt8 => "UInt8",
            LogicalType::UInt16 => "UInt16",
            LogicalType::UInt32 => "UInt32",
            LogicalType::UInt64 => "UInt64",
            LogicalType::Float32 => "Float32",
            LogicalType::Float64 => "Float64",
            LogicalType::Boolean => "Boolean",
            LogicalType::Text => "String",
        }
    }
}

} // verus!
