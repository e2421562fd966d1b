//! The column type descriptor: the declared database type of a cell.

use vstd::prelude::*;

verus! {

/// The declared CQL type of a column, as reported by the server's result
/// metadata. Borrowed for the duration of a `type_check` or `decode` call and
/// never mutated by this crate.
#[derive(Debug, Clone, Copy, PartialEq, Eq, Structural, Hash)]
pub enum ColumnType {
    Ascii,
    Boolean,
    Blob,
    Counter,
    Decimal,
    Double,
    Float,
    Int,
    BigInt,
    Text,
    SmallInt,
    TinyInt,
    Varint,
}

impl ColumnType {
    /// The type's name as written in CQL metadata debugging output.
    pub fn name(&self) -> (r: &'static str)
        ensures
            r@ == self.spec_name(),
    {
        proof {
            reveal_strlit("Ascii");
            reveal_strlit("Boolean");
            reveal_strlit("Blob");
            reveal_strlit("Counter");
            reveal_strlit("Decimal");
            reveal_strlit("Double");
            reveal_strlit("Float");
            reveal_strlit("Int");
            reveal_strlit("BigInt");
            reveal_strlit("Text");
            reveal_strlit("SmallInt");
            reveal_strlit("TinyInt");
            reveal_strlit("Varint");
        }
        match self {
            ColumnType::Ascii => "Ascii",
            ColumnType::Boolean => "Boolean",
            ColumnType::Blob => "Blob",
            ColumnType::Counter => "Counter",
            ColumnType::Decimal => "Decimal",
            ColumnType::Double => "Double",
            ColumnType::Float => "Float",
            ColumnType::Int => "Int",
            ColumnType::BigInt => "BigInt",
            ColumnType::Text => "Text",
            ColumnType::SmallInt => "SmallInt",
            ColumnType::TinyInt => "TinyInt",
            ColumnType::Varint => "Varint",
        }
    }

    pub open spec fn spec_name(self) -> Seq<char> {
        match self {
            ColumnType::Ascii => "Ascii"@,
            ColumnType::Boolean => "Boolean"@,
            ColumnType::Blob => "Blob"@,
            ColumnType::Counter => "Counter"@,
            ColumnType::Decimal => "Decimal"@,
            ColumnType::Double => "Double"@,
            ColumnType::Float => "Float"@,
            ColumnType::Int => "Int"@,
            ColumnType::BigInt => "BigInt"@,
            ColumnType::Text => "Text"@,
            ColumnType::SmallInt => "SmallInt"@,
            ColumnType::TinyInt => "TinyInt"@,
            ColumnType::Varint => "Varint"@,
        }
    }
}

} // verus!
