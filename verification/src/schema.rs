//! Plain-value description of a relational column schema.
//!
//! A resolved table source reports an ordered sequence of named, typed
//! columns. The schema is held as plain values so that contracts can speak
//! about its exact contents.

use vstd::prelude::*;

verus! {

/// The data type of a single relational column.
#[derive(Clone, Copy, Debug, PartialEq, Eq)]
pub enum ColumnType {
    Boolean,
    Int32,
    Int64,
    Utf8,
    Date32,
    Binary,
}

/// Specification-level value of a column: its name as a character sequence,
/// its data type and its nullability.
pub struct ColumnView {
    pub name: Seq<char>,
    pub column_type: ColumnType,
    pub nullable: bool,
}

/// A named, typed column of a relational schema.
#[derive(Clone, Debug, PartialEq, Eq)]
pub struct Column {
    pub name: String,
    pub column_type: ColumnType,
    pub nullable: bool,
}

impl View for Column {
    type V = ColumnView;

    open spec fn view(&self) -> ColumnView {
        ColumnView { name: self.name@, column_type: self.column_type, nullable: self.nullable }
    }
}

/// An ordered sequence of named, typed columns.
#[derive(Clone, Debug, PartialEq, Eq)]
pub struct GraphSchema {
    columns: Vec<Column>,
}

impl View for GraphSchema {
    type V = Seq<ColumnView>;

    closed spec fn view(&self) -> Seq<ColumnView> {
        self.columns@.map_values(|c: Column| c@)
    }
}

impl GraphSchema {
    /// A schema made of the given columns, in order.
    pub fn new(columns: Vec<Column>) -> (r: Self)
        ensures
            r@ == columns@.map_values(|c: Column| c@),
    {
        GraphSchema { columns }
    }

    /// The schema with no columns.
    pub fn empty() -> (r: Self)
        ensures
            r@ == Seq::<ColumnView>::empty(),
    {
        let columns: Vec<Column> = Vec::new();
        proof {
            assert(columns@.map_values(|c: Column| c@) =~= Seq::<ColumnView>::empty());
        }
        GraphSchema { columns }
    }

    /// The number of columns.
    pub fn len(&self) -> (n: usize)
        ensures
            n == self@.len(),
    {
        self.columns.len()
    }

    /// The column at position `i`.
    pub fn column(&self, i: usize) -> (c: &Column)
        requires
            i < self@.len(),
        ensures
            c@ == self@[i as int],
    {
        &self.columns[i]
    }
}

} // verus!
