//! Schema-bearing table sources.
//!
//! A table source is an opaque, shareable, immutable handle that can report
//! the relational schema of the data it stands for. [`SchemaSource`] is the
//! capability any such handle offers; [`SimpleTableSource`] is a trivial
//! fixed-schema implementation used to construct fixtures without a real
//! storage backend.

use vstd::prelude::*;

use crate::schema::{ColumnView, GraphSchema};

verus! {

/// The capability of reporting a relational schema on demand.
///
/// Implementations must be immutable after construction and safe to share
/// across threads; every call to [`SchemaSource::schema`] reports the same
/// schema, described by the spec function [`SchemaSource::schema_view`].
pub trait SchemaSource: Send + Sync {
    /// The schema this source reports, at specification level.
    spec fn schema_view(&self) -> Seq<ColumnView>;

    /// Report the schema of this source.
    fn schema(&self) -> (s: &GraphSchema)
        ensures
            s@ == self.schema_view(),
    ;
}

/// A trivial table source with a fixed schema.
pub struct SimpleTableSource {
    schema: GraphSchema,
}

impl SimpleTableSource {
    /// A source reporting exactly the given schema.
    pub fn new(schema: GraphSchema) -> (r: Self)
        ensures
            r.schema_view() == schema@,
    {
        SimpleTableSource { schema }
    }

    /// A source whose schema has zero columns.
    pub fn empty() -> (r: Self)
        ensures
            r.schema_view() == Seq::<ColumnView>::empty(),
    {
        SimpleTableSource { schema: GraphSchema::empty() }
    }
}

impl SchemaSource for SimpleTableSource {
    closed spec fn schema_view(&self) -> Seq<ColumnView> {
        self.schema@
    }

    fn schema(&self) -> (s: &GraphSchema) {
        &self.schema
    }
}

} // verus!
