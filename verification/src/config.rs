//! Mapping metadata supplied by the configuration layer.
//!
//! A mapping describes how a graph concept's identity and properties
//! correspond to columns of a relational schema. Catalogs store and return
//! these values unchanged; this layer never interprets their contents.

use vstd::prelude::*;

verus! {

/// How a node label's identity corresponds to the columns of its source.
#[derive(Clone, Debug, PartialEq, Eq)]
pub struct NodeMapping {
    /// The node label the mapping applies to.
    pub label: String,
    /// The column holding the node identity.
    pub id_column: String,
}

/// How a relationship type's endpoints correspond to the columns of its
/// source.
#[derive(Clone, Debug, PartialEq, Eq)]
pub struct RelationshipMapping {
    /// The relationship type the mapping applies to.
    pub rel_type: String,
    /// The column holding the source-node identity.
    pub source_id_column: String,
    /// The column holding the target-node identity.
    pub target_id_column: String,
}

} // verus!
