//! Schema resolution for compiling graph patterns into relational query plans.
//!
//! Before a graph query can be translated into relational operators, every
//! node label and relationship type it mentions must be resolved to a
//! schema-bearing table source. The [`catalog::GraphSourceCatalog`] capability
//! is the seam between the planner and any metadata store; the
//! [`catalog::InMemoryCatalog`] is a registry-backed reference implementation
//! for tests and bootstrap wiring, and [`source::SimpleTableSource`] is a
//! trivial fixed-schema source for constructing fixtures.

pub mod catalog;
pub mod config;
pub mod schema;
pub mod source;
