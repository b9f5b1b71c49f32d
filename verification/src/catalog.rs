//! The catalog capability and its in-memory reference implementation.
//!
//! A planner holds any object implementing [`GraphSourceCatalog`] and asks it
//! to resolve each node label and relationship type of a graph pattern to a
//! schema-bearing table source. Resolution is read-only: absence is a normal
//! return value, never an error. [`InMemoryCatalog`] is a registry-backed
//! implementation for tests and simple single-process deployments.

use std::sync::Arc;

use vstd::prelude::*;

use crate::config::{NodeMapping, RelationshipMapping};
use crate::source::SchemaSource;

verus! {

/// The capability a graph-query planner needs from any metadata source.
///
/// The two resolution operations are mandatory; the two mapping operations
/// default to absence, signaling that the configuration layer, not the
/// catalog, is authoritative for mapping metadata. Implementations must be
/// safe to share and call from multiple threads without external locking,
/// which the `Send + Sync` bounds demand of every implementation.
pub trait GraphSourceCatalog: Send + Sync {
    /// The schema-bearing handle type this catalog hands out.
    type Source: SchemaSource;

    /// The label-to-source associations of this catalog, at specification
    /// level.
    spec fn node_sources(&self) -> Map<Seq<char>, Arc<Self::Source>>;

    /// The relationship-type-to-source associations of this catalog, at
    /// specification level.
    spec fn relationship_sources(&self) -> Map<Seq<char>, Arc<Self::Source>>;

    /// Resolve the table source registered for a node label, or absence if
    /// the label is unknown.
    fn node_source(&self, label: &str) -> (r: Option<Arc<Self::Source>>)
        ensures
            match r {
                Some(h) => self.node_sources().contains_key(label@)
                    && h == self.node_sources()[label@],
                None => !self.node_sources().contains_key(label@),
            },
    ;

    /// Resolve the table source registered for a relationship type, or
    /// absence if the type is unknown.
    fn relationship_source(&self, rel_type: &str) -> (r: Option<Arc<Self::Source>>)
        ensures
            match r {
                Some(h) => self.relationship_sources().contains_key(rel_type@)
                    && h == self.relationship_sources()[rel_type@],
                None => !self.relationship_sources().contains_key(rel_type@),
            },
    ;

    /// The node mapping for a label.
    ///
    /// By default a catalog supplies no mapping: the configuration layer is
    /// authoritative. Override to serve node mappings from the catalog.
    fn get_node_mapping(&self, _label: &str) -> (r: Option<NodeMapping>)
        default_ensures
            r is None,
    {
        None
    }

    /// The relationship mapping for a relationship type.
    ///
    /// By default a catalog supplies no mapping: the configuration layer is
    /// authoritative. Override to serve relationship mappings from the
    /// catalog.
    fn get_relationship_mapping(&self, _rel_type: &str) -> (r: Option<RelationshipMapping>)
        default_ensures
            r is None,
    {
        None
    }
}

/// One name-to-source association held by [`InMemoryCatalog`].
struct Entry<S> {
    name: String,
    source: Arc<S>,
}

/// The associations a sequence of entries denotes: later entries replace
/// earlier ones with the same name.
spec fn entries_map<S>(entries: Seq<Entry<S>>) -> Map<Seq<char>, Arc<S>>
    decreases entries.len(),
{
    if entries.len() == 0 {
        Map::empty()
    } else {
        entries_map(entries.drop_last()).insert(entries.last().name@, entries.last().source)
    }
}

/// Relies on `Arc::clone`: the returned handle shares the same underlying
/// value as the argument.
#[verifier::external_body]
fn share<S>(source: &Arc<S>) -> (r: Arc<S>)
    ensures
        r == *source,
{
    Arc::clone(source)
}

/// Entries at positions `i` and beyond never carry `key`, so dropping them
/// leaves the association for `key` unchanged.
proof fn lemma_entries_map_take_lookup<S>(entries: Seq<Entry<S>>, i: int, key: Seq<char>)
    requires
        0 <= i <= entries.len(),
        forall|j: int| i <= j < entries.len() ==> entries[j].name@ != key,
    ensures
        entries_map(entries).contains_key(key) == entries_map(entries.take(i)).contains_key(key),
        entries_map(entries).contains_key(key) ==> entries_map(entries)[key] == entries_map(
            entries.take(i),
        )[key],
    decreases entries.len() - i,
{
    if i == entries.len() {
        assert(entries.take(i) =~= entries);
    } else {
        lemma_entries_map_take_lookup(entries, i + 1, key);
        assert(entries.take(i + 1).drop_last() =~= entries.take(i));
        assert(entries.take(i + 1).last() == entries[i]);
    }
}

/// A simple in-memory catalog useful for tests and bootstrap wiring.
///
/// Holds two independent associations — node label to source and
/// relationship type to source — keyed by exact string equality. Both start
/// empty and are populated by chained builder registrations; registering a
/// key twice silently replaces the prior source (last write wins). Once
/// handed to a planner the catalog is read-only.
pub struct InMemoryCatalog<S: SchemaSource> {
    node_entries: Vec<Entry<S>>,
    rel_entries: Vec<Entry<S>>,
}

impl<S: SchemaSource> InMemoryCatalog<S> {
    /// An empty catalog: every resolution returns absence.
    pub fn new() -> (r: Self)
        ensures
            r.node_sources() == Map::<Seq<char>, Arc<S>>::empty(),
            r.relationship_sources() == Map::<Seq<char>, Arc<S>>::empty(),
    {
        InMemoryCatalog { node_entries: Vec::new(), rel_entries: Vec::new() }
    }

    /// Register `label -> source`, replacing any prior registration for
    /// `label`. Relationship-type associations are untouched.
    pub fn with_node_source(self, label: String, source: Arc<S>) -> (r: Self)
        ensures
            r.node_sources() == self.node_sources().insert(label@, source),
            r.relationship_sources() == self.relationship_sources(),
    {
        let mut r = self;
        let entry = Entry { name: label, source };
        r.node_entries.push(entry);
        proof {
            assert(r.node_entries@.drop_last() =~= self.node_entries@);
        }
        r
    }

    /// Register `rel_type -> source`, replacing any prior registration for
    /// `rel_type`. Node-label associations are untouched.
    pub fn with_relationship_source(self, rel_type: String, source: Arc<S>) -> (r: Self)
        ensures
            r.relationship_sources() == self.relationship_sources().insert(rel_type@, source),
            r.node_sources() == self.node_sources(),
    {
        let mut r = self;
        let entry = Entry { name: rel_type, source };
        r.rel_entries.push(entry);
        proof {
            assert(r.rel_entries@.drop_last() =~= self.rel_entries@);
        }
        r
    }

    /// Scan `entries` for the latest one named `name` and hand out its
    /// source.
    fn lookup(entries: &Vec<Entry<S>>, name: &str) -> (r: Option<Arc<S>>)
        ensures
            match r {
                Some(h) => entries_map(entries@).contains_key(name@) && h == entries_map(
                    entries@,
                )[name@],
                None => !entries_map(entries@).contains_key(name@),
            },
    {
        let key: String = name.to_owned();
        let mut i: usize = entries.len();
        while i > 0
            invariant
                i <= entries@.len(),
                key@ == name@,
                forall|j: int| i <= j < entries@.len() ==> entries@[j].name@ != name@,
            decreases i,
        {
            i = i - 1;
            let e = &entries[i];
            if e.name == key {
                proof {
                    lemma_entries_map_take_lookup(entries@, i + 1, name@);
                    assert(entries@.take(i + 1).drop_last() =~= entries@.take(i as int));
                    assert(entries@.take(i + 1).last() == entries@[i as int]);
                }
                return Some(share(&e.source));
            }
        }
        proof {
            lemma_entries_map_take_lookup(entries@, 0, name@);
            assert(entries@.take(0) =~= Seq::<Entry<S>>::empty());
        }
        None
    }
}

impl<S: SchemaSource> GraphSourceCatalog for InMemoryCatalog<S> {
    type Source = S;

    closed spec fn node_sources(&self) -> Map<Seq<char>, Arc<S>> {
        entries_map(self.node_entries@)
    }

    closed spec fn relationship_sources(&self) -> Map<Seq<char>, Arc<S>> {
        entries_map(self.rel_entries@)
    }

    fn node_source(&self, label: &str) -> (r: Option<Arc<S>>) {
        Self::lookup(&self.node_entries, label)
    }

    fn relationship_source(&self, rel_type: &str) -> (r: Option<Arc<S>>) {
        Self::lookup(&self.rel_entries, rel_type)
    }
}

/// After registering a single label on an empty catalog, that label resolves
/// to exactly the registered source, and every other label still resolves to
/// absence.
pub proof fn lemma_single_registration_resolves<S: SchemaSource>(
    before: InMemoryCatalog<S>,
    after: InMemoryCatalog<S>,
    label: Seq<char>,
    source: Arc<S>,
    other: Seq<char>,
)
    requires
        before.node_sources() == Map::<Seq<char>, Arc<S>>::empty(),
        after.node_sources() == before.node_sources().insert(label, source),
        other != label,
    ensures
        after.node_sources().contains_key(label),
        after.node_sources()[label] == source,
        !after.node_sources().contains_key(other),
{
}

/// Registering the same label twice keeps only the later source: resolution
/// returns the second registration, never the first.
pub proof fn lemma_duplicate_registration_last_wins<S: SchemaSource>(
    first: InMemoryCatalog<S>,
    second: InMemoryCatalog<S>,
    third: InMemoryCatalog<S>,
    label: Seq<char>,
    source1: Arc<S>,
    source2: Arc<S>,
)
    requires
        second.node_sources() == first.node_sources().insert(label, source1),
        third.node_sources() == second.node_sources().insert(label, source2),
    ensures
        third.node_sources().contains_key(label),
        third.node_sources()[label] == source2,
        source1 != source2 ==> third.node_sources()[label] != source1,
{
}

/// An empty reference catalog resolves absence for every label and every
/// relationship type.
pub proof fn lemma_empty_catalog_resolves_absence<S: SchemaSource>(
    catalog: InMemoryCatalog<S>,
    name: Seq<char>,
)
    requires
        catalog.node_sources() == Map::<Seq<char>, Arc<S>>::empty(),
        catalog.relationship_sources() == Map::<Seq<char>, Arc<S>>::empty(),
    ensures
        !catalog.node_sources().contains_key(name),
        !catalog.relationship_sources().contains_key(name),
{
}

/// Registering a name as a node label leaves it unresolvable as a
/// relationship type.
pub proof fn lemma_node_registration_independent<S: SchemaSource>(
    before: InMemoryCatalog<S>,
    after: InMemoryCatalog<S>,
    name: Seq<char>,
    source: Arc<S>,
)
    requires
        after.node_sources() == before.node_sources().insert(name, source),
        after.relationship_sources() == before.relationship_sources(),
        !before.relationship_sources().contains_key(name),
    ensures
        after.node_sources().contains_key(name),
        !after.relationship_sources().contains_key(name),
{
}

/// Registering a name as a relationship type leaves it unresolvable as a
/// node label.
pub proof fn lemma_relationship_registration_independent<S: SchemaSource>(
    before: InMemoryCatalog<S>,
    after: InMemoryCatalog<S>,
    name: Seq<char>,
    source: Arc<S>,
)
    requires
        after.relationship_sources() == before.relationship_sources().insert(name, source),
        after.node_sources() == before.node_sources(),
        !before.node_sources().contains_key(name),
    ensures
        after.relationship_sources().contains_key(name),
        !after.node_sources().contains_key(name),
{
}

impl<S: SchemaSource> Default for InMemoryCatalog<S> {
    /// An empty catalog, as [`InMemoryCatalog::new`] builds one.
    fn default() -> (r: Self)
        ensures
            r.node_sources() == Map::<Seq<char>, Arc<S>>::empty(),
            r.relationship_sources() == Map::<Seq<char>, Arc<S>>::empty(),
    {
        Self::new()
    }
}

} // verus!
