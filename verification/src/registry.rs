//! The process-wide allocation-group registry.
//!
//! The registry is an append-only, copy-on-write map from a dense group
//! identifier to an optional immutable set of key/value tags.  It is stored as
//! an atomically swapped immutable snapshot (`arc_swap` over an `im::Vector`),
//! so concurrent readers always see a consistent point-in-time snapshot while
//! appenders install a new snapshot with a read-modify-install cycle.
//!
//! Identifier `0` is reserved to mean "no group": a fresh registry holds one
//! reserved, untagged entry at index `0`, and every identifier handed out for
//! a real group is therefore nonzero.

use vstd::prelude::*;

verus! {

/// The tag set attached to a group: key/value string pairs, promoted to
/// process-lifetime storage so that reading them on the allocation path never
/// allocates.
pub type GroupTags = &'static [(&'static str, &'static str)];

/// The mathematical value of one stored tag set: a sequence of (key, value)
/// character sequences.
pub type TagSetView = Seq<(Seq<char>, Seq<char>)>;

/// The view of a sequence of borrowed tag pairs.
pub open spec fn pairs_view(pairs: Seq<(&'static str, &'static str)>) -> TagSetView {
    pairs.map_values(|p: (&'static str, &'static str)| (p.0@, p.1@))
}

/// The view of a stored tag set.
pub open spec fn tags_view(tags: GroupTags) -> TagSetView {
    pairs_view(tags@)
}

/// The view of an optional stored tag set.
pub open spec fn opt_tags_view(tags: Option<GroupTags>) -> Option<TagSetView> {
    match tags {
        Some(t) => Some(tags_view(t)),
        None => None,
    }
}

/// The view of a sequence of owned tag pairs, as handed in by a caller.
pub open spec fn string_pairs_view(pairs: Seq<(String, String)>) -> TagSetView {
    pairs.map_values(|p: (String, String)| (p.0@, p.1@))
}

/// The append-only group registry.  Entry `i` describes group `i`; entry `0`
/// is the reserved "no group" entry.  Readers are lock-free; appenders retry a
/// read-copy-install cycle on the shared snapshot.
#[verifier::external_body]
pub struct GroupRegistry {
    shared: arc_swap::ArcSwapOption<im::Vector<Option<GroupTags>>>,
}

/// What the registry holds: one optional tag set per group identifier, in
/// identifier order.
pub uninterp spec fn registry_entries(r: GroupRegistry) -> Seq<Option<TagSetView>>;

/// A registry is well formed when the reserved "no group" entry occupies
/// index `0`, so that no real group is ever assigned identifier `0`.
pub open spec fn registry_wf(r: GroupRegistry) -> bool {
    &&& registry_entries(r).len() >= 1
    &&& registry_entries(r)[0] is None
}

/// What a lookup of `id` returns: the entry stored for `id`, or `None` when
/// `id` was never assigned (out of range) or carries no tags.
pub open spec fn lookup_spec(entries: Seq<Option<TagSetView>>, id: int) -> Option<TagSetView> {
    if 0 <= id < entries.len() {
        entries[id]
    } else {
        None
    }
}

impl GroupRegistry {
    /// Relies on `arc_swap::ArcSwapAny::from_pointee` and `im::Vector::unit`:
    /// the fresh handle holds a snapshot with exactly one entry, which carries
    /// no tags.
    #[verifier::external_body]
    pub fn new() -> (r: GroupRegistry)
        ensures
            registry_entries(r) == seq![None::<TagSetView>],
    {
        GroupRegistry {
            shared: arc_swap::ArcSwapOption::from_pointee(im::Vector::unit(None)),
        }
    }

    /// Relies on `arc_swap::ArcSwapAny::rcu` and `im::Vector::push_back`:
    /// installs a snapshot extended by exactly `entry` and returns the index
    /// the entry landed at, which is the length of the snapshot it replaced.
    #[verifier::external_body]
    pub(crate) fn append_entry(&mut self, entry: Option<GroupTags>) -> (idx: usize)
        ensures
            registry_entries(*final(self)) == registry_entries(*old(self)).push(opt_tags_view(entry)),
            idx == registry_entries(*old(self)).len(),
    {
        let mut idx: usize = 0;
        self.shared.rcu(|current| {
            let mut next = current.as_deref().cloned().unwrap_or_default();
            idx = next.len();
            next.push_back(entry);
            Some(std::sync::Arc::new(next))
        });
        idx
    }

    /// Relies on `arc_swap::ArcSwapAny::load` and `im::Vector::get`: reads the
    /// tag set stored for `id` in the current snapshot, `None` when `id` is
    /// out of range or its entry carries no tags.
    #[verifier::external_body]
    fn lookup_entry(&self, id: usize) -> (r: Option<GroupTags>)
        ensures
            opt_tags_view(r) == lookup_spec(registry_entries(*self), id as int),
    {
        match self.shared.load().as_deref() {
            Some(snapshot) => snapshot.get(id).copied().flatten(),
            None => None,
        }
    }

    /// Looks up the tag set of a group: `Some` exactly when `id` names an
    /// entry that was acquired with tags, and then the returned tag set is the
    /// stored one.
    pub fn lookup(&self, id: usize) -> (r: Option<GroupTags>)
        ensures
            opt_tags_view(r) == lookup_spec(registry_entries(*self), id as int),
    {
        self.lookup_entry(id)
    }
}

/// Relies on `String::leak`: the leaked string slice holds exactly the
/// string's characters and lives for the rest of the process.
#[verifier::external_body]
pub(crate) fn leak_string(s: String) -> (r: &'static str)
    ensures
        r@ == s@,
{
    s.leak()
}

/// Relies on `Vec::leak`: the leaked slice holds exactly the vector's pairs
/// and lives for the rest of the process.
#[verifier::external_body]
pub(crate) fn leak_tag_pairs(v: Vec<(&'static str, &'static str)>) -> (r: GroupTags)
    ensures
        r@ == v@,
{
    v.leak()
}

/// The identifier the next acquisition returns: the registry's current entry
/// count.
pub open spec fn next_group_id(entries: Seq<Option<TagSetView>>) -> int {
    entries.len() as int
}

/// The registry contents after a run of `n` untagged acquisitions.
pub open spec fn entries_after_acquires(entries: Seq<Option<TagSetView>>, n: nat) -> Seq<
    Option<TagSetView>,
>
    decreases n,
{
    if n == 0 {
        entries
    } else {
        entries_after_acquires(entries, (n - 1) as nat).push(None)
    }
}

proof fn lemma_entries_after_acquires_len(entries: Seq<Option<TagSetView>>, n: nat)
    ensures
        entries_after_acquires(entries, n).len() == entries.len() + n,
    decreases n,
{
    if n > 0 {
        lemma_entries_after_acquires_len(entries, (n - 1) as nat);
    }
}

/// Registry density and uniqueness: in a run of `n` acquisitions starting
/// from a registry of `m` entries, the `j`-th acquisition returns identifier
/// `m + j`, so the run returns exactly the identifiers `m, m + 1, ...,
/// m + n - 1`: a contiguous range of `n` distinct identifiers, with no
/// duplicate and no gap.
pub proof fn lemma_group_ids_dense(entries: Seq<Option<TagSetView>>, n: nat)
    ensures
        forall|j: nat|
            j < n ==> #[trigger] next_group_id(entries_after_acquires(entries, j)) == entries.len()
                + j,
        Set::new(|i: int| entries.len() <= i < entries.len() + n).finite(),
        Set::new(|i: int| entries.len() <= i < entries.len() + n).len() == n,
{
    let m = entries.len() as int;
    assert forall|j: nat| j < n implies #[trigger] next_group_id(entries_after_acquires(entries, j))
        == entries.len() + j by {
        lemma_entries_after_acquires_len(entries, j);
    }
    vstd::set_lib::lemma_int_range(m, m + n);
    assert(Set::new(|i: int| m <= i < m + n) =~= vstd::set_lib::set_int_range(m, m + n));
}

/// Tag round trip: looking up the identifier assigned by a tagged acquisition
/// returns exactly the tag set that the acquisition stored, however the
/// registry grows afterwards.
pub proof fn lemma_tag_round_trip(
    entries: Seq<Option<TagSetView>>,
    tags: TagSetView,
    later: Seq<Option<TagSetView>>,
)
    ensures
        lookup_spec(entries.push(Some(tags)) + later, next_group_id(entries)) == Some(tags),
{
    let grown = entries.push(Some(tags)) + later;
    assert(grown[entries.len() as int] == Some(tags));
}

} // verus!
