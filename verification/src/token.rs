//! Allocation-group tokens, guards, and the per-thread active-group state
//! machine.
//!
//! A token is the owned, single-use right to activate one group.  Entering a
//! token makes its group the thread's active group and yields a guard; the
//! guard remembers whichever group was active before and restores it on exit.
//! Guards nest: as long as they are exited in reverse order of entry, each
//! exit restores exactly the state its entry replaced.
//!
//! The active-group slot is thread-local state: it is modelled here as an
//! explicit [`ActiveGroupState`] value, passed to every operation that reads
//! or writes it, and the embedding program owns one such value per thread.

use vstd::prelude::*;

use crate::registry::leak_string;
use crate::registry::leak_tag_pairs;
use crate::registry::lookup_spec;
use crate::registry::next_group_id;
use crate::registry::opt_tags_view;
use crate::registry::registry_entries;
use crate::registry::registry_wf;
use crate::registry::string_pairs_view;
use crate::registry::GroupRegistry;
use crate::registry::GroupTags;

verus! {

/// The per-thread slot recording which group, if any, is currently active.
/// Activity on one thread is never visible to another: each thread owns one
/// value of this type.
pub struct ActiveGroupState {
    current: Option<usize>,
}

/// What a thread's slot holds after a group is activated: the group itself is
/// active, and the previously active group is saved for restoration.
pub open spec fn enter_step(current: Option<usize>, id: usize) -> (Option<usize>, Option<usize>) {
    (Some(id), current)
}

/// What a thread's slot holds after a guard exits: the group it saved at
/// entry, restored unchanged.
pub open spec fn exit_step(saved: Option<usize>) -> Option<usize> {
    saved
}

impl ActiveGroupState {
    /// The identifier of the currently active group, if one is active.
    pub closed spec fn active(&self) -> Option<usize> {
        self.current
    }

    /// A fresh thread state: no group is active.
    pub fn new() -> (s: ActiveGroupState)
        ensures
            s.active() is None,
    {
        ActiveGroupState { current: None }
    }

    /// Reads the identifier of the currently active group.
    pub fn active_id(&self) -> (r: Option<usize>)
        ensures
            r == self.active(),
    {
        self.current
    }
}

/// One activation's two-state machine.  `Idle` knows the group it stands for
/// but is not the thread's active group; `Active` is, and holds whichever
/// group (if any) was active immediately before, to restore on exit.
pub enum GuardState {
    Idle(usize),
    Active(Option<usize>),
}

impl GuardState {
    /// The group identifier of an idle state.
    pub open spec fn idle_id(self) -> usize {
        match self {
            GuardState::Idle(id) => id,
            GuardState::Active(_) => 0,
        }
    }

    /// The group saved for restoration by an active state.
    pub open spec fn saved_previous(self) -> Option<usize> {
        match self {
            GuardState::Active(previous) => previous,
            GuardState::Idle(_) => None,
        }
    }

    /// An idle state for group `id`.
    pub fn idle(id: usize) -> (s: GuardState)
        ensures
            s == GuardState::Idle(id),
    {
        GuardState::Idle(id)
    }

    /// Makes this state's group the thread's active group, saving the group
    /// that was active before.  Transitioning an already active state is a
    /// contract violation and is ruled out by the precondition.
    pub fn transition_to_active(&mut self, thread: &mut ActiveGroupState)
        requires
            *old(self) is Idle,
        ensures
            ({
                let (now, saved) = enter_step(old(thread).active(), old(self).idle_id());
                final(thread).active() == now && *final(self) == GuardState::Active(saved)
            }),
    {
        match *self {
            GuardState::Idle(id) => {
                let previous = thread.current;
                thread.current = Some(id);
                *self = GuardState::Active(previous);
            },
            GuardState::Active(_) => {
                proof {
                    assert(false);
                }
            },
        }
    }

    /// Restores the group this state saved at activation and returns the
    /// identifier that was active immediately before this call.  Transitioning
    /// an already idle state, or transitioning while no group is active, is a
    /// contract violation and is ruled out by the preconditions.
    pub fn transition_to_idle(&mut self, thread: &mut ActiveGroupState) -> (id: usize)
        requires
            *old(self) is Active,
            old(thread).active() is Some,
        ensures
            Some(id) == old(thread).active(),
            final(thread).active() == exit_step(old(self).saved_previous()),
            *final(self) == GuardState::Idle(id),
    {
        match *self {
            GuardState::Active(previous) => {
                let id = match thread.current {
                    Some(id) => id,
                    None => {
                        proof {
                            assert(false);
                        }
                        0
                    },
                };
                thread.current = previous;
                *self = GuardState::Idle(id);
                id
            },
            GuardState::Idle(_) => {
                proof {
                    assert(false);
                }
                0
            },
        }
    }
}

/// A token that uniquely identifies an allocation group: the owned right to
/// activate that group.  Entering the token consumes it and yields an
/// [`AllocationGuard`]; exiting the guard reconstitutes the token.
pub struct AllocationGroupToken {
    id: usize,
}

impl AllocationGroupToken {
    /// The group identifier this token stands for.
    pub closed spec fn id_spec(&self) -> usize {
        self.id
    }

    /// Acquires a token for a fresh, untagged allocation group.  The new
    /// group's identifier is the registry's entry count at the time of the
    /// call: identifiers are dense, never reused, and never `0`, since the
    /// reserved entry occupies index `0`.
    pub fn acquire(registry: &mut GroupRegistry) -> (token: AllocationGroupToken)
        requires
            registry_wf(*old(registry)),
        ensures
            registry_wf(*final(registry)),
            registry_entries(*final(registry)) == registry_entries(*old(registry)).push(
                None::<crate::registry::TagSetView>,
            ),
            token.id_spec() == next_group_id(registry_entries(*old(registry))),
            token.id_spec() != 0,
    {
        let id = registry.append_entry(None);
        AllocationGroupToken { id }
    }

    /// Acquires a token for a fresh allocation group carrying `tags`.  The tag
    /// strings are promoted to process-lifetime storage first (each call
    /// permanently grows memory; callers should not acquire tagged groups in a
    /// hot path), then the group is appended with its tag set.
    pub fn acquire_with_tags(registry: &mut GroupRegistry, tags: &Vec<(String, String)>) -> (token:
        AllocationGroupToken)
        requires
            registry_wf(*old(registry)),
        ensures
            registry_wf(*final(registry)),
            registry_entries(*final(registry)) == registry_entries(*old(registry)).push(
                Some(string_pairs_view(tags@)),
            ),
            token.id_spec() == next_group_id(registry_entries(*old(registry))),
            token.id_spec() != 0,
    {
        let mut durable: Vec<(&'static str, &'static str)> = Vec::new();
        let mut i: usize = 0;
        while i < tags.len()
            invariant
                i <= tags.len(),
                durable@.len() == i,
                forall|j: int|
                    0 <= j < i ==> (#[trigger] durable@[j]).0@ == tags@[j].0@ && durable@[j].1@
                        == tags@[j].1@,
            decreases tags.len() - i,
        {
            let key = leak_string(tags[i].0.clone());
            let value = leak_string(tags[i].1.clone());
            durable.push((key, value));
            i += 1;
        }
        let stored = leak_tag_pairs(durable);
        proof {
            assert(crate::registry::tags_view(stored) =~= string_pairs_view(tags@));
        }
        let id = registry.append_entry(Some(stored));
        AllocationGroupToken { id }
    }

    /// Converts this token into its unmanaged counterpart, for a boundary
    /// adapter that cannot hold an owned guard.
    pub fn into_unsafe(self) -> (t: UnsafeAllocationGroupToken)
        ensures
            t.state_spec() == GuardState::Idle(self.id_spec()),
    {
        UnsafeAllocationGroupToken::new(self.id)
    }

    /// Marks this token's group as the thread's active group, consuming the
    /// token.  The group that was active before is restored when the returned
    /// guard exits.
    pub fn enter(self, thread: &mut ActiveGroupState) -> (guard: AllocationGuard)
        ensures
            guard.entered(),
            ({
                let (now, saved) = enter_step(old(thread).active(), self.id_spec());
                final(thread).active() == now && guard.saved() == saved
            }),
    {
        AllocationGuard::enter(self, thread)
    }
}

/// The guard produced by activating a token: while it lives, its group is the
/// thread's active group; exiting it restores the group that was active
/// before.  Guards must exit on the thread that entered them and in reverse
/// order of entry.
pub struct AllocationGuard {
    state: GuardState,
}

impl AllocationGuard {
    /// Whether the guard stands for the currently active activation.  Every
    /// guard this module hands out is entered until it is consumed by `exit`.
    pub closed spec fn entered(&self) -> bool {
        self.state is Active
    }

    /// The group that was active when this guard was entered, to be restored
    /// on exit.
    pub closed spec fn saved(&self) -> Option<usize> {
        self.state.saved_previous()
    }

    /// Activates `token`'s group on `thread` and wraps the activation in a
    /// guard.
    pub(crate) fn enter(token: AllocationGroupToken, thread: &mut ActiveGroupState) -> (guard:
        AllocationGuard)
        ensures
            guard.entered(),
            ({
                let (now, saved) = enter_step(old(thread).active(), token.id_spec());
                final(thread).active() == now && guard.saved() == saved
            }),
    {
        let mut state = GuardState::idle(token.id);
        state.transition_to_active(thread);
        AllocationGuard { state }
    }

    /// Deactivates this guard's group, restoring the group that was active
    /// when the guard was entered, and reconstitutes the token so the group
    /// can be entered again later (for instance on another thread).
    pub fn exit(self, thread: &mut ActiveGroupState) -> (token: AllocationGroupToken)
        requires
            self.entered(),
            old(thread).active() is Some,
        ensures
            Some(token.id_spec()) == old(thread).active(),
            final(thread).active() == exit_step(self.saved()),
    {
        let mut guard = self;
        guard.exit_inner(thread)
    }

    /// The shared exit path: performs the active-to-idle transition once and
    /// hands back the token.
    fn exit_inner(&mut self, thread: &mut ActiveGroupState) -> (token: AllocationGroupToken)
        requires
            old(self).entered(),
            old(thread).active() is Some,
        ensures
            Some(token.id_spec()) == old(thread).active(),
            final(thread).active() == exit_step(old(self).saved()),
            !final(self).entered(),
    {
        let current = self.state.transition_to_idle(thread);
        AllocationGroupToken { id: current }
    }
}

/// Unmanaged allocation-group token: replicates the guard's two-state
/// transition logic with explicit `enter`/`exit` calls instead of
/// ownership-based scoping.  It exists for a boundary adapter whose own scope
/// object cannot hold an owned guard; that adapter, not this type, must
/// guarantee the value is not used across threads between `enter` and `exit`.
pub struct UnsafeAllocationGroupToken {
    state: GuardState,
}

impl UnsafeAllocationGroupToken {
    /// The state of the underlying two-state machine.
    pub closed spec fn state_spec(&self) -> GuardState {
        self.state
    }

    /// Creates an unmanaged token for group `id`, initially idle.
    pub fn new(id: usize) -> (t: UnsafeAllocationGroupToken)
        ensures
            t.state_spec() == GuardState::Idle(id),
    {
        UnsafeAllocationGroupToken { state: GuardState::idle(id) }
    }

    /// Marks this token's group as the thread's active group, saving the
    /// previous one.  Functionally equivalent to entering a guard.
    pub fn enter(&mut self, thread: &mut ActiveGroupState)
        requires
            old(self).state_spec() is Idle,
        ensures
            ({
                let (now, saved) = enter_step(old(thread).active(), old(self).state_spec().idle_id());
                final(thread).active() == now && final(self).state_spec() == GuardState::Active(saved)
            }),
    {
        self.state.transition_to_active(thread);
    }

    /// Restores the group that was active when `enter` was called.
    /// Functionally equivalent to exiting a guard.
    pub fn exit(&mut self, thread: &mut ActiveGroupState)
        requires
            old(self).state_spec() is Active,
            old(thread).active() is Some,
        ensures
            final(thread).active() == exit_step(old(self).state_spec().saved_previous()),
            final(self).state_spec() == GuardState::Idle(old(thread).active()->0),
    {
        let _ = self.state.transition_to_idle(thread);
    }
}

/// The currently active group together with its registry metadata.
pub struct AllocationGroupMetadata {
    id: usize,
    tags: Option<GroupTags>,
}

impl AllocationGroupMetadata {
    /// The group's identifier.
    pub closed spec fn id_spec(&self) -> usize {
        self.id
    }

    /// The group's stored tag set, if it was acquired with tags.
    pub closed spec fn tags_spec(&self) -> Option<GroupTags> {
        self.tags
    }

    /// Reads the group identifier.
    pub fn id(&self) -> (r: usize)
        ensures
            r == self.id_spec(),
    {
        self.id
    }

    /// Reads the group's tag set.
    pub fn tags(&self) -> (r: Option<GroupTags>)
        ensures
            r == self.tags_spec(),
    {
        self.tags
    }
}

/// Gets the currently active group, if one is active, together with the tags
/// the registry stores for it.
pub fn get_active_allocation_group(thread: &ActiveGroupState, registry: &GroupRegistry) -> (r:
    Option<AllocationGroupMetadata>)
    ensures
        match r {
            None => thread.active() is None,
            Some(md) => {
                &&& thread.active() == Some(md.id_spec())
                &&& opt_tags_view(md.tags_spec()) == lookup_spec(
                    registry_entries(*registry),
                    md.id_spec() as int,
                )
            },
        },
{
    match thread.active_id() {
        None => None,
        Some(id) => {
            let tags = registry.lookup(id);
            Some(AllocationGroupMetadata { id, tags })
        },
    }
}

/// Guard stack restoration is last-in, first-out: entering group `a`, then
/// nested group `b`, makes `b` active; exiting `b` restores `a` as the active
/// group, and exiting `a` afterwards restores whatever was active before both
/// — each exit undoes exactly the entry it pairs with.
pub proof fn lemma_guard_lifo_restore(before: Option<usize>, a: usize, b: usize)
    ensures
        ({
            let (active_a, saved_a) = enter_step(before, a);
            let (active_b, saved_b) = enter_step(active_a, b);
            let after_b_exits = exit_step(saved_b);
            let after_a_exits = exit_step(saved_a);
            &&& active_a == Some(a)
            &&& active_b == Some(b)
            &&& after_b_exits == Some(a)
            &&& after_a_exits == before
        }),
{
}

} // verus!
