use tracking_allocator::registry::GroupRegistry;
use tracking_allocator::token::get_active_allocation_group;
use tracking_allocator::token::ActiveGroupState;
use tracking_allocator::token::AllocationGroupToken;
use tracking_allocator::token::UnsafeAllocationGroupToken;

fn owned_tags(pairs: &[(&str, &str)]) -> Vec<(String, String)> {
    pairs.iter().map(|(k, v)| (k.to_string(), v.to_string())).collect()
}

fn active_tags(thread: &ActiveGroupState, reg: &GroupRegistry) -> Option<&'static [(&'static str, &'static str)]> {
    get_active_allocation_group(thread, reg).and_then(|md| md.tags())
}

/// Guard stack LIFO restore: enter "db", then nested "cache"; exiting "cache"
/// restores "db" as active; exiting "db" restores "no group active".
#[test]
fn guard_stack_lifo_restore() {
    let mut reg = GroupRegistry::new();
    let mut thread = ActiveGroupState::new();
    let db = AllocationGroupToken::acquire_with_tags(&mut reg, &owned_tags(&[("name", "db")]));
    let cache = AllocationGroupToken::acquire_with_tags(&mut reg, &owned_tags(&[("name", "cache")]));

    assert_eq!(thread.active_id(), None);
    let db_guard = db.enter(&mut thread);
    assert_eq!(active_tags(&thread, &reg), Some(&[("name", "db")][..]));
    let cache_guard = cache.enter(&mut thread);
    assert_eq!(active_tags(&thread, &reg), Some(&[("name", "cache")][..]));

    let _cache_token = cache_guard.exit(&mut thread);
    assert_eq!(active_tags(&thread, &reg), Some(&[("name", "db")][..]));
    let _db_token = db_guard.exit(&mut thread);
    assert_eq!(thread.active_id(), None);
    assert!(get_active_allocation_group(&thread, &reg).is_none());
}

/// Three levels of nesting restore level by level in reverse order of entry.
#[test]
fn guard_stack_three_levels() {
    let mut reg = GroupRegistry::new();
    let mut thread = ActiveGroupState::new();
    let a = AllocationGroupToken::acquire(&mut reg).enter(&mut thread);
    assert_eq!(thread.active_id(), Some(1));
    let b = AllocationGroupToken::acquire(&mut reg).enter(&mut thread);
    assert_eq!(thread.active_id(), Some(2));
    let c = AllocationGroupToken::acquire(&mut reg).enter(&mut thread);
    assert_eq!(thread.active_id(), Some(3));
    let _ = c.exit(&mut thread);
    assert_eq!(thread.active_id(), Some(2));
    let _ = b.exit(&mut thread);
    assert_eq!(thread.active_id(), Some(1));
    let _ = a.exit(&mut thread);
    assert_eq!(thread.active_id(), None);
}

/// A token reconstituted by exiting a guard can be entered again and names the
/// same group.
#[test]
fn exited_token_reenters_same_group() {
    let mut reg = GroupRegistry::new();
    let mut thread = ActiveGroupState::new();
    let token = AllocationGroupToken::acquire(&mut reg);
    let guard = token.enter(&mut thread);
    let first = get_active_allocation_group(&thread, &reg).unwrap().id();
    let token = guard.exit(&mut thread);
    let guard = token.enter(&mut thread);
    let second = get_active_allocation_group(&thread, &reg).unwrap().id();
    let _ = guard.exit(&mut thread);
    assert_eq!(first, second);
}

/// The unmanaged token drives the same state machine as the guard: entering
/// makes its group active, exiting restores the saved one.
#[test]
fn unsafe_token_enter_exit() {
    let mut reg = GroupRegistry::new();
    let mut thread = ActiveGroupState::new();
    let outer = AllocationGroupToken::acquire(&mut reg);
    let inner = AllocationGroupToken::acquire(&mut reg);

    let outer_guard = outer.enter(&mut thread);
    assert_eq!(thread.active_id(), Some(1));

    let mut unmanaged: UnsafeAllocationGroupToken = inner.into_unsafe();
    unmanaged.enter(&mut thread);
    assert_eq!(thread.active_id(), Some(2));
    unmanaged.exit(&mut thread);
    assert_eq!(thread.active_id(), Some(1));

    // The unmanaged token is reusable: enter and exit again.
    unmanaged.enter(&mut thread);
    assert_eq!(thread.active_id(), Some(2));
    unmanaged.exit(&mut thread);
    assert_eq!(thread.active_id(), Some(1));

    let _ = outer_guard.exit(&mut thread);
    assert_eq!(thread.active_id(), None);
}

/// A freshly created unmanaged token for an arbitrary id activates exactly
/// that id.
#[test]
fn unsafe_token_new_uses_given_id() {
    let mut thread = ActiveGroupState::new();
    let mut unmanaged = UnsafeAllocationGroupToken::new(41);
    unmanaged.enter(&mut thread);
    assert_eq!(thread.active_id(), Some(41));
    unmanaged.exit(&mut thread);
    assert_eq!(thread.active_id(), None);
}
