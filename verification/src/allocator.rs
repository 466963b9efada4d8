//! The tracking allocator shim's verified core: layout arithmetic and
//! attribution decisions.
//!
//! Every allocation is transparently grown by a fixed-size hidden header that
//! records the allocation group owning the allocation ("wrapping" the
//! caller's layout).  The header holds one group identifier, zero-initialized
//! to the unattributed sentinel; the pointer handed to the caller points past
//! the header and satisfies the caller's requested alignment exactly.  The
//! same computation is rerun at deallocation time to step back from the
//! object pointer to the header and to rebuild the exact layout that the
//! backing allocator originally served.
//!
//! The unsafe pointer work itself lives in the embedding program; this module
//! proves the arithmetic it relies on, and the decision rules that say, for a
//! given thread context, which group an allocation is attributed to and which
//! events are reported to the tracker.

use vstd::arithmetic::div_mod::lemma_add_mod_noop;
use vstd::arithmetic::div_mod::lemma_fundamental_div_mod;
use vstd::arithmetic::div_mod::lemma_mod_bound;
use vstd::arithmetic::div_mod::lemma_mod_multiples_basic;
use vstd::arithmetic::power2::lemma2_to64;
use vstd::arithmetic::power2::lemma_pow2_adds;
use vstd::arithmetic::power2::lemma_pow2_pos;
use vstd::arithmetic::power2::lemma_pow2_strictly_increases;
use vstd::arithmetic::power2::pow2;
use vstd::prelude::*;

verus! {

/// Size in bytes of the hidden header: one 64-bit slot holding the owning
/// group's identifier.
pub const HEADER_SIZE: usize = 8;

/// Natural alignment of the hidden header.
pub const HEADER_ALIGN: usize = 8;

/// The sentinel stored in a header that was never attributed to a group.
pub const UNATTRIBUTED: usize = 0;

/// Whether `n` is a power of two.
pub open spec fn is_pow2(n: int) -> bool {
    exists|e: nat| n == pow2(e)
}

/// A size-and-alignment request, mirroring the standard allocator contract:
/// the alignment must be a power of two.
#[derive(Clone, Copy)]
pub struct AllocLayout {
    pub size: usize,
    pub align: usize,
}

impl AllocLayout {
    /// A layout is well formed when its alignment is a power of two.
    pub open spec fn wf(&self) -> bool {
        is_pow2(self.align as int)
    }
}

/// `x` rounded up to the next multiple of `a`.
pub open spec fn round_up(x: int, a: int) -> int
    recommends
        a > 0,
{
    ((x + a - 1) / a) * a
}

/// Alignment of the wrapped allocation: at least the header's natural
/// alignment and at least the caller's requested alignment.
pub open spec fn wrapped_align_spec(align: int) -> int {
    if align <= HEADER_ALIGN { HEADER_ALIGN as int } else { align }
}

/// Offset from the start of the wrapped allocation to the caller's object
/// region: the header region padded so the object is aligned as requested.
pub open spec fn object_offset_spec(align: int) -> int {
    wrapped_align_spec(align)
}

/// Total size of the wrapped allocation: header region, padding, and object
/// region, padded to the wrapped alignment.
pub open spec fn wrapped_size_spec(size: int, align: int) -> int {
    round_up(object_offset_spec(align) + size, wrapped_align_spec(align))
}

proof fn lemma_header_align_is_pow2()
    ensures
        is_pow2(HEADER_ALIGN as int),
{
    lemma2_to64();
    assert((HEADER_ALIGN as int) == pow2(3));
}

/// A smaller power of two divides a larger one.
proof fn lemma_pow2_divides(a: int, b: int)
    requires
        is_pow2(a),
        is_pow2(b),
        a <= b,
    ensures
        a > 0,
        b % a == 0,
{
    let e1 = choose|e: nat| a == pow2(e);
    let e2 = choose|e: nat| b == pow2(e);
    lemma_pow2_pos(e1);
    lemma_pow2_pos(e2);
    if e2 < e1 {
        lemma_pow2_strictly_increases(e2, e1);
        assert(false);
    }
    lemma_pow2_adds(e1, (e2 - e1) as nat);
    let k = pow2((e2 - e1) as nat) as int;
    assert(b == k * a) by (nonlinear_arith)
        requires
            b == a * k,
    ;
    lemma_mod_multiples_basic(k, a);
}

/// Rounding up lands on a multiple of `a`, does not shrink, and overshoots by
/// less than `a`.
proof fn lemma_round_up_properties(x: int, a: int)
    requires
        x >= 0,
        a > 0,
    ensures
        round_up(x, a) % a == 0,
        x <= round_up(x, a),
        round_up(x, a) < x + a,
{
    let xi = x + a - 1;
    let q = xi / a;
    lemma_fundamental_div_mod(xi, a);
    lemma_mod_bound(xi, a);
    assert(round_up(x, a) == q * a);
    lemma_mod_multiples_basic(q, a);
}

/// If `d` divides both `base` and `w`, and `base` is a multiple of `w`, then
/// `base` is a multiple of `d`.
proof fn lemma_mod_divides_transitive(base: int, w: int, d: int)
    requires
        base >= 0,
        w > 0,
        d > 0,
        base % w == 0,
        w % d == 0,
    ensures
        base % d == 0,
{
    let q = base / w;
    let k = w / d;
    lemma_fundamental_div_mod(base, w);
    lemma_fundamental_div_mod(w, d);
    assert(base == (k * q) * d) by (nonlinear_arith)
        requires
            base == w * q,
            w == d * k,
    ;
    lemma_mod_multiples_basic(k * q, d);
}

/// Computes the wrapped layout for a requested object layout, or `None` when
/// the wrapped size would not fit an allocatable region.  On success it
/// returns the layout the backing allocator must be asked for, and the offset
/// from the start of that region to the caller's object region.
pub fn try_get_wrapped_layout(object: AllocLayout) -> (r: Option<(AllocLayout, usize)>)
    requires
        object.wf(),
    ensures
        match r {
            Some(pair) => {
                &&& wrapped_size_spec(object.size as int, object.align as int) <= isize::MAX
                &&& pair.0.size == wrapped_size_spec(object.size as int, object.align as int)
                &&& pair.0.align == wrapped_align_spec(object.align as int)
                &&& pair.1 == object_offset_spec(object.align as int)
                &&& pair.0.wf()
            },
            None => wrapped_size_spec(object.size as int, object.align as int) > isize::MAX,
        },
{
    let offset: usize = if object.align <= HEADER_ALIGN {
        HEADER_ALIGN
    } else {
        object.align
    };
    proof {
        lemma_header_align_is_pow2();
        assert(is_pow2(offset as int));
    }
    let w: u128 = offset as u128;
    let sum: u128 = w + object.size as u128;
    proof {
        lemma_fundamental_div_mod((sum + w - 1) as int, w as int);
        lemma_mod_bound((sum + w - 1) as int, w as int);
        assert((((sum + w - 1) as int) / (w as int)) * (w as int) <= (sum + w - 1) as int);
    }
    let padded: u128 = ((sum + w - 1) / w) * w;
    proof {
        assert(padded == round_up(sum as int, w as int));
    }
    if padded > isize::MAX as u128 {
        None
    } else {
        Some((AllocLayout { size: padded as usize, align: offset }, offset))
    }
}

/// Computes the wrapped layout for a requested object layout whose wrapped
/// size is known to fit.  An overflow of this computation is a fatal
/// condition in the allocator and is ruled out by the precondition; callers
/// that cannot rule it out use [`try_get_wrapped_layout`] and handle `None`.
pub fn get_wrapped_layout(object: AllocLayout) -> (r: (AllocLayout, usize))
    requires
        object.wf(),
        wrapped_size_spec(object.size as int, object.align as int) <= isize::MAX,
    ensures
        r.0.size == wrapped_size_spec(object.size as int, object.align as int),
        r.0.align == wrapped_align_spec(object.align as int),
        r.1 == object_offset_spec(object.align as int),
        r.0.wf(),
{
    match try_get_wrapped_layout(object) {
        Some(pair) => pair,
        None => {
            proof {
                assert(false);
            }
            (object, 0)
        },
    }
}

/// Layout invariants of the wrapped allocation: the wrapped region covers the
/// header and the full requested region; its size is a multiple of its
/// alignment; the object offset leaves room for the header; the wrapped
/// alignment is at least as strict as the requested one; and any base address
/// aligned to the wrapped alignment puts the object pointer (base + offset)
/// exactly at the requested alignment.
pub proof fn lemma_wrapped_layout_invariants(size: int, align: int, base: int)
    requires
        size >= 0,
        base >= 0,
        is_pow2(align),
        base % wrapped_align_spec(align) == 0,
    ensures
        wrapped_size_spec(size, align) >= HEADER_SIZE + size,
        wrapped_size_spec(size, align) >= object_offset_spec(align) + size,
        wrapped_size_spec(size, align) % wrapped_align_spec(align) == 0,
        object_offset_spec(align) >= HEADER_SIZE,
        wrapped_align_spec(align) % align == 0,
        (base + object_offset_spec(align)) % align == 0,
{
    let w = wrapped_align_spec(align);
    lemma_header_align_is_pow2();
    assert(is_pow2(w));
    lemma_pow2_divides(align, w);
    lemma_round_up_properties(w + size, w);
    lemma_mod_divides_transitive(base, w, align);
    lemma_add_mod_noop(base, w, align);
    lemma_mod_multiples_basic(0, align);
}

/// Which group an allocation is attributed to, given the thread context at
/// allocation time: the active group when a tracker is registered and
/// tracking is not suspended on this thread, and no group otherwise.  `Some`
/// means the group's identifier is written into the header and an `allocated`
/// event carrying it is reported; `None` means the header keeps the
/// unattributed sentinel and nothing is reported.
pub open spec fn alloc_attribution_spec(
    tracker_registered: bool,
    suspended: bool,
    active: Option<usize>,
) -> Option<usize> {
    if tracker_registered && !suspended {
        active
    } else {
        None
    }
}

/// Decides the attribution of one allocation.  See [`alloc_attribution_spec`].
pub fn alloc_attribution(tracker_registered: bool, suspended: bool, active: Option<usize>) -> (r:
    Option<usize>)
    ensures
        r == alloc_attribution_spec(tracker_registered, suspended, active),
{
    if tracker_registered && !suspended {
        active
    } else {
        None
    }
}

/// What the deallocation of a block whose header holds `header` reports,
/// given the thread context at deallocation time: `Some((source, current))`
/// means a `deallocated` event is reported carrying the owning group read
/// from the header and the currently active group (which may differ, or be
/// none); `None` means nothing is reported.  A block that was never
/// attributed, a missing tracker, or suspended tracking all report nothing.
pub open spec fn dealloc_attribution_spec(
    tracker_registered: bool,
    suspended: bool,
    active: Option<usize>,
    header: usize,
) -> Option<(usize, Option<usize>)> {
    if tracker_registered && !suspended && header != UNATTRIBUTED {
        Some((header, active))
    } else {
        None
    }
}

/// Decides the reporting of one deallocation.  See
/// [`dealloc_attribution_spec`].
pub fn dealloc_attribution(
    tracker_registered: bool,
    suspended: bool,
    active: Option<usize>,
    header: usize,
) -> (r: Option<(usize, Option<usize>)>)
    ensures
        r == dealloc_attribution_spec(tracker_registered, suspended, active, header),
{
    if tracker_registered && !suspended && header != UNATTRIBUTED {
        Some((header, active))
    } else {
        None
    }
}

/// Attribution round trip: with a tracker registered, tracking not suspended,
/// and group `g` active, an allocation is attributed to `g` — `g` is written
/// into the header — and the deallocation of that block reports `g` as the
/// owning group, alongside whatever group is active at free time.
pub proof fn lemma_attribution_round_trip(g: usize, active_at_free: Option<usize>)
    requires
        g != UNATTRIBUTED,
    ensures
        alloc_attribution_spec(true, false, Some(g)) == Some(g),
        dealloc_attribution_spec(true, false, active_at_free, g) == Some((g, active_at_free)),
{
}

/// Unattributed allocation: with no group active at allocation time, the
/// allocation is attributed to no group, whatever the tracker and suspension
/// state; and the deallocation of a block whose header holds the unattributed
/// sentinel reports nothing — it is never misattributed.
pub proof fn lemma_unattributed_allocation(
    tracker_registered: bool,
    suspended: bool,
    active_at_free: Option<usize>,
)
    ensures
        alloc_attribution_spec(tracker_registered, suspended, None) is None,
        dealloc_attribution_spec(tracker_registered, suspended, active_at_free, UNATTRIBUTED) is None,
{
}

/// Re-entrancy: while tracking is suspended on a thread — a tracker callback
/// is running there — no allocation or deallocation on that thread is
/// attributed or reported, whatever group is active; nested allocations made
/// by a tracker's own callback are observed untracked.
pub proof fn lemma_suspension_blocks_attribution(
    tracker_registered: bool,
    active: Option<usize>,
    header: usize,
)
    ensures
        alloc_attribution_spec(tracker_registered, true, active) is None,
        dealloc_attribution_spec(tracker_registered, true, active, header) is None,
{
}

/// Tracking allocator core.  Wraps a backing allocator; the embedding
/// program's global-allocator shim performs the unsafe calls, using
/// [`get_wrapped_layout`] for every allocation and deallocation and the
/// attribution functions for tracker reporting.
pub struct Allocator<A> {
    inner: A,
}

#[verifier::external_type_specification]
#[verifier::external_body]
pub struct ExSystem(std::alloc::System);

/// Relies on `std::alloc::System` being a unit struct: constructs the handle
/// for the operating system's standard allocator.
#[verifier::external_body]
fn system_allocator() -> std::alloc::System {
    std::alloc::System
}

impl<A> Allocator<A> {
    /// The wrapped backing allocator.
    pub closed spec fn backing(self) -> A {
        self.inner
    }

    /// Creates a new `Allocator` that wraps another allocator.
    pub fn from_allocator(allocator: A) -> (r: Self)
        ensures
            r.backing() == allocator,
    {
        Allocator { inner: allocator }
    }

    /// Borrows the wrapped backing allocator, for the shim that forwards raw
    /// allocation calls to it.
    pub fn backing_allocator(&self) -> (r: &A)
        ensures
            *r == self.backing(),
    {
        &self.inner
    }
}

impl Allocator<std::alloc::System> {
    /// Creates a new `Allocator` that wraps the system allocator.
    pub fn system() -> Allocator<std::alloc::System> {
        Allocator::from_allocator(system_allocator())
    }
}

} // verus!
