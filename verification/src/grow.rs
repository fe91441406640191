use vstd::prelude::*;

use crate::limit::LimitTracker;

verus! {

/// Fixed headroom reserved above a grown region's base address when the new
/// stack limit is computed, so that nested checkpoints running on the grown
/// stack see a meaningful boundary rather than the raw allocation edge.
pub const GUARD_OFFSET: usize = 32 * 1024;

/// On 32-bit targets the control-transfer primitive pushes one argument, so
/// the entry stack pointer starts this many bytes below the region's top to
/// land the first frame 16-byte aligned; 64-bit targets need no offset.
pub const ENTRY_OFFSET_32: usize = 12;

/// `n` rounded up to the next multiple of 16, the alignment the
/// control-transfer convention demands of a stack region.
pub open spec fn round_up_16(n: int) -> int {
    ((n + 15) / 16) * 16
}

/// Bytes the entry stack pointer sits below a grown region's top.
pub open spec fn entry_offset(pointer_width_32: bool) -> int {
    if pointer_width_32 {
        ENTRY_OFFSET_32 as int
    } else {
        0
    }
}

/// A tracked limit never lies above the stack pointer measured on the stack
/// it bounds.
pub open spec fn limit_wf(limit: Option<usize>, stack_ptr: usize) -> bool {
    limit matches Some(l) ==> l <= stack_ptr
}

/// Headroom between the stack pointer and the tracked limit; absent when no
/// limit is tracked.
pub open spec fn spec_remaining(limit: Option<usize>, stack_ptr: usize) -> Option<usize> {
    match limit {
        Some(l) => Some((stack_ptr - l) as usize),
        None => None,
    }
}

/// A checkpoint must switch stacks exactly when a limit is tracked and the
/// headroom above it has fallen below the red zone.
pub open spec fn needs_growth(limit: Option<usize>, stack_ptr: usize, red_zone: usize) -> bool {
    limit matches Some(l) && stack_ptr - l < red_zone
}

/// Amount of stack remaining below `stack_ptr`, as this library interprets
/// it: the distance down to the tracked limit, or absent on a platform
/// where no limit could be established.
pub fn remaining_stack(tracker: &LimitTracker, stack_ptr: usize) -> (r: Option<usize>)
    requires
        limit_wf(tracker@, stack_ptr),
    ensures
        r == spec_remaining(tracker@, stack_ptr),
{
    match tracker.get_stack_limit() {
        Some(limit) => Some(stack_ptr - limit),
        None => None,
    }
}

/// What a checkpoint decided: run the work in place, or switch onto a newly
/// allocated stack region of `aligned_size` bytes.
pub enum GrowDecision {
    RunDirect,
    Grow { aligned_size: usize, remaining: usize },
}

/// The checkpoint decision: grows the call stack only if necessary.
///
/// Called at manually instrumented points where recursion is known to
/// happen quite a bit, with the stack pointer measured at the call site.
/// If at least `red_zone` bytes remain above the tracked limit — or no
/// limit is tracked at all — the caller's work runs in place on the current
/// stack.  Otherwise the work must move to a new stack of `stack_size`
/// bytes, rounded up to the switch alignment; the decision carries the
/// rounded size and the measured headroom.
pub fn maybe_grow(tracker: &LimitTracker, stack_ptr: usize, red_zone: usize, stack_size: usize) -> (d: GrowDecision)
    requires
        limit_wf(tracker@, stack_ptr),
        stack_size <= usize::MAX - 15,
    ensures
        d is RunDirect <==> !needs_growth(tracker@, stack_ptr, red_zone),
        d matches GrowDecision::Grow { aligned_size, remaining } ==> {
            &&& Some(remaining) == spec_remaining(tracker@, stack_ptr)
            &&& remaining < red_zone
            &&& aligned_size == round_up_16(stack_size as int)
        },
{
    match remaining_stack(tracker, stack_ptr) {
        Some(remaining) => {
            if remaining >= red_zone {
                GrowDecision::RunDirect
            } else {
                GrowDecision::Grow { aligned_size: align_stack_size(stack_size), remaining }
            }
        }
        None => GrowDecision::RunDirect,
    }
}

/// Rounds a requested stack size up to the next multiple of 16 bytes, the
/// alignment the control-transfer convention demands.
pub fn align_stack_size(requested: usize) -> (aligned: usize)
    requires
        requested <= usize::MAX - 15,
    ensures
        aligned == round_up_16(requested as int),
        aligned % 16 == 0,
        requested <= aligned,
        aligned < requested + 16,
{
    proof {
        lemma_round_up_16_bounds(requested as int);
    }
    (requested + 15) / 16 * 16
}

/// The next multiple of 16 is at most 15 bytes up and exactly divisible.
pub proof fn lemma_round_up_16_bounds(n: int)
    requires
        0 <= n,
    ensures
        n <= round_up_16(n),
        round_up_16(n) < n + 16,
        round_up_16(n) % 16 == 0,
{
    let q = (n + 15) / 16;
    let r = (n + 15) % 16;
    vstd::arithmetic::div_mod::lemma_fundamental_div_mod(n + 15, 16);
    assert(0 <= r < 16);
    assert(round_up_16(n) == 16 * q);
    assert((16 * q) % 16 == 0) by (nonlinear_arith);
}

/// Everything the unverified shell needs to perform one stack switch: where
/// execution enters the new region, and the boundary the tracker holds
/// while the switched work runs.
pub struct SwitchPlan {
    pub new_stack_ptr: usize,
    pub new_limit: usize,
}

/// Snapshot of the stack limit taken by `prepare_switch`, restored verbatim
/// by `finish_switch` once execution is back on the original stack.
pub struct SavedLimit {
    pub prior: usize,
}

/// A single limit-tracker transition, as performed by one half of a stack
/// switch; `apply_ops` over sequences of these is the model in which the
/// restoration law is stated and proved.
pub enum LimitOp {
    Engage { new_limit: usize },
    Restore { prior: usize },
}

/// One transition of the tracked limit.
pub open spec fn apply_op(limit: Option<usize>, op: LimitOp) -> Option<usize> {
    match op {
        LimitOp::Engage { new_limit } => Some(new_limit),
        LimitOp::Restore { prior } => Some(prior),
    }
}

/// The tracked limit after a sequence of transitions, first to last.
pub open spec fn apply_ops(limit: Option<usize>, ops: Seq<LimitOp>) -> Option<usize>
    decreases ops.len(),
{
    if ops.len() == 0 {
        limit
    } else {
        apply_ops(apply_op(limit, ops[0]), ops.skip(1))
    }
}

/// The limit-tracker transitions of a chain of switches nested one inside
/// the next, starting from a tracked limit of `prior`: each level engages
/// its region's boundary, runs the next level inside, then restores what it
/// saved.
pub open spec fn nested_switch_ops(prior: usize, new_limits: Seq<usize>) -> Seq<LimitOp>
    decreases new_limits.len(),
{
    if new_limits.len() == 0 {
        Seq::empty()
    } else {
        seq![LimitOp::Engage { new_limit: new_limits[0] }]
            + nested_switch_ops(new_limits[0], new_limits.skip(1))
            + seq![LimitOp::Restore { prior }]
    }
}

/// Transitions compose: running `a` then `b` from a limit is running `b`
/// from where `a` left off.
pub proof fn lemma_apply_ops_concat(limit: Option<usize>, a: Seq<LimitOp>, b: Seq<LimitOp>)
    ensures
        apply_ops(limit, a + b) == apply_ops(apply_ops(limit, a), b),
    decreases a.len(),
{
    if a.len() == 0 {
        assert(a + b =~= b);
    } else {
        assert((a + b)[0] == a[0]);
        assert((a + b).skip(1) =~= a.skip(1) + b);
        lemma_apply_ops_concat(apply_op(limit, a[0]), a.skip(1), b);
    }
}

/// A single transition as a one-element sequence.
pub proof fn lemma_apply_ops_singleton(limit: Option<usize>, op: LimitOp)
    ensures
        apply_ops(limit, seq![op]) == apply_op(limit, op),
{
    assert(seq![op].skip(1) =~= Seq::<LimitOp>::empty());
    assert(apply_ops(apply_op(limit, op), Seq::<LimitOp>::empty()) == apply_op(limit, op));
}

/// Idempotence of restoration: however deeply switches nest, once each
/// level has restored its saved prior limit in last-in-first-out order, the
/// tracker holds exactly the limit it held before the outermost switch
/// began.
pub proof fn lemma_nested_switches_restore(prior: usize, new_limits: Seq<usize>)
    ensures
        apply_ops(Some(prior), nested_switch_ops(prior, new_limits)) == Some(prior),
    decreases new_limits.len(),
{
    if new_limits.len() == 0 {
    } else {
        let first = seq![LimitOp::Engage { new_limit: new_limits[0] }];
        let mid = nested_switch_ops(new_limits[0], new_limits.skip(1));
        let last = seq![LimitOp::Restore { prior }];
        assert(nested_switch_ops(prior, new_limits) == first + mid + last);
        lemma_apply_ops_concat(Some(prior), first + mid, last);
        lemma_apply_ops_concat(Some(prior), first, mid);
        lemma_apply_ops_singleton(Some(prior), LimitOp::Engage { new_limit: new_limits[0] });
        lemma_nested_switches_restore(new_limits[0], new_limits.skip(1));
        lemma_apply_ops_singleton(Some(new_limits[0]), LimitOp::Restore { prior });
    }
}

/// Plans a stack switch and moves the tracked limit onto the new region.
///
/// `region_base` and `region_size` describe the freshly allocated region
/// (its size already rounded by `align_stack_size`).  The new limit sits a
/// fixed guard offset above the region's base; execution will enter at the
/// region's top, less the entry offset of the architecture's pointer
/// width.  The limit the tracker held — present, since only a tracked
/// limit's headroom can run short — is returned as a snapshot for
/// `finish_switch` to restore.
pub fn prepare_switch(tracker: &mut LimitTracker, region_base: usize, region_size: usize, pointer_width_32: bool) -> (r: (SwitchPlan, SavedLimit))
    requires
        old(tracker)@ is Some,
        region_base + region_size <= usize::MAX,
        region_base + GUARD_OFFSET <= usize::MAX,
        entry_offset(pointer_width_32) <= region_size,
    ensures
        Some(r.1.prior) == old(tracker)@,
        r.0.new_limit == region_base + GUARD_OFFSET,
        r.0.new_stack_ptr == region_base + region_size - entry_offset(pointer_width_32),
        final(tracker)@ == Some(r.0.new_limit),
        final(tracker)@ == apply_op(old(tracker)@, (LimitOp::Engage { new_limit: r.0.new_limit })),
{
    let prior = match tracker.get_stack_limit() {
        Some(l) => l,
        None => 0,
    };
    let new_limit = region_base + GUARD_OFFSET;
    tracker.set_stack_limit(new_limit);
    let offset: usize = if pointer_width_32 {
        ENTRY_OFFSET_32
    } else {
        0
    };
    let new_stack_ptr = region_base + region_size - offset;
    (SwitchPlan { new_stack_ptr, new_limit }, SavedLimit { prior })
}

/// Restores the tracked limit after a stack switch.
///
/// Once the control transfer has returned to the original stack, the
/// snapshot taken by `prepare_switch` is written back verbatim: whatever
/// the switched work did to the limit, the tracker ends exactly where it
/// stood before the switch began.
pub fn finish_switch(tracker: &mut LimitTracker, saved: SavedLimit)
    ensures
        final(tracker)@ == Some(saved.prior),
        final(tracker)@ == apply_op(old(tracker)@, (LimitOp::Restore { prior: saved.prior })),
{
    tracker.set_stack_limit(saved.prior);
}

/// Work switched onto a grown region observes at least the red zone of
/// headroom at entry, provided the region covers the red zone, the guard
/// offset, and the entry offset together.  A smaller request is honoured as
/// given: the switch still happens, with whatever headroom the region
/// affords.
pub proof fn lemma_grown_headroom(plan: SwitchPlan, region_base: usize, region_size: usize, red_zone: usize, pointer_width_32: bool)
    requires
        plan.new_limit == region_base + GUARD_OFFSET,
        plan.new_stack_ptr == region_base + region_size - entry_offset(pointer_width_32),
        region_size >= red_zone + GUARD_OFFSET + entry_offset(pointer_width_32),
    ensures
        plan.new_limit <= plan.new_stack_ptr,
        plan.new_stack_ptr - plan.new_limit >= red_zone,
        spec_remaining(Some(plan.new_limit), plan.new_stack_ptr) matches Some(headroom) && headroom >= red_zone,
{
}

} // verus!
