use stacker::{
    align_stack_size, finish_switch, maybe_grow, prepare_switch, remaining_stack, GrowDecision,
    LimitTracker,
};

const RED_ZONE: usize = 32 * 1024;
const STACK_SIZE: usize = 1024 * 1024;
const GUARD_OFFSET: usize = 32 * 1024;

#[test]
fn runs_direct_when_headroom_suffices() {
    let t = LimitTracker::new(Some(1_000));
    let d = maybe_grow(&t, 100_000, RED_ZONE, STACK_SIZE);
    assert!(matches!(d, GrowDecision::RunDirect));
}

#[test]
fn runs_direct_at_exactly_the_red_zone() {
    let t = LimitTracker::new(Some(1_000));
    let d = maybe_grow(&t, 1_000 + RED_ZONE, RED_ZONE, STACK_SIZE);
    assert!(matches!(d, GrowDecision::RunDirect));
}

#[test]
fn grows_when_headroom_runs_short() {
    let t = LimitTracker::new(Some(1_000));
    let d = maybe_grow(&t, 1_100, RED_ZONE, STACK_SIZE);
    match d {
        GrowDecision::Grow {
            aligned_size,
            remaining,
        } => {
            assert_eq!(remaining, 100);
            assert_eq!(aligned_size, STACK_SIZE);
        }
        GrowDecision::RunDirect => panic!("checkpoint should have decided to grow"),
    }
}

#[test]
fn grow_decision_rounds_the_requested_size() {
    let t = LimitTracker::new(Some(1_000));
    let d = maybe_grow(&t, 1_004, RED_ZONE, 100);
    match d {
        GrowDecision::Grow {
            aligned_size,
            remaining,
        } => {
            assert_eq!(remaining, 4);
            assert_eq!(aligned_size, 112);
        }
        GrowDecision::RunDirect => panic!("checkpoint should have decided to grow"),
    }
}

#[test]
fn remaining_stack_reports_headroom() {
    let t = LimitTracker::new(Some(4_096));
    assert_eq!(remaining_stack(&t, 10_000), Some(5_904));
    assert_eq!(remaining_stack(&t, 4_096), Some(0));
}

#[test]
fn headroom_inside_grown_stack_covers_red_zone() {
    let mut t = LimitTracker::new(Some(1_000));
    let d = maybe_grow(&t, 1_100, RED_ZONE, STACK_SIZE);
    let aligned_size = match d {
        GrowDecision::Grow { aligned_size, .. } => aligned_size,
        GrowDecision::RunDirect => panic!("checkpoint should have decided to grow"),
    };
    let base: usize = 0x5000_0000;
    let (plan, saved) = prepare_switch(&mut t, base, aligned_size, false);
    assert_eq!(plan.new_limit, base + GUARD_OFFSET);
    assert_eq!(t.get_stack_limit(), Some(plan.new_limit));
    let inside = remaining_stack(&t, plan.new_stack_ptr).unwrap();
    assert!(inside >= RED_ZONE);
    finish_switch(&mut t, saved);
}

#[test]
fn entry_pointer_offset_by_pointer_width() {
    let base: usize = 0x4000_0000;
    let mut t = LimitTracker::new(Some(1_000));
    let (plan64, saved64) = prepare_switch(&mut t, base, 4_096, false);
    assert_eq!(plan64.new_stack_ptr, base + 4_096);
    finish_switch(&mut t, saved64);
    let (plan32, saved32) = prepare_switch(&mut t, base, 4_096, true);
    assert_eq!(plan32.new_stack_ptr, base + 4_096 - 12);
    finish_switch(&mut t, saved32);
    assert_eq!(t.get_stack_limit(), Some(1_000));
}

#[test]
fn switch_restores_the_prior_limit() {
    let mut t = LimitTracker::new(Some(777));
    let (plan, saved) = prepare_switch(&mut t, 0x6000_0000, STACK_SIZE, false);
    assert_ne!(t.get_stack_limit(), Some(777));
    assert_eq!(t.get_stack_limit(), Some(plan.new_limit));
    finish_switch(&mut t, saved);
    assert_eq!(t.get_stack_limit(), Some(777));
}

#[test]
fn nested_switches_restore_in_lifo_order() {
    let mut t = LimitTracker::new(Some(500));
    let before = t.get_stack_limit();
    let (_outer_plan, outer_saved) = prepare_switch(&mut t, 0x1000_0000, STACK_SIZE, false);
    let after_outer = t.get_stack_limit();
    let (_inner_plan, inner_saved) = prepare_switch(&mut t, 0x2000_0000, STACK_SIZE, false);
    let (_innermost_plan, innermost_saved) =
        prepare_switch(&mut t, 0x3000_0000, STACK_SIZE, false);
    finish_switch(&mut t, innermost_saved);
    assert_eq!(t.get_stack_limit(), Some(0x2000_0000 + GUARD_OFFSET));
    finish_switch(&mut t, inner_saved);
    assert_eq!(t.get_stack_limit(), after_outer);
    finish_switch(&mut t, outer_saved);
    assert_eq!(t.get_stack_limit(), before);
}

fn recurse(t: &mut LimitTracker, depth: u64) -> u64 {
    if depth == 0 {
        return 0;
    }
    // Pretend each level has nearly exhausted its stack, so every
    // checkpoint must switch.
    let limit = t.get_stack_limit().unwrap();
    let stack_ptr = limit + 100;
    match maybe_grow(t, stack_ptr, RED_ZONE, STACK_SIZE) {
        GrowDecision::Grow { aligned_size, .. } => {
            let base = 0x5000_0000 + (depth as usize) * 0x20_0000;
            let (_plan, saved) = prepare_switch(t, base, aligned_size, false);
            let accumulated = 1 + recurse(t, depth - 1);
            finish_switch(t, saved);
            assert_eq!(t.get_stack_limit(), Some(limit));
            accumulated
        }
        GrowDecision::RunDirect => unreachable!(),
    }
}

#[test]
fn deep_recursion_accumulates_and_restores() {
    let mut t = LimitTracker::new(Some(1_000_000));
    let n = recurse(&mut t, 200);
    assert_eq!(n, 200);
    assert_eq!(t.get_stack_limit(), Some(1_000_000));
}

#[test]
fn unsupported_platform_degrades_to_direct_execution() {
    let t = LimitTracker::new(None);
    assert_eq!(remaining_stack(&t, 123_456), None);
    assert!(matches!(
        maybe_grow(&t, 0, usize::MAX - 15, STACK_SIZE),
        GrowDecision::RunDirect
    ));
    assert!(matches!(
        maybe_grow(&t, 0, 0, STACK_SIZE),
        GrowDecision::RunDirect
    ));
}

#[test]
fn zero_red_zone_never_grows_on_supported_platform() {
    let t = LimitTracker::new(Some(9_999));
    let d = maybe_grow(&t, 9_999, 0, STACK_SIZE);
    assert!(matches!(d, GrowDecision::RunDirect));
}

#[test]
fn aligned_size_is_a_16_multiple_at_least_as_large() {
    let cases: [usize; 8] = [0, 1, 15, 16, 17, 100, STACK_SIZE, usize::MAX - 15];
    for requested in cases {
        let aligned = align_stack_size(requested);
        assert_eq!(aligned % 16, 0);
        assert!(aligned >= requested);
        assert!(aligned - requested < 16);
    }
    assert_eq!(align_stack_size(0), 0);
    assert_eq!(align_stack_size(1), 16);
    assert_eq!(align_stack_size(16), 16);
    assert_eq!(align_stack_size(17), 32);
    assert_eq!(align_stack_size(STACK_SIZE), STACK_SIZE);
}
