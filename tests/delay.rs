use ffi_sleep::{delay_millis, plan_delay, DelayPlan, STATUS_INVALID_DELAY, STATUS_OK};

#[test]
fn positive_delay_waits_that_long_and_succeeds() {
    for d in [1i32, 7, 250, 1000, 65_536] {
        let plan = plan_delay(d);
        assert_eq!(plan, DelayPlan::Wait { millis: d as u64 });
        assert_eq!(plan.status(), 0);
    }
}

#[test]
fn negative_delay_is_rejected_without_wait() {
    for d in [-1i32, -2, -1000, i32::MIN] {
        let plan = plan_delay(d);
        assert_eq!(plan, DelayPlan::Reject);
        assert_eq!(plan.status(), 1);
    }
}

#[test]
fn zero_delay_waits_nothing_and_succeeds() {
    let plan = plan_delay(0);
    assert_eq!(plan, DelayPlan::Wait { millis: 0 });
    assert_eq!(plan.status(), 0);
}

#[test]
fn repeated_requests_give_the_same_plan() {
    let first = plan_delay(40);
    for _ in 0..5 {
        let again = plan_delay(40);
        assert_eq!(again, first);
        assert_eq!(again, DelayPlan::Wait { millis: 40 });
        assert_eq!(again.status(), 0);
    }
    // A rejected request in between leaves the next one unaffected.
    assert_eq!(plan_delay(-3).status(), 1);
    assert_eq!(plan_delay(40), first);
}

#[test]
fn largest_delay_converts_and_succeeds() {
    let plan = plan_delay(2147483647);
    assert_eq!(plan, DelayPlan::Wait { millis: 2147483647 });
    assert_eq!(plan.status(), 0);
}

#[test]
fn conversion_keeps_non_negative_values() {
    assert_eq!(delay_millis(0), Some(0));
    assert_eq!(delay_millis(123), Some(123));
    assert_eq!(delay_millis(i32::MAX), Some(2147483647u64));
    assert_eq!(delay_millis(-1), None);
    assert_eq!(delay_millis(i32::MIN), None);
}

#[test]
fn status_codes_are_zero_and_one() {
    assert_eq!(STATUS_OK, 0);
    assert_eq!(STATUS_INVALID_DELAY, 1);
    assert_eq!(DelayPlan::Wait { millis: 5 }.status(), STATUS_OK);
    assert_eq!(DelayPlan::Reject.status(), STATUS_INVALID_DELAY);
}
