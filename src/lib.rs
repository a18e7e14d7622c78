//! Validation behind a blocking delay primitive: a requested delay in
//! milliseconds becomes either a wait followed by success, or an immediate
//! rejection. The wait itself is carried out by the caller of [`plan_delay`].
use vstd::prelude::*;

verus! {

/// Status code reported once the requested wait has run to completion.
pub const STATUS_OK: i32 = 0;

/// Status code reported, with no wait at all, when the requested delay is
/// not a non-negative duration.
pub const STATUS_INVALID_DELAY: i32 = 1;

/// The duration in milliseconds that a requested delay stands for, or `None`
/// where it cannot be one (a negative request).
pub open spec fn delay_millis_spec(delay_ms: i32) -> Option<u64> {
    if delay_ms >= 0 {
        Some(delay_ms as u64)
    } else {
        None
    }
}

/// Converts a requested delay into the milliseconds of a non-negative
/// duration; a negative request has no such duration.
pub fn delay_millis(delay_ms: i32) -> (r: Option<u64>)
    ensures
        r == delay_millis_spec(delay_ms),
        r matches Some(m) ==> m as int == delay_ms as int,
{
    match u64::try_from(delay_ms) {
        Ok(m) => Some(m),
        Err(_) => None,
    }
}

/// What a delay request comes to: a wait of `millis` milliseconds after which
/// the call succeeds, or a rejection that returns at once without waiting.
#[derive(Clone, Copy, Debug, PartialEq, Eq, Structural)]
pub enum DelayPlan {
    Wait { millis: u64 },
    Reject,
}

/// The plan for a requested delay.
pub open spec fn plan_spec(delay_ms: i32) -> DelayPlan {
    match delay_millis_spec(delay_ms) {
        Some(m) => DelayPlan::Wait { millis: m },
        None => DelayPlan::Reject,
    }
}

impl DelayPlan {
    /// The status code reported once the plan has been carried out.
    pub open spec fn status_spec(self) -> i32 {
        match self {
            DelayPlan::Wait { .. } => STATUS_OK,
            DelayPlan::Reject => STATUS_INVALID_DELAY,
        }
    }

    /// How long carrying out the plan blocks, in milliseconds.
    pub open spec fn wait_spec(self) -> nat {
        match self {
            DelayPlan::Wait { millis } => millis as nat,
            DelayPlan::Reject => 0,
        }
    }

    /// The status code to report once the plan has been carried out: success
    /// after a wait, the invalid-input code after a rejection.
    pub fn status(&self) -> (r: i32)
        ensures
            r == self.status_spec(),
            *self is Wait ==> r == STATUS_OK,
            *self is Reject ==> r == STATUS_INVALID_DELAY,
    {
        match self {
            DelayPlan::Wait { .. } => STATUS_OK,
            DelayPlan::Reject => STATUS_INVALID_DELAY,
        }
    }
}

/// Decides what a request for `delay_ms` milliseconds does: a non-negative
/// request waits exactly that long, a negative one is rejected with no wait.
pub fn plan_delay(delay_ms: i32) -> (r: DelayPlan)
    ensures
        r == plan_spec(delay_ms),
        delay_ms >= 0 ==> r == (DelayPlan::Wait { millis: delay_ms as u64 }),
        delay_ms < 0 ==> r == DelayPlan::Reject,
{
    match delay_millis(delay_ms) {
        Some(m) => DelayPlan::Wait { millis: m },
        None => DelayPlan::Reject,
    }
}

/// A non-negative request blocks for exactly the requested number of
/// milliseconds and then reports success.
pub proof fn lemma_valid_delay_waits_then_succeeds(delay_ms: i32)
    requires
        delay_ms >= 0,
    ensures
        plan_spec(delay_ms).wait_spec() == delay_ms as int,
        plan_spec(delay_ms).status_spec() == STATUS_OK,
{
}

/// A negative request reports invalid input and does not wait at all.
pub proof fn lemma_negative_delay_rejected_without_wait(delay_ms: i32)
    requires
        delay_ms < 0,
    ensures
        plan_spec(delay_ms) == DelayPlan::Reject,
        plan_spec(delay_ms).wait_spec() == 0,
        plan_spec(delay_ms).status_spec() == STATUS_INVALID_DELAY,
{
}

/// Requests repeated with one valid delay each get the same plan: every one
/// waits the full delay and reports success, whatever came before it.
pub proof fn lemma_repeated_requests_agree(requests: Seq<i32>, delay_ms: i32)
    requires
        delay_ms >= 0,
        forall|i: int| 0 <= i < requests.len() ==> requests[i] == delay_ms,
    ensures
        forall|i: int|
            0 <= i < requests.len() ==> {
                &&& #[trigger] plan_spec(requests[i]) == plan_spec(delay_ms)
                &&& plan_spec(requests[i]).wait_spec() == delay_ms as int
                &&& plan_spec(requests[i]).status_spec() == STATUS_OK
            },
{
}

} // verus!
