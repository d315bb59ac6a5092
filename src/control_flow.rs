use vstd::prelude::*;

verus! {

/// The scheduling mode the application asks for. Instants are nanoseconds
/// since an origin that the caller chooses once per loop.
#[derive(Debug, Copy, Clone, PartialEq, Eq, Structural)]
pub enum ControlFlow {
    /// Never block between iterations.
    Poll,
    /// Block until some source has work.
    Wait,
    /// Block until the given instant, or until some source has work.
    WaitUntil(u64),
    /// Stop after the current iteration; the loop returns the code.
    ExitWithCode(i32),
}

/// Why an iteration began.
#[derive(Debug, Copy, Clone, PartialEq, Eq, Structural)]
pub enum StartCause {
    /// The first iteration of the loop.
    Init,
    /// The previous iteration ran under `ControlFlow::Poll`.
    Poll,
    /// The wait ended before the requested instant (or had none).
    WaitCancelled { start: u64, requested_resume: Option<u64> },
    /// The requested instant was reached.
    ResumeTimeReached { start: u64, requested_resume: u64 },
}

/// What the loop does between two iterations: how long to wait, until
/// which instant, and why the next iteration starts if the wait runs out.
#[derive(Debug, Copy, Clone, PartialEq, Eq, Structural)]
pub struct WaitPlan {
    /// The instant asked for with `WaitUntil`.
    pub deadline: Option<u64>,
    /// How long to block, in nanoseconds; `None` blocks without limit.
    pub timeout: Option<u64>,
    /// When the iteration ended and the wait began.
    pub wait_start: u64,
    /// The cause of the next iteration when the wait is not cut short.
    pub next_cause: StartCause,
}

impl ControlFlow {
    pub open spec fn is_exit(self) -> bool {
        self is ExitWithCode
    }
}

/// The plan that a mode gives at instant `now`; none for an exit.
pub open spec fn wait_plan_of(cf: ControlFlow, now: u64) -> Option<WaitPlan> {
    match cf {
        ControlFlow::ExitWithCode(_) => None,
        ControlFlow::Poll => Some(
            WaitPlan { deadline: None, timeout: Some(0), wait_start: now, next_cause: StartCause::Poll },
        ),
        ControlFlow::Wait => Some(
            WaitPlan {
                deadline: None,
                timeout: None,
                wait_start: now,
                next_cause: StartCause::WaitCancelled { start: now, requested_resume: None },
            },
        ),
        ControlFlow::WaitUntil(d) => Some(
            WaitPlan {
                deadline: Some(d),
                timeout: Some(if d > now { (d - now) as u64 } else { 0 }),
                wait_start: now,
                next_cause: StartCause::ResumeTimeReached { start: now, requested_resume: d },
            },
        ),
    }
}

/// The cause of the iteration that follows a wait under `plan`, woken at `now`.
pub open spec fn resume_cause_of(plan: WaitPlan, now: u64) -> StartCause {
    match plan.deadline {
        Some(d) => if now < d {
            StartCause::WaitCancelled { start: plan.wait_start, requested_resume: Some(d) }
        } else {
            plan.next_cause
        },
        None => plan.next_cause,
    }
}

/// The mode after a callback asked for `requested`: an exit, once set, stays.
pub open spec fn sticky_of(current: ControlFlow, requested: ControlFlow) -> ControlFlow {
    if current.is_exit() {
        current
    } else {
        requested
    }
}

/// Turns the mode in force at the end of an iteration into the wait that follows it.
pub fn plan_wait(cf: ControlFlow, now: u64) -> (r: Option<WaitPlan>)
    ensures
        r == wait_plan_of(cf, now),
{
    match cf {
        ControlFlow::ExitWithCode(_) => None,
        ControlFlow::Poll => Some(
            WaitPlan { deadline: None, timeout: Some(0), wait_start: now, next_cause: StartCause::Poll },
        ),
        ControlFlow::Wait => Some(
            WaitPlan {
                deadline: None,
                timeout: None,
                wait_start: now,
                next_cause: StartCause::WaitCancelled { start: now, requested_resume: None },
            },
        ),
        ControlFlow::WaitUntil(d) => {
            let timeout: u64 = if d > now {
                d - now
            } else {
                0
            };
            Some(
                WaitPlan {
                    deadline: Some(d),
                    timeout: Some(timeout),
                    wait_start: now,
                    next_cause: StartCause::ResumeTimeReached { start: now, requested_resume: d },
                },
            )
        },
    }
}

/// The cause of the next iteration, once the wait under `plan` ended at `now`:
/// a wake before the deadline cancels the wait.
pub fn resume_cause(plan: &WaitPlan, now: u64) -> (r: StartCause)
    ensures
        r == resume_cause_of(*plan, now),
{
    match plan.deadline {
        Some(d) => if now < d {
            StartCause::WaitCancelled { start: plan.wait_start, requested_resume: Some(d) }
        } else {
            plan.next_cause
        },
        None => plan.next_cause,
    }
}

/// Applies a change of mode asked for by a callback; an exit is never undone.
pub fn sticky_control_flow(current: ControlFlow, requested: ControlFlow) -> (r: ControlFlow)
    ensures
        r == sticky_of(current, requested),
{
    match current {
        ControlFlow::ExitWithCode(_) => current,
        _ => requested,
    }
}

/// A deadline at or before the instant the wait is planned gives a zero
/// timeout, never a negative or unbounded one.
pub proof fn lemma_past_deadline_waits_zero(d: u64, now: u64)
    requires
        d <= now,
    ensures
        wait_plan_of(ControlFlow::WaitUntil(d), now) is Some,
        wait_plan_of(ControlFlow::WaitUntil(d), now)->0.timeout == Some(0u64),
{
}

/// Under `Poll` every wait is zero long, whatever the instant and whatever
/// is pending, and the next iteration starts with the cause `Poll`.
pub proof fn lemma_poll_never_blocks(now: u64)
    ensures
        wait_plan_of(ControlFlow::Poll, now) is Some,
        wait_plan_of(ControlFlow::Poll, now)->0.timeout == Some(0u64),
        resume_cause_of(wait_plan_of(ControlFlow::Poll, now)->0, now) == StartCause::Poll,
{
}

/// An exit stays in force whatever a later callback asks for.
pub proof fn lemma_exit_is_sticky(code: i32, requested: ControlFlow)
    ensures
        sticky_of(ControlFlow::ExitWithCode(code), requested) == ControlFlow::ExitWithCode(code),
{
}

} // verus!
