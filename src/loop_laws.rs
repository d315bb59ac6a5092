use vstd::prelude::*;
use crate::control_flow::{ControlFlow, StartCause};
use crate::event::Event;
use crate::event_loop::{Action, LoopView, Phase, in_iteration, next, rank, stopped};
use crate::redraw::lemma_coalesced_once_each;

verus! {

/// Every step keeps the driver's invariant, never forgets a submitted user
/// event, and delivers at most the oldest queued one.
pub proof fn lemma_next_wf<T, N>(v: LoopView<T>, now: u64, native_pending: bool)
    requires
        v.wf(),
    ensures
        next::<T, N>(v, now, native_pending).0.wf(),
        next::<T, N>(v, now, native_pending).0.submitted_user == v.submitted_user,
        next::<T, N>(v, now, native_pending).0.iteration >= v.iteration,
        ({
            let (w, a) = next::<T, N>(v, now, native_pending);
            match a {
                Action::Deliver(Event::UserEvent(e)) => v.user_events.len() > 0 && e
                    == v.user_events[0] && w.delivered_user == v.delivered_user.push(e),
                _ => w.delivered_user == v.delivered_user,
            }
        }),
        ({
            let (w, a) = next::<T, N>(v, now, native_pending);
            &&& (a matches Action::Deliver(Event::Resumed) ==> v.phase == Phase::Resumed)
            &&& (a matches Action::Deliver(Event::NewEvents(StartCause::Init)) ==> v.phase
                == Phase::Start && v.cause is Init && w.phase == Phase::Resumed)
        }),
        ({
            let (w, a) = next::<T, N>(v, now, native_pending);
            (v.control_flow.is_exit() && !in_iteration(v.phase) && !v.io_failed) ==> {
                &&& w.control_flow == v.control_flow
                &&& !in_iteration(w.phase)
                &&& !w.io_failed
                &&& match a {
                    Action::Deliver(e) => e is LoopDestroyed,
                    Action::Exit(k) => v.control_flow == ControlFlow::ExitWithCode(k),
                    _ => false,
                }
            }
        }),
        ({
            let (w, a) = next::<T, N>(v, now, native_pending);
            (v.phase == Phase::Plan && (v.control_flow == ControlFlow::Poll || (
            v.control_flow matches ControlFlow::WaitUntil(d) && d <= now))) ==> {
                &&& w.plan.timeout == Some(0u64)
                &&& match a {
                    Action::Block { timeout } => timeout == Some(0u64),
                    Action::Deliver(Event::NewEvents(cause)) => v.control_flow
                        == ControlFlow::Poll ==> cause == StartCause::Poll,
                    _ => false,
                }
            }
        }),
    decreases rank(v.phase),
{
    match v.phase {
        Phase::Tokens => {
            if v.activation_tokens.len() == 0 {
                lemma_next_wf::<T, N>(LoopView { phase: Phase::User, ..v }, now, native_pending);
            }
        },
        Phase::User => {
            if v.user_events.len() == 0 {
                lemma_next_wf::<T, N>(LoopView { phase: Phase::MainCleared, ..v }, now, native_pending);
            } else {
                let w = next::<T, N>(v, now, native_pending).0;
                assert(w.submitted_user =~= w.delivered_user + w.user_events);
            }
        },
        Phase::Coalesce => {
            let u = LoopView {
                phase: Phase::Redraw,
                redraw_batch: crate::redraw::coalesced(v.redraw_events),
                redraw_next: 0,
                batch_requests: v.redraw_events,
                redraw_events: Seq::empty(),
                ..v
            };
            lemma_next_wf::<T, N>(u, now, native_pending);
        },
        Phase::Redraw => {
            if v.redraw_next >= v.redraw_batch.len() {
                lemma_next_wf::<T, N>(LoopView { phase: Phase::RedrawCleared, ..v }, now, native_pending);
            }
        },
        Phase::Plan => {
            match v.control_flow {
                ControlFlow::ExitWithCode(c) => {
                    lemma_next_wf::<T, N>(
                        stopped(LoopView { iteration: v.iteration + 1, ..v }, c),
                        now,
                        native_pending,
                    );
                },
                _ => {
                    let p = crate::control_flow::wait_plan_of(v.control_flow, now)->0;
                    let i = LoopView {
                        phase: Phase::Idle,
                        plan: p,
                        cause: p.next_cause,
                        iteration: v.iteration + 1,
                        ..v
                    };
                    lemma_next_wf::<T, N>(i, now, native_pending);
                    assert(next::<T, N>(v, now, native_pending) == next::<T, N>(i, now, native_pending));
                    if i.has_pending(native_pending) {
                        let k = LoopView { phase: Phase::Waking, ..i };
                        let st = LoopView {
                            phase: Phase::Start,
                            cause: crate::control_flow::resume_cause_of(k.plan, now),
                            ..k
                        };
                        assert(next::<T, N>(i, now, native_pending) == next::<T, N>(k, now, native_pending));
                        assert(next::<T, N>(k, now, native_pending) == next::<T, N>(st, now, native_pending));
                    }
                },
            }
        },
        Phase::Idle => {
            match v.control_flow {
                ControlFlow::ExitWithCode(c) => {
                    lemma_next_wf::<T, N>(stopped(v, c), now, native_pending);
                },
                _ => {
                    if v.has_pending(native_pending) {
                        lemma_next_wf::<T, N>(LoopView { phase: Phase::Waking, ..v }, now, native_pending);
                    }
                },
            }
        },
        Phase::Blocked => {
            match v.control_flow {
                ControlFlow::ExitWithCode(c) => {
                    lemma_next_wf::<T, N>(stopped(v, c), now, native_pending);
                },
                _ => {},
            }
        },
        Phase::Waking => {
            match v.control_flow {
                ControlFlow::ExitWithCode(c) => {
                    lemma_next_wf::<T, N>(stopped(v, c), now, native_pending);
                },
                _ => {
                    let u = LoopView {
                        phase: Phase::Start,
                        cause: crate::control_flow::resume_cause_of(v.plan, now),
                        ..v
                    };
                    lemma_next_wf::<T, N>(u, now, native_pending);
                },
            }
        },
        _ => {},
    }
}

/// User events come out in the order they were submitted, each exactly once:
/// in every state the submitted events are those delivered followed by those
/// still queued, a step never drops or reorders one, and the only user event
/// a step can deliver is the oldest queued one.
pub proof fn lemma_user_events_fifo<T, N>(v: LoopView<T>, now: u64, native_pending: bool)
    requires
        v.wf(),
    ensures
        v.submitted_user == v.delivered_user + v.user_events,
        ({
            let (w, a) = next::<T, N>(v, now, native_pending);
            &&& w.submitted_user == v.submitted_user
            &&& w.submitted_user == w.delivered_user + w.user_events
            &&& match a {
                Action::Deliver(Event::UserEvent(e)) => e == v.user_events[0] && w.delivered_user
                    == v.delivered_user.push(e),
                _ => w.delivered_user == v.delivered_user,
            }
        }),
{
    lemma_next_wf::<T, N>(v, now, native_pending);
}

/// However often a window's redraw was requested before a batch was formed,
/// the batch names it exactly once, and names no window that was not
/// requested; the steps of the `Redraw` phase deliver the batch in order.
pub proof fn lemma_redraw_once_per_window<T>(v: LoopView<T>)
    requires
        v.wf(),
    ensures
        v.redraw_batch.no_duplicates(),
        forall|w| #[trigger] v.redraw_batch.contains(w) <==> v.batch_requests.contains(w),
{
    lemma_coalesced_once_each(v.batch_requests);
}

/// Under `Poll`, the wait planned at the end of an iteration is zero long,
/// so the loop never blocks, whether or not anything is pending.
pub proof fn lemma_poll_never_waits<T, N>(v: LoopView<T>, now: u64, native_pending: bool)
    requires
        v.wf(),
        v.phase == Phase::Plan,
        v.control_flow == ControlFlow::Poll,
    ensures
        ({
            let (w, a) = next::<T, N>(v, now, native_pending);
            &&& w.plan.timeout == Some(0u64)
            &&& match a {
                Action::Block { timeout } => timeout == Some(0u64),
                Action::Deliver(Event::NewEvents(cause)) => cause == StartCause::Poll,
                _ => false,
            }
        }),
{
    lemma_next_wf::<T, N>(v, now, native_pending);
}

/// Under `WaitUntil(d)` with `d` not after the end of the iteration, the
/// planned wait is zero long, never negative or unbounded.
pub proof fn lemma_past_deadline_never_waits<T, N>(
    v: LoopView<T>,
    d: u64,
    now: u64,
    native_pending: bool,
)
    requires
        v.wf(),
        v.phase == Phase::Plan,
        v.control_flow == ControlFlow::WaitUntil(d),
        d <= now,
    ensures
        ({
            let (w, a) = next::<T, N>(v, now, native_pending);
            &&& w.plan.timeout == Some(0u64)
            &&& match a {
                Action::Block { timeout } => timeout == Some(0u64),
                _ => true,
            }
        }),
{
    lemma_next_wf::<T, N>(v, now, native_pending);
}

/// Once an iteration has ended under `ExitWithCode(c)`, the driver delivers
/// nothing but `LoopDestroyed`, asks for no more work, never starts another
/// iteration, and stops with `c` (unless the loop had already ended on a
/// failed wait).
pub proof fn lemma_exit_is_final<T, N>(v: LoopView<T>, c: i32, now: u64, native_pending: bool)
    requires
        v.wf(),
        v.control_flow == ControlFlow::ExitWithCode(c),
        !in_iteration(v.phase),
        !v.io_failed,
    ensures
        ({
            let (w, a) = next::<T, N>(v, now, native_pending);
            &&& w.control_flow == v.control_flow
            &&& !in_iteration(w.phase)
            &&& !w.io_failed
            &&& match a {
                Action::Deliver(e) => e is LoopDestroyed,
                Action::Exit(k) => k == c,
                _ => false,
            }
        }),
{
    lemma_next_wf::<T, N>(v, now, native_pending);
}

/// `Resumed` is delivered in the first iteration only, right after its
/// `NewEvents(Init)`; every later iteration starts with another cause.
pub proof fn lemma_resumed_only_first<T, N>(v: LoopView<T>, now: u64, native_pending: bool)
    requires
        v.wf(),
    ensures
        ({
            let (w, a) = next::<T, N>(v, now, native_pending);
            &&& (a matches Action::Deliver(Event::Resumed) ==> v.iteration == 0)
            &&& (a matches Action::Deliver(Event::NewEvents(StartCause::Init)) ==> v.iteration == 0
                && w.phase == Phase::Resumed)
            &&& (v.phase == Phase::Resumed ==> a matches Action::Deliver(Event::Resumed))
            &&& (v.iteration > 0 ==> !(a matches Action::Deliver(Event::Resumed)))
        }),
{
    lemma_next_wf::<T, N>(v, now, native_pending);
}

} // verus!
