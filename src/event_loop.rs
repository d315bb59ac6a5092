use vstd::prelude::*;
use std::collections::VecDeque;
use crate::control_flow::{
    ControlFlow, StartCause, WaitPlan, plan_wait, resume_cause, resume_cause_of,
    sticky_control_flow, sticky_of,
};
use crate::event::{Event, NativeEvent, WindowId};
use crate::redraw::{coalesce_redraws, coalesced};

verus! {

/// Where the driver stands. An iteration runs from `Start` to `Plan`; between
/// iterations it is `Idle`, `Blocked` or `Waking`; `Destroy` and `Done` end it.
#[derive(Debug, Copy, Clone, PartialEq, Eq, Structural)]
pub enum Phase {
    Start,
    Resumed,
    Native,
    Tokens,
    User,
    MainCleared,
    CollectRedraws,
    Coalesce,
    Redraw,
    RedrawCleared,
    Plan,
    Idle,
    Blocked,
    Waking,
    Destroy,
    Done,
}

/// What the driver asks of whoever runs it.
#[derive(Debug)]
pub enum Action<T, N> {
    /// Call the application callback with this event, then report the
    /// control flow it left with `set_control_flow`.
    Deliver(Event<T, N>),
    /// Pop every native event available, decode it, and route each
    /// decoded event through `route_native`.
    DrainNative,
    /// Ask the window for an activation token, and deliver what
    /// `activation_event` makes of the outcome.
    ResolveToken { window_id: WindowId, serial: u64 },
    /// Move every redraw request still in transit into `request_redraw`.
    CollectRedraws,
    /// Block until a source is ready or the timeout (in nanoseconds; none:
    /// without limit) runs out, then report with `woke`.
    Block { timeout: Option<u64> },
    /// The loop is over; return this code.
    Exit(i32),
}

/// The abstract state of the driver.
pub struct LoopView<T> {
    pub control_flow: ControlFlow,
    /// The cause of the iteration that runs or comes next.
    pub cause: StartCause,
    pub phase: Phase,
    /// The wait planned at the end of the last iteration.
    pub plan: WaitPlan,
    pub user_events: Seq<T>,
    pub redraw_events: Seq<WindowId>,
    pub activation_tokens: Seq<(WindowId, u64)>,
    /// The coalesced redraws of this iteration, and how many went out.
    pub redraw_batch: Seq<WindowId>,
    pub redraw_next: int,
    /// The redraw requests the batch was made of.
    pub batch_requests: Seq<WindowId>,
    pub exit_code: Option<i32>,
    /// The wait failed; the loop ends with the failure's code.
    pub io_failed: bool,
    /// How many iterations have finished.
    pub iteration: nat,
    /// Every user event ever submitted, and those delivered, in order.
    pub submitted_user: Seq<T>,
    pub delivered_user: Seq<T>,
}

/// Whether the phase lies inside an iteration, after its start.
pub open spec fn in_iteration(p: Phase) -> bool {
    match p {
        Phase::Plan | Phase::Idle | Phase::Blocked | Phase::Waking | Phase::Destroy | Phase::Done => false,
        _ => true,
    }
}

pub open spec fn is_over(p: Phase) -> bool {
    p == Phase::Destroy || p == Phase::Done
}

impl<T> LoopView<T> {
    /// The invariant of the driver.
    pub open spec fn wf(self) -> bool {
        &&& 0 <= self.redraw_next <= self.redraw_batch.len()
        &&& self.redraw_batch == coalesced(self.batch_requests)
        &&& self.submitted_user == self.delivered_user + self.user_events
        &&& (self.cause is Init ==> self.iteration == 0 || is_over(self.phase))
        &&& (self.phase == Phase::Resumed ==> self.cause is Init)
        &&& !(self.plan.next_cause is Init)
        &&& (self.exit_code is Some <==> is_over(self.phase))
        &&& (self.io_failed ==> is_over(self.phase))
        &&& (self.exit_code matches Some(k) ==> self.io_failed || self.control_flow
            == ControlFlow::ExitWithCode(k))
    }

    /// Whether some work is buffered, given whether the server connection has
    /// events ready (activation tokens do not count).
    pub open spec fn has_pending(self, native_pending: bool) -> bool {
        native_pending || self.user_events.len() > 0 || self.redraw_events.len() > 0
    }
}

pub open spec fn rank(p: Phase) -> nat {
    match p {
        Phase::Plan => 3,
        Phase::Idle => 2,
        Phase::Waking => 1,
        Phase::Blocked => 1,
        Phase::Tokens => 2,
        Phase::User => 1,
        Phase::Coalesce => 2,
        Phase::Redraw => 1,
        _ => 0,
    }
}

/// The state after the loop stops with `code`.
pub open spec fn stopped<T>(v: LoopView<T>, code: i32) -> LoopView<T> {
    LoopView { phase: Phase::Destroy, exit_code: Some(code), ..v }
}

/// One step of the driver: the next state, and what it asks for. `now` is
/// the current instant; `native_pending` whether the server connection has
/// events ready.
pub open spec fn next<T, N>(v: LoopView<T>, now: u64, native_pending: bool) -> (LoopView<T>, Action<T, N>)
    decreases rank(v.phase),
{
    match v.phase {
        Phase::Start => (
            LoopView {
                phase: if v.cause is Init {
                    Phase::Resumed
                } else {
                    Phase::Native
                },
                ..v
            },
            Action::Deliver(Event::NewEvents(v.cause)),
        ),
        Phase::Resumed => (LoopView { phase: Phase::Native, ..v }, Action::Deliver(Event::Resumed)),
        Phase::Native => (LoopView { phase: Phase::Tokens, ..v }, Action::DrainNative),
        Phase::Tokens => if v.activation_tokens.len() > 0 {
            (
                LoopView { activation_tokens: v.activation_tokens.drop_first(), ..v },
                Action::ResolveToken {
                    window_id: v.activation_tokens[0].0,
                    serial: v.activation_tokens[0].1,
                },
            )
        } else {
            next(LoopView { phase: Phase::User, ..v }, now, native_pending)
        },
        Phase::User => if v.user_events.len() > 0 {
            (
                LoopView {
                    user_events: v.user_events.drop_first(),
                    delivered_user: v.delivered_user.push(v.user_events[0]),
                    ..v
                },
                Action::Deliver(Event::UserEvent(v.user_events[0])),
            )
        } else {
            next(LoopView { phase: Phase::MainCleared, ..v }, now, native_pending)
        },
        Phase::MainCleared => (
            LoopView { phase: Phase::CollectRedraws, ..v },
            Action::Deliver(Event::MainEventsCleared),
        ),
        Phase::CollectRedraws => (LoopView { phase: Phase::Coalesce, ..v }, Action::CollectRedraws),
        Phase::Coalesce => next(
            LoopView {
                phase: Phase::Redraw,
                redraw_batch: coalesced(v.redraw_events),
                redraw_next: 0,
                batch_requests: v.redraw_events,
                redraw_events: Seq::empty(),
                ..v
            },
            now,
            native_pending,
        ),
        Phase::Redraw => if v.redraw_next < v.redraw_batch.len() {
            (
                LoopView { redraw_next: v.redraw_next + 1, ..v },
                Action::Deliver(Event::RedrawRequested(v.redraw_batch[v.redraw_next])),
            )
        } else {
            next(LoopView { phase: Phase::RedrawCleared, ..v }, now, native_pending)
        },
        Phase::RedrawCleared => (
            LoopView { phase: Phase::Plan, ..v },
            Action::Deliver(Event::RedrawEventsCleared),
        ),
        Phase::Plan => match v.control_flow {
            ControlFlow::ExitWithCode(c) => next(
                stopped(LoopView { iteration: v.iteration + 1, ..v }, c),
                now,
                native_pending,
            ),
            _ => {
                let p = crate::control_flow::wait_plan_of(v.control_flow, now)->0;
                next(
                    LoopView {
                        phase: Phase::Idle,
                        plan: p,
                        cause: p.next_cause,
                        iteration: v.iteration + 1,
                        ..v
                    },
                    now,
                    native_pending,
                )
            },
        },
        Phase::Idle => match v.control_flow {
            ControlFlow::ExitWithCode(c) => next(stopped(v, c), now, native_pending),
            _ => if v.has_pending(native_pending) {
                next(LoopView { phase: Phase::Waking, ..v }, now, native_pending)
            } else {
                (LoopView { phase: Phase::Blocked, ..v }, Action::Block { timeout: v.plan.timeout })
            },
        },
        Phase::Blocked => match v.control_flow {
            ControlFlow::ExitWithCode(c) => next(stopped(v, c), now, native_pending),
            _ => (v, Action::Block { timeout: v.plan.timeout }),
        },
        Phase::Waking => match v.control_flow {
            ControlFlow::ExitWithCode(c) => next(stopped(v, c), now, native_pending),
            _ => next(
                LoopView { phase: Phase::Start, cause: resume_cause_of(v.plan, now), ..v },
                now,
                native_pending,
            ),
        },
        Phase::Destroy => (LoopView { phase: Phase::Done, ..v }, Action::Deliver(Event::LoopDestroyed)),
        Phase::Done => (
            v,
            Action::Exit(
                match v.exit_code {
                    Some(k) => k,
                    None => 0,
                },
            ),
        ),
    }
}

/// The decision core of the event loop: its queues, its control flow, and
/// where the current iteration stands. The thread that runs the loop owns it;
/// whatever runs it performs the actions that `step` returns.
pub struct EventLoopCore<T> {
    control_flow: ControlFlow,
    cause: StartCause,
    phase: Phase,
    plan: WaitPlan,
    user_events: VecDeque<T>,
    redraw_events: VecDeque<WindowId>,
    activation_tokens: VecDeque<(WindowId, u64)>,
    redraw_batch: Vec<WindowId>,
    redraw_next: usize,
    batch_requests: Ghost<Seq<WindowId>>,
    exit_code: Option<i32>,
    io_failed: bool,
    iteration: Ghost<nat>,
    submitted_user: Ghost<Seq<T>>,
    delivered_user: Ghost<Seq<T>>,
}

impl<T> View for EventLoopCore<T> {
    type V = LoopView<T>;

    closed spec fn view(&self) -> LoopView<T> {
        LoopView {
            control_flow: self.control_flow,
            cause: self.cause,
            phase: self.phase,
            plan: self.plan,
            user_events: self.user_events@,
            redraw_events: self.redraw_events@,
            activation_tokens: self.activation_tokens@,
            redraw_batch: self.redraw_batch@,
            redraw_next: self.redraw_next as int,
            batch_requests: self.batch_requests@,
            exit_code: self.exit_code,
            io_failed: self.io_failed,
            iteration: self.iteration@,
            submitted_user: self.submitted_user@,
            delivered_user: self.delivered_user@,
        }
    }
}

impl<T> EventLoopCore<T> {
    /// A loop about to run its first iteration, under `Poll`, with empty queues.
    pub fn new() -> (r: EventLoopCore<T>)
        ensures
            r@.wf(),
            r@.control_flow == ControlFlow::Poll,
            r@.cause == StartCause::Init,
            r@.phase == Phase::Start,
            r@.user_events.len() == 0,
            r@.redraw_events.len() == 0,
            r@.activation_tokens.len() == 0,
            r@.redraw_batch.len() == 0,
            r@.exit_code is None,
            !r@.io_failed,
            r@.iteration == 0,
            r@.submitted_user.len() == 0,
            r@.delivered_user.len() == 0,
    {
        let r = EventLoopCore {
            control_flow: ControlFlow::Poll,
            cause: StartCause::Init,
            phase: Phase::Start,
            plan: WaitPlan { deadline: None, timeout: Some(0), wait_start: 0, next_cause: StartCause::Poll },
            user_events: VecDeque::new(),
            redraw_events: VecDeque::new(),
            activation_tokens: VecDeque::new(),
            redraw_batch: Vec::new(),
            redraw_next: 0,
            batch_requests: Ghost(Seq::empty()),
            exit_code: None,
            io_failed: false,
            iteration: Ghost(0),
            submitted_user: Ghost(Seq::empty()),
            delivered_user: Ghost(Seq::empty()),
        };
        assert(r@.submitted_user =~= r@.delivered_user + r@.user_events);
        assert(coalesced(Seq::<WindowId>::empty()) =~= Seq::<WindowId>::empty());
        r
    }

    pub fn control_flow(&self) -> (r: ControlFlow)
        ensures
            r == self@.control_flow,
    {
        self.control_flow
    }

    pub fn cause(&self) -> (r: StartCause)
        ensures
            r == self@.cause,
    {
        self.cause
    }

    pub fn phase(&self) -> (r: Phase)
        ensures
            r == self@.phase,
    {
        self.phase
    }

    /// Whether work is buffered: server events (as reported), user events or
    /// redraw requests. Activation tokens alone do not count.
    pub fn has_pending(&self, native_pending: bool) -> (r: bool)
        ensures
            r == self@.has_pending(native_pending),
    {
        native_pending || self.user_events.len() > 0 || self.redraw_events.len() > 0
    }

    /// Queues a user event behind those already submitted.
    pub fn push_user_event(&mut self, event: T)
        requires
            old(self)@.wf(),
        ensures
            final(self)@.wf(),
            final(self)@ == (LoopView {
                user_events: old(self)@.user_events.push(event),
                submitted_user: old(self)@.submitted_user.push(event),
                ..old(self)@
            }),
    {
        let ghost e = event;
        self.user_events.push_back(event);
        self.submitted_user = Ghost(self.submitted_user@.push(e));
        assert(self@.submitted_user =~= self@.delivered_user + self@.user_events);
    }

    /// Queues a redraw request for a window.
    pub fn request_redraw(&mut self, window_id: WindowId)
        requires
            old(self)@.wf(),
        ensures
            final(self)@.wf(),
            final(self)@ == (LoopView {
                redraw_events: old(self)@.redraw_events.push(window_id),
                ..old(self)@
            }),
    {
        self.redraw_events.push_back(window_id);
    }

    /// Queues a finished activation-token request.
    pub fn push_activation_token(&mut self, window_id: WindowId, serial: u64)
        requires
            old(self)@.wf(),
        ensures
            final(self)@.wf(),
            final(self)@ == (LoopView {
                activation_tokens: old(self)@.activation_tokens.push((window_id, serial)),
                ..old(self)@
            }),
    {
        self.activation_tokens.push_back((window_id, serial));
    }

    /// Routes an event decoded from a server event: a redraw request joins the
    /// redraw queue, so that it is delivered once, with the redraws of the
    /// iteration; any other event is returned, to be delivered at once.
    pub fn route_native<N>(&mut self, event: NativeEvent<N>) -> (r: Option<Event<T, N>>)
        requires
            old(self)@.wf(),
        ensures
            final(self)@.wf(),
            match event {
                NativeEvent::RedrawRequested(w) => r is None && final(self)@ == (LoopView {
                    redraw_events: old(self)@.redraw_events.push(w),
                    ..old(self)@
                }),
                NativeEvent::Other(n) => r == Some(Event::<T, N>::Native(n)) && final(self)@
                    == old(self)@,
            },
    {
        match event {
            NativeEvent::RedrawRequested(w) => {
                self.request_redraw(w);
                None
            },
            NativeEvent::Other(n) => Some(Event::Native(n)),
        }
    }

    /// Takes the control flow a callback left; an exit, once set, stays.
    pub fn set_control_flow(&mut self, requested: ControlFlow)
        requires
            old(self)@.wf(),
        ensures
            final(self)@.wf(),
            final(self)@ == (LoopView {
                control_flow: sticky_of(old(self)@.control_flow, requested),
                ..old(self)@
            }),
    {
        self.control_flow = sticky_control_flow(self.control_flow, requested);
    }

    /// Reports how a `Block` ended. A failed wait ends the loop with the
    /// failure's code, unless an exit is already set; after a successful wait
    /// under `Wait` the driver checks again for work before it runs an
    /// iteration, so that an empty wake-up does not run one.
    pub fn woke(&mut self, result: Result<(), i32>)
        requires
            old(self)@.wf(),
        ensures
            final(self)@.wf(),
            old(self)@.phase != Phase::Blocked ==> final(self)@ == old(self)@,
            old(self)@.phase == Phase::Blocked ==> final(self)@ == match result {
                Err(code) => if old(self)@.control_flow.is_exit() {
                    LoopView { phase: Phase::Idle, ..old(self)@ }
                } else {
                    LoopView { io_failed: true, ..stopped(old(self)@, code) }
                },
                Ok(()) => if old(self)@.control_flow == ControlFlow::Wait {
                    LoopView { phase: Phase::Idle, ..old(self)@ }
                } else {
                    LoopView { phase: Phase::Waking, ..old(self)@ }
                },
            },
    {
        if self.phase != Phase::Blocked {
            return;
        }
        match result {
            Err(code) => {
                match self.control_flow {
                    ControlFlow::ExitWithCode(_) => {
                        self.phase = Phase::Idle;
                    },
                    _ => {
                        self.phase = Phase::Destroy;
                        self.exit_code = Some(code);
                        self.io_failed = true;
                    },
                }
            },
            Ok(()) => {
                if self.control_flow == ControlFlow::Wait {
                    self.phase = Phase::Idle;
                } else {
                    self.phase = Phase::Waking;
                }
            },
        }
    }

    /// Advances the loop to the next thing it needs done. `now` is the
    /// current instant; `native_pending` whether the server connection has
    /// events ready.
    pub fn step<N>(&mut self, now: u64, native_pending: bool) -> (r: Action<T, N>)
        requires
            old(self)@.wf(),
        ensures
            final(self)@.wf(),
            (final(self)@, r) == next::<T, N>(old(self)@, now, native_pending),
    {
        loop
            invariant
                self@.wf(),
                next::<T, N>(self@, now, native_pending) == next::<T, N>(old(self)@, now, native_pending),
            decreases rank(self@.phase),
        {
            match self.phase {
                Phase::Start => {
                    let cause = self.cause;
                    self.phase = match cause {
                        StartCause::Init => Phase::Resumed,
                        _ => Phase::Native,
                    };
                    return Action::Deliver(Event::NewEvents(cause));
                },
                Phase::Resumed => {
                    self.phase = Phase::Native;
                    return Action::Deliver(Event::Resumed);
                },
                Phase::Native => {
                    self.phase = Phase::Tokens;
                    return Action::DrainNative;
                },
                Phase::Tokens => {
                    match self.activation_tokens.pop_front() {
                        Some((window_id, serial)) => {
                            return Action::ResolveToken { window_id, serial };
                        },
                        None => {
                            self.phase = Phase::User;
                        },
                    }
                },
                Phase::User => {
                    match self.user_events.pop_front() {
                        Some(event) => {
                            let ghost e = event;
                            self.delivered_user = Ghost(self.delivered_user@.push(e));
                            proof {
                                assert(self@.submitted_user =~= self@.delivered_user + self@.user_events);
                            }
                            return Action::Deliver(Event::UserEvent(event));
                        },
                        None => {
                            self.phase = Phase::MainCleared;
                        },
                    }
                },
                Phase::MainCleared => {
                    self.phase = Phase::CollectRedraws;
                    return Action::Deliver(Event::MainEventsCleared);
                },
                Phase::CollectRedraws => {
                    self.phase = Phase::Coalesce;
                    return Action::CollectRedraws;
                },
                Phase::Coalesce => {
                    let batch = coalesce_redraws(&self.redraw_events);
                    self.batch_requests = Ghost(self.redraw_events@);
                    self.redraw_events.clear();
                    self.redraw_batch = batch;
                    self.redraw_next = 0;
                    self.phase = Phase::Redraw;
                },
                Phase::Redraw => {
                    if self.redraw_next < self.redraw_batch.len() {
                        let w = self.redraw_batch[self.redraw_next];
                        self.redraw_next = self.redraw_next + 1;
                        return Action::Deliver(Event::RedrawRequested(w));
                    } else {
                        self.phase = Phase::RedrawCleared;
                    }
                },
                Phase::RedrawCleared => {
                    self.phase = Phase::Plan;
                    return Action::Deliver(Event::RedrawEventsCleared);
                },
                Phase::Plan => {
                    match self.control_flow {
                        ControlFlow::ExitWithCode(c) => {
                            self.iteration = Ghost(self.iteration@ + 1);
                            self.phase = Phase::Destroy;
                            self.exit_code = Some(c);
                        },
                        _ => {
                            if let Some(p) = plan_wait(self.control_flow, now) {
                                self.iteration = Ghost(self.iteration@ + 1);
                                self.plan = p;
                                self.cause = p.next_cause;
                                self.phase = Phase::Idle;
                            }
                        },
                    }
                },
                Phase::Idle => {
                    match self.control_flow {
                        ControlFlow::ExitWithCode(c) => {
                            self.phase = Phase::Destroy;
                            self.exit_code = Some(c);
                        },
                        _ => {
                            if self.has_pending(native_pending) {
                                self.phase = Phase::Waking;
                            } else {
                                self.phase = Phase::Blocked;
                                return Action::Block { timeout: self.plan.timeout };
                            }
                        },
                    }
                },
                Phase::Blocked => {
                    match self.control_flow {
                        ControlFlow::ExitWithCode(c) => {
                            self.phase = Phase::Destroy;
                            self.exit_code = Some(c);
                        },
                        _ => {
                            return Action::Block { timeout: self.plan.timeout };
                        },
                    }
                },
                Phase::Waking => {
                    match self.control_flow {
                        ControlFlow::ExitWithCode(c) => {
                            self.phase = Phase::Destroy;
                            self.exit_code = Some(c);
                        },
                        _ => {
                            self.cause = resume_cause(&self.plan, now);
                            self.phase = Phase::Start;
                        },
                    }
                },
                Phase::Destroy => {
                    self.phase = Phase::Done;
                    return Action::Deliver(Event::LoopDestroyed);
                },
                Phase::Done => {
                    let code = match self.exit_code {
                        Some(k) => k,
                        None => 0,
                    };
                    return Action::Exit(code);
                },
            }
        }
    }
}

} // verus!
