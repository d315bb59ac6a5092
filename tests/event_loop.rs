use x11_event_core::control_flow::{ControlFlow, StartCause};
use x11_event_core::event::{activation_event, mkwid, Event, NativeEvent, TokenOutcome, WindowId};
use x11_event_core::event_loop::{Action, EventLoopCore, Phase};
use x11_event_core::redraw::coalesce_redraws;
use std::collections::VecDeque;

type Ev = Event<u32, &'static str>;

/// Runs the core until it blocks or exits, collecting what it delivers. The
/// callback may return a new control flow.
fn run_until_wait(
    core: &mut EventLoopCore<u32>,
    now: u64,
    natives: &mut Vec<NativeEvent<&'static str>>,
    callback: &mut dyn FnMut(&Ev) -> Option<ControlFlow>,
) -> (Vec<Ev>, Action<u32, &'static str>) {
    let mut out = Vec::new();
    loop {
        let action = core.step::<&'static str>(now, false);
        let event = match action {
            Action::Deliver(e) => Some(e),
            Action::DrainNative => {
                for n in natives.drain(..) {
                    if let Some(e) = core.route_native(n) {
                        if let Some(cf) = callback(&e) {
                            core.set_control_flow(cf);
                        }
                        out.push(e);
                    }
                }
                None
            }
            Action::ResolveToken { window_id, serial } => activation_event(
                window_id,
                serial,
                TokenOutcome::Ready(format!("token-{serial}")),
            ),
            Action::CollectRedraws => None,
            other => return (out, other),
        };
        if let Some(e) = event {
            if let Some(cf) = callback(&e) {
                core.set_control_flow(cf);
            }
            out.push(e);
        }
    }
}

fn no_change(_: &Ev) -> Option<ControlFlow> {
    None
}

#[test]
fn first_iteration_emits_resumed_after_new_events() {
    let mut core = EventLoopCore::<u32>::new();
    let (evs, action) = run_until_wait(&mut core, 0, &mut Vec::new(), &mut no_change);
    assert!(matches!(evs[0], Event::NewEvents(StartCause::Init)));
    assert!(matches!(evs[1], Event::Resumed));
    assert!(matches!(evs[2], Event::MainEventsCleared));
    assert!(matches!(evs[3], Event::RedrawEventsCleared));
    assert_eq!(evs.len(), 4);
    assert!(matches!(action, Action::Block { timeout: Some(0) }));
    core.woke(Ok(()));
    let (evs, _) = run_until_wait(&mut core, 5, &mut Vec::new(), &mut no_change);
    assert!(matches!(evs[0], Event::NewEvents(StartCause::Poll)));
    assert!(!evs.iter().any(|e| matches!(e, Event::Resumed)));
}

#[test]
fn user_events_keep_their_order() {
    let mut core = EventLoopCore::<u32>::new();
    for v in [5, 1, 9, 1] {
        core.push_user_event(v);
    }
    let (evs, _) = run_until_wait(&mut core, 0, &mut Vec::new(), &mut no_change);
    let users: Vec<u32> = evs
        .iter()
        .filter_map(|e| if let Event::UserEvent(v) = e { Some(*v) } else { None })
        .collect();
    assert_eq!(users, vec![5, 1, 9, 1]);
    let main = evs.iter().position(|e| matches!(e, Event::MainEventsCleared)).unwrap();
    let last_user = evs.iter().rposition(|e| matches!(e, Event::UserEvent(_))).unwrap();
    assert!(last_user < main);
}

#[test]
fn redraws_coalesce_per_window() {
    let mut core = EventLoopCore::<u32>::new();
    let a = WindowId(10);
    let b = WindowId(20);
    core.request_redraw(a);
    core.request_redraw(b);
    core.request_redraw(a);
    let mut natives = vec![NativeEvent::RedrawRequested(a), NativeEvent::Other("key")];
    let (evs, _) = run_until_wait(&mut core, 0, &mut natives, &mut no_change);
    let redraws: Vec<WindowId> = evs
        .iter()
        .filter_map(|e| if let Event::RedrawRequested(w) = e { Some(*w) } else { None })
        .collect();
    assert_eq!(redraws.len(), 2);
    assert!(redraws.contains(&a));
    assert!(redraws.contains(&b));
    assert!(evs.iter().any(|e| matches!(e, Event::Native("key"))));
    let main = evs.iter().position(|e| matches!(e, Event::MainEventsCleared)).unwrap();
    let first_redraw = evs.iter().position(|e| matches!(e, Event::RedrawRequested(_))).unwrap();
    assert!(main < first_redraw);
    assert!(matches!(evs.last().unwrap(), Event::RedrawEventsCleared));
}

#[test]
fn coalesce_keeps_first_request_order() {
    let q: VecDeque<WindowId> = [3, 3, 1, 3, 2, 1].iter().map(|&w| WindowId(w)).collect();
    assert_eq!(coalesce_redraws(&q), vec![WindowId(3), WindowId(1), WindowId(2)]);
    assert!(coalesce_redraws(&VecDeque::new()).is_empty());
}

#[test]
fn activation_tokens_are_delivered_before_user_events() {
    let mut core = EventLoopCore::<u32>::new();
    core.push_user_event(1);
    core.push_activation_token(mkwid(4), 77);
    let (evs, _) = run_until_wait(&mut core, 0, &mut Vec::new(), &mut no_change);
    let tok = evs
        .iter()
        .position(|e| matches!(e, Event::ActivationTokenDone { serial: 77, .. }))
        .unwrap();
    let user = evs.iter().position(|e| matches!(e, Event::UserEvent(1))).unwrap();
    assert!(tok < user);
    if let Event::ActivationTokenDone { window_id, token, .. } = &evs[tok] {
        assert_eq!(*window_id, WindowId(4));
        assert_eq!(token, "token-77");
    }
}

#[test]
fn failed_or_missing_tokens_deliver_nothing() {
    let e: Option<Ev> = activation_event(WindowId(1), 2, TokenOutcome::Failed);
    assert!(e.is_none());
    let e: Option<Ev> = activation_event(WindowId(1), 2, TokenOutcome::WindowGone);
    assert!(e.is_none());
}

#[test]
fn poll_never_blocks() {
    let mut core = EventLoopCore::<u32>::new();
    for now in 0..5u64 {
        let (_, action) = run_until_wait(&mut core, now * 10, &mut Vec::new(), &mut no_change);
        assert!(matches!(action, Action::Block { timeout: Some(0) }));
        core.woke(Ok(()));
    }
}

#[test]
fn past_deadline_waits_zero() {
    let mut core = EventLoopCore::<u32>::new();
    let mut cb = |e: &Ev| {
        if matches!(e, Event::NewEvents(_)) { Some(ControlFlow::WaitUntil(50)) } else { None }
    };
    let (_, action) = run_until_wait(&mut core, 80, &mut Vec::new(), &mut cb);
    assert!(matches!(action, Action::Block { timeout: Some(0) }));
    core.woke(Ok(()));
    let (evs, _) = run_until_wait(&mut core, 90, &mut Vec::new(), &mut no_change);
    assert!(matches!(
        evs[0],
        Event::NewEvents(StartCause::ResumeTimeReached { start: 80, requested_resume: 50 })
    ));
}

#[test]
fn early_wake_reports_wait_cancelled() {
    let mut core = EventLoopCore::<u32>::new();
    let mut cb = |e: &Ev| {
        if matches!(e, Event::NewEvents(_)) { Some(ControlFlow::WaitUntil(1_000)) } else { None }
    };
    let (_, action) = run_until_wait(&mut core, 100, &mut Vec::new(), &mut cb);
    assert!(matches!(action, Action::Block { timeout: Some(900) }));
    core.woke(Ok(()));
    let (evs, _) = run_until_wait(&mut core, 300, &mut Vec::new(), &mut no_change);
    assert!(matches!(
        evs[0],
        Event::NewEvents(StartCause::WaitCancelled { start: 100, requested_resume: Some(1_000) })
    ));
}

#[test]
fn empty_wake_under_wait_blocks_again() {
    let mut core = EventLoopCore::<u32>::new();
    core.set_control_flow(ControlFlow::Wait);
    let (_, action) = run_until_wait(&mut core, 0, &mut Vec::new(), &mut no_change);
    assert!(matches!(action, Action::Block { timeout: None }));
    core.woke(Ok(()));
    assert_eq!(core.phase(), Phase::Idle);
    let (evs, action) = run_until_wait(&mut core, 1, &mut Vec::new(), &mut no_change);
    assert!(evs.is_empty());
    assert!(matches!(action, Action::Block { timeout: None }));
    core.woke(Ok(()));
    core.push_user_event(3);
    assert!(core.has_pending(false));
    let (evs, _) = run_until_wait(&mut core, 2, &mut Vec::new(), &mut no_change);
    assert!(matches!(evs[0], Event::NewEvents(StartCause::WaitCancelled { start: 0, requested_resume: None })));
    assert!(evs.iter().any(|e| matches!(e, Event::UserEvent(3))));
}

#[test]
fn exit_ends_the_loop_with_its_code() {
    let mut core = EventLoopCore::<u32>::new();
    core.push_user_event(1);
    core.push_user_event(2);
    let mut cb = |e: &Ev| {
        if matches!(e, Event::UserEvent(1)) { Some(ControlFlow::ExitWithCode(7)) } else { Some(ControlFlow::Poll) }
    };
    core.request_redraw(WindowId(1));
    let (evs, action) = run_until_wait(&mut core, 0, &mut Vec::new(), &mut cb);
    assert!(matches!(action, Action::Exit(7)));
    assert_eq!(core.control_flow(), ControlFlow::ExitWithCode(7));
    // The current iteration drains fully, then the loop is destroyed.
    assert!(evs.iter().any(|e| matches!(e, Event::UserEvent(2))));
    assert!(evs.iter().any(|e| matches!(e, Event::RedrawRequested(WindowId(1)))));
    assert!(matches!(evs.last().unwrap(), Event::LoopDestroyed));
    assert_eq!(evs.iter().filter(|e| matches!(e, Event::NewEvents(_))).count(), 1);
    core.push_user_event(3);
    let (evs, action) = run_until_wait(&mut core, 1, &mut Vec::new(), &mut no_change);
    assert!(evs.is_empty());
    assert!(matches!(action, Action::Exit(7)));
}

#[test]
fn failed_wait_ends_the_loop_with_the_error_code() {
    let mut core = EventLoopCore::<u32>::new();
    let (_, action) = run_until_wait(&mut core, 0, &mut Vec::new(), &mut no_change);
    assert!(matches!(action, Action::Block { .. }));
    core.woke(Err(11));
    let (evs, action) = run_until_wait(&mut core, 1, &mut Vec::new(), &mut no_change);
    assert_eq!(evs.len(), 1);
    assert!(matches!(evs[0], Event::LoopDestroyed));
    assert!(matches!(action, Action::Exit(11)));
}

#[test]
fn native_redraws_join_the_queue() {
    let mut core = EventLoopCore::<u32>::new();
    let routed: Option<Ev> = core.route_native(NativeEvent::RedrawRequested(WindowId(6)));
    assert!(routed.is_none());
    assert!(core.has_pending(false));
    let routed: Option<Ev> = core.route_native(NativeEvent::Other("motion"));
    assert!(matches!(routed, Some(Event::Native("motion"))));
}

#[test]
fn woke_outside_a_wait_changes_nothing() {
    let mut core = EventLoopCore::<u32>::new();
    core.woke(Err(5));
    assert_eq!(core.phase(), Phase::Start);
    assert_eq!(core.cause(), StartCause::Init);
    let (_, action) = run_until_wait(&mut core, 0, &mut Vec::new(), &mut no_change);
    assert!(matches!(action, Action::Block { .. }));
}

#[test]
fn exit_set_during_a_wait_ends_the_loop() {
    let mut core = EventLoopCore::<u32>::new();
    core.set_control_flow(ControlFlow::Wait);
    let (_, action) = run_until_wait(&mut core, 0, &mut Vec::new(), &mut no_change);
    assert!(matches!(action, Action::Block { timeout: None }));
    core.set_control_flow(ControlFlow::ExitWithCode(2));
    core.woke(Err(9));
    core.push_user_event(4);
    let (evs, action) = run_until_wait(&mut core, 1, &mut Vec::new(), &mut no_change);
    assert_eq!(evs.len(), 1);
    assert!(matches!(evs[0], Event::LoopDestroyed));
    assert!(matches!(action, Action::Exit(2)));
}
