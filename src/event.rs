use vstd::prelude::*;
use crate::control_flow::StartCause;

verus! {

/// Identifier of a window, as the X server numbers it.
#[derive(Debug, Copy, Clone, PartialEq, Eq, Structural, Hash)]
pub struct WindowId(pub u64);

/// Wraps a raw window number into a `WindowId`.
pub fn mkwid(w: u32) -> (r: WindowId)
    ensures
        r.0 == w as u64,
{
    WindowId(w as u64)
}

/// What the loop hands to the application callback. `T` is the payload of
/// user events, `N` an application event decoded from a server event.
#[derive(Debug)]
pub enum Event<T, N> {
    /// An iteration begins, for the given reason.
    NewEvents(StartCause),
    /// The application may start; sent once, in the first iteration.
    Resumed,
    /// An event from the server, already decoded.
    Native(N),
    /// An activation token asked for with `serial` is ready.
    ActivationTokenDone { window_id: WindowId, serial: u64, token: String },
    /// A payload submitted through the user-event entry point.
    UserEvent(T),
    /// Every event but redraws of this iteration has been delivered.
    MainEventsCleared,
    /// The window should be drawn again.
    RedrawRequested(WindowId),
    /// Every redraw of this iteration has been delivered.
    RedrawEventsCleared,
    /// The loop is over; the last event of all.
    LoopDestroyed,
}

/// An application event decoded from a server event, before the loop routes it.
#[derive(Debug)]
pub enum NativeEvent<N> {
    /// A redraw request: it joins the redraw queue rather than being delivered.
    RedrawRequested(WindowId),
    /// Any other event: it is delivered at once.
    Other(N),
}

/// What came of asking a window for an activation token.
#[derive(Debug, Clone, PartialEq, Eq)]
pub enum TokenOutcome {
    Ready(String),
    /// The window could not produce a token; the failure is only logged.
    Failed,
    /// The window is gone.
    WindowGone,
}

/// The event, if any, that an activation-token outcome is delivered as:
/// only a ready token is; a failure or a vanished window gives nothing.
pub fn activation_event<T, N>(window_id: WindowId, serial: u64, outcome: TokenOutcome) -> (r:
    Option<Event<T, N>>)
    ensures
        match outcome {
            TokenOutcome::Ready(token) => r == Some(
                Event::<T, N>::ActivationTokenDone { window_id, serial, token },
            ),
            _ => r is None,
        },
{
    match outcome {
        TokenOutcome::Ready(token) => Some(Event::ActivationTokenDone { window_id, serial, token }),
        _ => None,
    }
}

} // verus!
