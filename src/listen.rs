use vstd::prelude::*;
use x11rb::protocol::xinput::XIEventMask;

verus! {

/// When the application wants raw device events.
#[derive(Debug, Copy, Clone, PartialEq, Eq, Structural)]
pub enum DeviceEvents {
    Always,
    WhenFocused,
    Never,
}

/// The raw-input bits of an XInput2 event mask: raw key press and release,
/// raw button press and release, raw motion (bits 13 to 17).
pub open spec fn raw_input_bits() -> u32 {
    0x3e000u32
}

/// Whether raw device events are wanted, given whether a window of the
/// application has the focus.
pub open spec fn listens(setting: DeviceEvents, focus: bool) -> bool {
    setting == DeviceEvents::Always || (focus && setting == DeviceEvents::WhenFocused)
}

/// Relies on x11rb's `XIEventMask` constants `RAW_KEY_PRESS` .. `RAW_MOTION`
/// (`1 << 13` .. `1 << 17`), their `|`, and `u32::from`, which returns the bits.
#[verifier::external_body]
fn raw_input_mask() -> (r: u32)
    ensures
        r == raw_input_bits(),
{
    u32::from(
        XIEventMask::RAW_MOTION | XIEventMask::RAW_BUTTON_PRESS | XIEventMask::RAW_BUTTON_RELEASE
            | XIEventMask::RAW_KEY_PRESS | XIEventMask::RAW_KEY_RELEASE,
    )
}

/// The event mask to select on the master devices: the raw-input events when
/// they are wanted, nothing otherwise.
pub fn device_event_mask(setting: DeviceEvents, focus: bool) -> (r: u32)
    ensures
        r == if listens(setting, focus) {
            raw_input_bits()
        } else {
            0
        },
{
    let wanted = setting == DeviceEvents::Always || (focus && setting == DeviceEvents::WhenFocused);
    if wanted {
        raw_input_mask()
    } else {
        0
    }
}

} // verus!
