use x11_event_core::device::{
    mkdid, Device, DeviceClass, DeviceId, DeviceInfo, DeviceUse, ScrollOrientation,
};
use x11_event_core::listen::{device_event_mask, DeviceEvents};
use x11_event_core::registry::DeviceRegistry;

const ONE: i64 = 1 << 32;

fn scroll_info(id: i32, device_use: DeviceUse) -> DeviceInfo {
    DeviceInfo {
        deviceid: id,
        device_use,
        attachment: 2,
        name: String::from("wheel mouse"),
        classes: vec![
            DeviceClass::Other,
            DeviceClass::Scroll { number: 3, orientation: ScrollOrientation::Vertical, increment: ONE },
            DeviceClass::Valuator { number: 3, value: 0 },
        ],
    }
}

fn as_f64(n: i128, d: i64) -> f64 {
    n as f64 / d as f64
}

#[test]
fn device_ids() {
    assert_eq!(mkdid(7), DeviceId(7));
    assert_eq!(DeviceId::dummy(), DeviceId(0));
}

#[test]
fn vertical_scroll_scenario() {
    let mut d = Device::new(&scroll_info(9, DeviceUse::SlavePointer));
    assert_eq!(d.scroll_axes.len(), 1);
    let first = d.scroll_delta(3, 3 * ONE).unwrap();
    assert_eq!(first.orientation, ScrollOrientation::Vertical);
    assert_eq!(as_f64(first.numerator, first.denominator), 3.0);
    assert_eq!(d.scroll_axes[0].1.position, 3 * ONE);
    let second = d.scroll_delta(3, 3 * ONE).unwrap();
    assert_eq!(as_f64(second.numerator, second.denominator), 0.0);
}

#[test]
fn master_devices_have_no_scroll_axes() {
    let d = Device::new(&scroll_info(2, DeviceUse::MasterPointer));
    assert!(d.scroll_axes.is_empty());
    assert_eq!(d.attachment, 2);
    assert_eq!(d.name, "wheel mouse");
    assert!(Device::physical_device(&scroll_info(2, DeviceUse::FloatingSlave)));
    assert!(Device::physical_device(&scroll_info(2, DeviceUse::SlaveKeyboard)));
    assert!(!Device::physical_device(&scroll_info(2, DeviceUse::MasterKeyboard)));
}

#[test]
fn new_device_takes_current_valuator_reading() {
    let mut info = scroll_info(9, DeviceUse::SlavePointer);
    info.classes.push(DeviceClass::Scroll {
        number: 4,
        orientation: ScrollOrientation::Horizontal,
        increment: 2 * ONE,
    });
    info.classes.push(DeviceClass::Valuator { number: 4, value: 5 * ONE });
    let mut d = Device::new(&info);
    assert_eq!(d.scroll_axes.len(), 2);
    assert_eq!(d.scroll_axes[1].0, 4);
    assert_eq!(d.scroll_axes[1].1.position, 5 * ONE);
    let delta = d.scroll_delta(4, 9 * ONE).unwrap();
    assert_eq!(delta.orientation, ScrollOrientation::Horizontal);
    assert_eq!(as_f64(delta.numerator, delta.denominator), 2.0);
}

#[test]
fn reset_moves_axes_to_new_readings() {
    let mut d = Device::new(&scroll_info(9, DeviceUse::SlavePointer));
    let mut info = scroll_info(9, DeviceUse::SlavePointer);
    info.classes[2] = DeviceClass::Valuator { number: 3, value: -ONE };
    d.reset_scroll_position(&info);
    assert_eq!(d.scroll_axes[0].1.position, -ONE);
    let mut master = scroll_info(9, DeviceUse::MasterPointer);
    master.classes[2] = DeviceClass::Valuator { number: 3, value: 8 * ONE };
    d.reset_scroll_position(&master);
    assert_eq!(d.scroll_axes[0].1.position, -ONE);
}

#[test]
fn non_scroll_valuator_gives_no_delta() {
    let mut d = Device::new(&scroll_info(9, DeviceUse::SlavePointer));
    assert!(d.scroll_delta(0, ONE).is_none());
    assert_eq!(d.scroll_axes[0].1.position, 0);
}

#[test]
fn registry_hotplug_and_removal() {
    let mut r = DeviceRegistry::new();
    r.init_devices(&vec![scroll_info(9, DeviceUse::SlavePointer), scroll_info(2, DeviceUse::MasterPointer)]);
    assert!(r.contains(9));
    assert!(r.contains(2));
    let delta = r.scroll_delta(9, 3, -2 * ONE).unwrap();
    assert_eq!(as_f64(delta.numerator, delta.denominator), -2.0);
    assert_eq!(r.get(9).unwrap().scroll_axes[0].1.position, -2 * ONE);
    assert!(r.scroll_delta(2, 3, ONE).is_none());
    r.init_devices(&vec![scroll_info(9, DeviceUse::SlavePointer)]);
    assert_eq!(r.get(9).unwrap().scroll_axes[0].1.position, 0);
    r.remove(9);
    assert!(!r.contains(9));
    assert!(r.get(9).is_none());
    assert!(r.scroll_delta(9, 3, ONE).is_none());
}

#[test]
fn device_event_masks() {
    let raw = 0x3e000u32;
    assert_eq!(device_event_mask(DeviceEvents::Always, false), raw);
    assert_eq!(device_event_mask(DeviceEvents::WhenFocused, true), raw);
    assert_eq!(device_event_mask(DeviceEvents::WhenFocused, false), 0);
    assert_eq!(device_event_mask(DeviceEvents::Never, true), 0);
}
