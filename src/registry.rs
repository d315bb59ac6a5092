use vstd::prelude::*;
use std::collections::HashMap;
use crate::device::{
    Device, DeviceInfo, DeviceView, ScrollDelta, first_axis, initial_axes, set_position,
};

verus! {

broadcast use vstd::std_specs::hash::group_hash_axioms;

/// The devices the loop knows of, by device number. Only the thread that runs
/// the loop touches it.
pub struct DeviceRegistry {
    devices: HashMap<i32, Device>,
}

/// How a device described by `info` is recorded.
pub open spec fn device_view_of(info: DeviceInfo) -> DeviceView {
    DeviceView { name: info.name@, scroll_axes: initial_axes(info), attachment: info.attachment }
}

/// The registry after an enumeration reported `infos`, in order: each one
/// adds its device or replaces the entry of the same number.
pub open spec fn enumerate_into(m: Map<i32, DeviceView>, infos: Seq<DeviceInfo>) -> Map<
    i32,
    DeviceView,
>
    decreases infos.len(),
{
    if infos.len() == 0 {
        m
    } else {
        enumerate_into(m, infos.drop_last()).insert(
            infos.last().deviceid,
            device_view_of(infos.last()),
        )
    }
}

impl View for DeviceRegistry {
    type V = Map<i32, DeviceView>;

    closed spec fn view(&self) -> Map<i32, DeviceView> {
        self.devices@.map_values(|d: Device| d@)
    }
}

impl DeviceRegistry {
    /// An empty registry.
    pub fn new() -> (r: DeviceRegistry)
        ensures
            r@ == Map::<i32, DeviceView>::empty(),
    {
        let r = DeviceRegistry { devices: HashMap::new() };
        assert(r@ =~= Map::<i32, DeviceView>::empty());
        r
    }

    /// Records a device: adds it, or replaces the entry of the same number.
    pub fn insert(&mut self, id: i32, device: Device)
        ensures
            final(self)@ == old(self)@.insert(id, device@),
    {
        self.devices.insert(id, device);
        assert(self@ =~= old(self)@.insert(id, device@));
    }

    /// Records each device of an enumeration (at startup, or for the one
    /// device a hotplug notice names).
    pub fn init_devices(&mut self, infos: &Vec<DeviceInfo>)
        ensures
            final(self)@ == enumerate_into(old(self)@, infos@),
    {
        let mut k: usize = 0;
        while k < infos.len()
            invariant
                k <= infos.len(),
                self@ == enumerate_into(old(self)@, infos@.subrange(0, k as int)),
            decreases infos.len() - k,
        {
            proof {
                assert(infos@.subrange(0, k as int + 1).drop_last() =~= infos@.subrange(0, k as int));
            }
            let device = Device::new(&infos[k]);
            self.insert(infos[k].deviceid, device);
            k = k + 1;
        }
        assert(infos@.subrange(0, infos.len() as int) =~= infos@);
    }

    /// Forgets a removed device, and with it its scroll axes.
    pub fn remove(&mut self, id: i32)
        ensures
            final(self)@ == old(self)@.remove(id),
    {
        self.devices.remove(&id);
        assert(self@ =~= old(self)@.remove(id));
    }

    /// The device of this number, if it is known.
    pub fn get(&self, id: i32) -> (r: Option<&Device>)
        ensures
            match r {
                Some(d) => self@.contains_key(id) && d@ == self@[id],
                None => !self@.contains_key(id),
            },
    {
        self.devices.get(&id)
    }

    /// Whether a device of this number is known.
    pub fn contains(&self, id: i32) -> (r: bool)
        ensures
            r == self@.contains_key(id),
    {
        self.devices.contains_key(&id)
    }

    /// Interprets a raw reading `value` of valuator `n` on device `id`: the
    /// movement in clicks for a scroll axis of a known device, which then
    /// remembers the reading; none otherwise.
    pub fn scroll_delta(&mut self, id: i32, n: i32, value: i64) -> (r: Option<ScrollDelta>)
        ensures
            !old(self)@.contains_key(id) ==> r is None && final(self)@ == old(self)@,
            old(self)@.contains_key(id) ==> {
                let d = old(self)@[id];
                &&& final(self)@ == old(self)@.insert(
                    id,
                    DeviceView { scroll_axes: set_position(d.scroll_axes, n, value), ..d },
                )
                &&& match first_axis(d.scroll_axes, n) {
                    Some(i) => r == Some(
                        ScrollDelta {
                            orientation: d.scroll_axes[i].1.orientation,
                            numerator: (value - d.scroll_axes[i].1.position) as i128,
                            denominator: d.scroll_axes[i].1.increment,
                        },
                    ),
                    None => r is None,
                }
            },
    {
        match self.devices.remove(&id) {
            Some(device) => {
                let mut device = device;
                let r = device.scroll_delta(n, value);
                self.insert(id, device);
                assert(self@ =~= old(self)@.insert(
                    id,
                    DeviceView { scroll_axes: set_position(old(self)@[id].scroll_axes, n, value), ..old(self)@[id] },
                ));
                r
            },
            None => {
                assert(self@ =~= old(self)@);
                None
            },
        }
    }
}

} // verus!
