use vstd::prelude::*;

verus! {

/// Identifier of an input device, as the X server numbers it.
#[derive(Debug, Copy, Clone, PartialEq, Eq, PartialOrd, Ord, Hash)]
pub struct DeviceId(pub i32);

impl DeviceId {
    /// A placeholder identifier, numbered zero.
    pub fn dummy() -> (r: DeviceId)
        ensures
            r.0 == 0,
    {
        DeviceId(0)
    }
}

/// Wraps a raw device number into a `DeviceId`.
pub fn mkdid(w: i32) -> (r: DeviceId)
    ensures
        r.0 == w,
{
    DeviceId(w)
}

/// The role the server gives a device: masters are logical, slaves physical.
#[derive(Debug, Copy, Clone, PartialEq, Eq, Structural)]
pub enum DeviceUse {
    MasterPointer,
    MasterKeyboard,
    SlavePointer,
    SlaveKeyboard,
    FloatingSlave,
}

#[derive(Debug, Copy, Clone, PartialEq, Eq, Structural)]
pub enum ScrollOrientation {
    Vertical,
    Horizontal,
}

/// One class of a device as the server describes it. Valuator readings and
/// scroll increments are fixed-point numbers with 32 fractional bits.
#[derive(Debug, Copy, Clone, PartialEq, Eq, Structural)]
pub enum DeviceClass {
    /// Valuator `number` scrolls, one click per `increment`.
    Scroll { number: i32, orientation: ScrollOrientation, increment: i64 },
    /// Valuator `number` currently reads `value`.
    Valuator { number: i32, value: i64 },
    /// Any class that scrolling does not depend on.
    Other,
}

/// What a device query returns for one device.
#[derive(Debug, Clone)]
pub struct DeviceInfo {
    pub deviceid: i32,
    pub device_use: DeviceUse,
    pub attachment: i32,
    pub name: String,
    pub classes: Vec<DeviceClass>,
}

/// Calibration of one scroll valuator.
#[derive(Debug, Copy, Clone, PartialEq, Eq, Structural)]
pub struct ScrollAxis {
    pub increment: i64,
    pub orientation: ScrollOrientation,
    /// The last reading of the valuator.
    pub position: i64,
}

/// A scroll movement: `numerator / denominator` clicks along `orientation`.
#[derive(Debug, Copy, Clone, PartialEq, Eq, Structural)]
pub struct ScrollDelta {
    pub orientation: ScrollOrientation,
    /// The change of the valuator reading.
    pub numerator: i128,
    /// The axis increment.
    pub denominator: i64,
}

/// A known input device.
#[derive(Debug, Clone)]
pub struct Device {
    pub name: String,
    /// Valuator number and calibration of each scroll axis.
    pub scroll_axes: Vec<(i32, ScrollAxis)>,
    /// For a master, its paired device; for a slave, its master.
    pub attachment: i32,
}

pub struct DeviceView {
    pub name: Seq<char>,
    pub scroll_axes: Seq<(i32, ScrollAxis)>,
    pub attachment: i32,
}

impl View for Device {
    type V = DeviceView;

    open spec fn view(&self) -> DeviceView {
        DeviceView { name: self.name@, scroll_axes: self.scroll_axes@, attachment: self.attachment }
    }
}

pub open spec fn is_physical(u: DeviceUse) -> bool {
    u is SlaveKeyboard || u is SlavePointer || u is FloatingSlave
}

/// The scroll axes that a list of classes declares, in order, at position zero.
pub open spec fn scroll_axes_of(classes: Seq<DeviceClass>) -> Seq<(i32, ScrollAxis)>
    decreases classes.len(),
{
    if classes.len() == 0 {
        Seq::empty()
    } else {
        let prefix = scroll_axes_of(classes.drop_last());
        match classes.last() {
            DeviceClass::Scroll { number, orientation, increment } => prefix.push(
                (number, ScrollAxis { increment, orientation, position: 0 }),
            ),
            _ => prefix,
        }
    }
}

/// Whether `i` is the first axis with valuator number `n`.
pub open spec fn is_first_axis(axes: Seq<(i32, ScrollAxis)>, n: i32, i: int) -> bool {
    &&& 0 <= i < axes.len()
    &&& axes[i].0 == n
    &&& forall|j: int| 0 <= j < i ==> axes[j].0 != n
}

/// The index of the first axis with valuator number `n`, if there is one.
pub open spec fn first_axis(axes: Seq<(i32, ScrollAxis)>, n: i32) -> Option<int> {
    if exists|i: int| is_first_axis(axes, n, i) {
        Some(choose|i: int| is_first_axis(axes, n, i))
    } else {
        None
    }
}

/// The axes after valuator `n` read `v`: the first axis of that number moves to `v`.
pub open spec fn set_position(axes: Seq<(i32, ScrollAxis)>, n: i32, v: i64) -> Seq<
    (i32, ScrollAxis),
> {
    match first_axis(axes, n) {
        Some(i) => axes.update(i, (n, ScrollAxis { position: v, ..axes[i].1 })),
        None => axes,
    }
}

/// The axes after the valuator readings among `classes`, taken in order.
pub open spec fn reset_positions(axes: Seq<(i32, ScrollAxis)>, classes: Seq<DeviceClass>) -> Seq<
    (i32, ScrollAxis),
>
    decreases classes.len(),
{
    if classes.len() == 0 {
        axes
    } else {
        let before = reset_positions(axes, classes.drop_last());
        match classes.last() {
            DeviceClass::Valuator { number, value } => set_position(before, number, value),
            _ => before,
        }
    }
}

/// The scroll axes of a device newly described by `info`.
pub open spec fn initial_axes(info: DeviceInfo) -> Seq<(i32, ScrollAxis)> {
    if is_physical(info.device_use) {
        reset_positions(scroll_axes_of(info.classes@), info.classes@)
    } else {
        Seq::empty()
    }
}

proof fn lemma_first_axis_unique(axes: Seq<(i32, ScrollAxis)>, n: i32, i: int)
    requires
        is_first_axis(axes, n, i),
    ensures
        first_axis(axes, n) == Some(i),
{
    let k = choose|k: int| is_first_axis(axes, n, k);
    assert(is_first_axis(axes, n, k));
    if k < i {
        assert(axes[k].0 != n);
    } else if i < k {
        assert(axes[i].0 != n);
    }
}

/// Finds the first axis with valuator number `n`.
fn find_axis(axes: &Vec<(i32, ScrollAxis)>, n: i32) -> (r: Option<usize>)
    ensures
        match r {
            Some(i) => first_axis(axes@, n) == Some(i as int),
            None => first_axis(axes@, n) is None,
        },
{
    let mut i: usize = 0;
    while i < axes.len()
        invariant
            i <= axes.len(),
            forall|j: int| 0 <= j < i ==> axes@[j].0 != n,
        decreases axes.len() - i,
    {
        if axes[i].0 == n {
            proof {
                lemma_first_axis_unique(axes@, n, i as int);
            }
            return Some(i);
        }
        i = i + 1;
    }
    assert(!exists|k: int| is_first_axis(axes@, n, k));
    None
}

impl Device {
    /// Whether a device of this role carries scroll calibration: only physical
    /// (slave or floating) devices do.
    pub fn physical_device(info: &DeviceInfo) -> (r: bool)
        ensures
            r == is_physical(info.device_use),
    {
        match info.device_use {
            DeviceUse::SlaveKeyboard | DeviceUse::SlavePointer | DeviceUse::FloatingSlave => true,
            _ => false,
        }
    }

    /// A device as `info` describes it: a physical device takes its scroll
    /// axes from the scroll classes, positioned at the current valuator readings.
    pub fn new(info: &DeviceInfo) -> (r: Device)
        ensures
            r@.name == info.name@,
            r@.attachment == info.attachment,
            r@.scroll_axes == initial_axes(*info),
    {
        let mut scroll_axes: Vec<(i32, ScrollAxis)> = Vec::new();
        if Device::physical_device(info) {
            let mut k: usize = 0;
            while k < info.classes.len()
                invariant
                    k <= info.classes.len(),
                    scroll_axes@ == scroll_axes_of(info.classes@.subrange(0, k as int)),
                decreases info.classes.len() - k,
            {
                proof {
                    assert(info.classes@.subrange(0, k as int + 1).drop_last()
                        =~= info.classes@.subrange(0, k as int));
                }
                match info.classes[k] {
                    DeviceClass::Scroll { number, orientation, increment } => {
                        scroll_axes.push((number, ScrollAxis { increment, orientation, position: 0 }));
                    },
                    _ => {},
                }
                k = k + 1;
            }
            assert(info.classes@.subrange(0, info.classes.len() as int) =~= info.classes@);
        }
        let mut device = Device { name: info.name.clone(), scroll_axes, attachment: info.attachment };
        device.reset_scroll_position(info);
        device
    }

    /// Moves each scroll axis to the valuator reading that `info` reports for
    /// it; nothing changes for a device that is not physical.
    pub fn reset_scroll_position(&mut self, info: &DeviceInfo)
        ensures
            final(self)@.name == old(self)@.name,
            final(self)@.attachment == old(self)@.attachment,
            final(self)@.scroll_axes == if is_physical(info.device_use) {
                reset_positions(old(self)@.scroll_axes, info.classes@)
            } else {
                old(self)@.scroll_axes
            },
    {
        if Device::physical_device(info) {
            let ghost start = self.scroll_axes@;
            let mut k: usize = 0;
            while k < info.classes.len()
                invariant
                    k <= info.classes.len(),
                    self@.name == old(self)@.name,
                    self@.attachment == old(self)@.attachment,
                    start == old(self)@.scroll_axes,
                    self.scroll_axes@ == reset_positions(start, info.classes@.subrange(0, k as int)),
                decreases info.classes.len() - k,
            {
                proof {
                    assert(info.classes@.subrange(0, k as int + 1).drop_last()
                        =~= info.classes@.subrange(0, k as int));
                }
                match info.classes[k] {
                    DeviceClass::Valuator { number, value } => {
                        self.set_axis_position(number, value);
                    },
                    _ => {},
                }
                k = k + 1;
            }
            assert(info.classes@.subrange(0, info.classes.len() as int) =~= info.classes@);
        }
    }

    /// Records that valuator `n` reads `v`.
    fn set_axis_position(&mut self, n: i32, v: i64)
        ensures
            final(self)@.name == old(self)@.name,
            final(self)@.attachment == old(self)@.attachment,
            final(self)@.scroll_axes == set_position(old(self)@.scroll_axes, n, v),
    {
        match find_axis(&self.scroll_axes, n) {
            Some(i) => {
                let (number, axis) = self.scroll_axes[i];
                self.scroll_axes.set(i, (number, ScrollAxis { position: v, ..axis }));
            },
            None => {},
        }
    }

    /// Interprets a raw reading `value` of valuator `n`. For a scroll axis the
    /// result is the movement since the last reading, in clicks, and the axis
    /// remembers the new reading; any other valuator gives none.
    pub fn scroll_delta(&mut self, n: i32, value: i64) -> (r: Option<ScrollDelta>)
        ensures
            final(self)@.name == old(self)@.name,
            final(self)@.attachment == old(self)@.attachment,
            final(self)@.scroll_axes == set_position(old(self)@.scroll_axes, n, value),
            match first_axis(old(self)@.scroll_axes, n) {
                Some(i) => r == Some(
                    ScrollDelta {
                        orientation: old(self)@.scroll_axes[i].1.orientation,
                        numerator: (value - old(self)@.scroll_axes[i].1.position) as i128,
                        denominator: old(self)@.scroll_axes[i].1.increment,
                    },
                ),
                None => r is None,
            },
    {
        match find_axis(&self.scroll_axes, n) {
            Some(i) => {
                let (number, axis) = self.scroll_axes[i];
                let delta = ScrollDelta {
                    orientation: axis.orientation,
                    numerator: value as i128 - axis.position as i128,
                    denominator: axis.increment,
                };
                self.scroll_axes.set(i, (number, ScrollAxis { position: value, ..axis }));
                Some(delta)
            },
            None => None,
        }
    }
}

} // verus!
