use vstd::prelude::*;

verus! {

/// Capability flags of one queue family.
#[derive(Clone, Copy, Debug, PartialEq, Eq, Structural)]
pub struct QueueCaps {
    pub graphics: bool,
    pub compute: bool,
    pub present: bool,
}

/// `have` offers every capability that `want` asks for.
pub open spec fn caps_cover(have: QueueCaps, want: QueueCaps) -> bool {
    &&& (want.graphics ==> have.graphics)
    &&& (want.compute ==> have.compute)
    &&& (want.present ==> have.present)
}

impl QueueCaps {
    pub fn covers(&self, want: &QueueCaps) -> (r: bool)
        ensures
            r == caps_cover(*self, *want),
    {
        (!want.graphics || self.graphics) && (!want.compute || self.compute) && (!want.present
            || self.present)
    }
}

/// What the resolver knows of one physical accelerator: its queue families, in
/// the order the driver lists them.
#[derive(Clone, Debug)]
pub struct PhysicalDeviceInfo {
    pub families: Vec<QueueCaps>,
}

/// The device and the queue family that the resolver settled on, as indices
/// into the enumeration it was given.
#[derive(Clone, Copy, Debug, PartialEq, Eq, Structural)]
pub struct Selection {
    pub device: usize,
    pub family: usize,
}

#[derive(Clone, Copy, Debug, PartialEq, Eq, Structural)]
pub enum DeviceError {
    NoDeviceFound,
    NoSuitableQueueFamily,
}

/// Family `f` of `d` exists and offers `want`.
pub open spec fn family_fits(d: PhysicalDeviceInfo, want: QueueCaps, f: int) -> bool {
    0 <= f < d.families@.len() && caps_cover(d.families@[f], want)
}

/// Some family of `d` offers `want`.
pub open spec fn device_fits(d: PhysicalDeviceInfo, want: QueueCaps) -> bool {
    exists|f: int| family_fits(d, want, f)
}

/// Some device of the enumeration offers `want`.
pub open spec fn any_device_fits(devs: Seq<PhysicalDeviceInfo>, want: QueueCaps) -> bool {
    exists|i: int| 0 <= i < devs.len() && device_fits(#[trigger] devs[i], want)
}

/// The first-fit choice: the first device with a family that offers `want`,
/// and the first such family in it.
pub open spec fn is_first_fit(devs: Seq<PhysicalDeviceInfo>, want: QueueCaps, s: Selection) -> bool {
    &&& s.device < devs.len()
    &&& family_fits(devs[s.device as int], want, s.family as int)
    &&& forall|i: int| 0 <= i < s.device ==> !device_fits(#[trigger] devs[i], want)
    &&& forall|f: int|
        0 <= f < s.family ==> !caps_cover(#[trigger] devs[s.device as int].families@[f], want)
}

/// Index of the first family of `d` that offers `want`, if any.
pub fn first_fitting_family(d: &PhysicalDeviceInfo, want: &QueueCaps) -> (r: Option<usize>)
    ensures
        match r {
            Some(f) => family_fits(*d, *want, f as int) && forall|g: int|
                0 <= g < f ==> !caps_cover(#[trigger] d.families@[g], *want),
            None => !device_fits(*d, *want),
        },
{
    let mut f: usize = 0;
    while f < d.families.len()
        invariant
            f <= d.families@.len(),
            forall|g: int| 0 <= g < f ==> !caps_cover(#[trigger] d.families@[g], *want),
        decreases d.families@.len() - f,
    {
        if d.families[f].covers(want) {
            return Some(f);
        }
        f = f + 1;
    }
    assert forall|g: int| !family_fits(*d, *want, g) by {
        if 0 <= g < d.families@.len() {
            assert(!caps_cover(d.families@[g], *want));
        }
    }
    None
}

/// Picks the device and queue family to open, first-fit: the first enumerated
/// device that has a family offering `want`, and the first such family in it.
pub fn resolve_device(devices: &Vec<PhysicalDeviceInfo>, want: &QueueCaps) -> (r: Result<
    Selection,
    DeviceError,
>)
    ensures
        (r == Err::<Selection, DeviceError>(DeviceError::NoDeviceFound)) <==> devices@.len() == 0,
        (r == Err::<Selection, DeviceError>(DeviceError::NoSuitableQueueFamily)) <==> (
        devices@.len() > 0 && !any_device_fits(devices@, *want)),
        r is Ok <==> any_device_fits(devices@, *want),
        r matches Ok(s) ==> is_first_fit(devices@, *want, s),
        r matches Ok(s) ==> caps_cover(devices@[s.device as int].families@[s.family as int], *want),
{
    if devices.len() == 0 {
        return Err(DeviceError::NoDeviceFound);
    }
    let mut i: usize = 0;
    while i < devices.len()
        invariant
            i <= devices@.len(),
            forall|j: int| 0 <= j < i ==> !device_fits(#[trigger] devices@[j], *want),
        decreases devices@.len() - i,
    {
        match first_fitting_family(&devices[i], want) {
            Some(f) => {
                let s = Selection { device: i, family: f };
                assert(any_device_fits(devices@, *want)) by {
                    assert(device_fits(devices@[i as int], *want));
                }
                return Ok(s);
            },
            None => {},
        }
        i = i + 1;
    }
    Err(DeviceError::NoSuitableQueueFamily)
}

} // verus!
