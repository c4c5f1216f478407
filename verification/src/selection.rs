use vstd::prelude::*;

use crate::error::BootstrapError;

verus! {

/// The classes of hardware a candidate device can report itself as.
#[derive(Clone, Copy, Debug, PartialEq, Eq, Structural)]
pub enum DeviceType {
    Other,
    IntegratedGpu,
    DiscreteGpu,
    VirtualGpu,
    Cpu,
}

/// What the selection policy reads of one queue family: whether its
/// capability flags include graphics operations, and whether the driver
/// reports it able to present to the bound surface.
#[derive(Clone, Copy, Debug, PartialEq, Eq, Structural)]
pub struct QueueFamilyInfo {
    pub supports_graphics: bool,
    pub supports_present: bool,
}

/// One candidate device: its cached properties (type and name), its cached
/// feature flags, and its queue-family list in driver-reported order.
#[derive(Clone, Debug)]
pub struct PhysicalDeviceCandidate {
    pub name: String,
    pub device_type: DeviceType,
    pub geometry_shader: bool,
    pub queue_families: Vec<QueueFamilyInfo>,
}

/// Some queue family of the list supports graphics operations.
pub open spec fn has_graphics_family(families: Seq<QueueFamilyInfo>) -> bool {
    exists|i: int| 0 <= i < families.len() && (#[trigger] families[i]).supports_graphics
}

/// `i` is the first index of the list whose family supports graphics
/// operations.
pub open spec fn is_first_graphics_family(families: Seq<QueueFamilyInfo>, i: int) -> bool {
    &&& 0 <= i < families.len()
    &&& families[i].supports_graphics
    &&& forall|j: int| 0 <= j < i ==> !(#[trigger] families[j]).supports_graphics
}

/// The device-level half of the suitability policy: a discrete GPU that
/// reports geometry-shader support.
pub open spec fn spec_device_suitable(c: PhysicalDeviceCandidate) -> bool {
    c.device_type == DeviceType::DiscreteGpu && c.geometry_shader
}

/// The whole per-candidate acceptance rule, applied in a fixed order: the
/// first graphics-capable queue family must exist, that same family must be
/// able to present (no combining across families), and the device-level
/// checks must pass.
pub open spec fn candidate_passes(c: PhysicalDeviceCandidate) -> bool {
    &&& spec_device_suitable(c)
    &&& exists|i: int|
        #[trigger] is_first_graphics_family(c.queue_families@, i)
            && c.queue_families@[i].supports_present
}

proof fn lemma_first_graphics_family_unique(families: Seq<QueueFamilyInfo>, i: int, j: int)
    requires
        is_first_graphics_family(families, i),
        is_first_graphics_family(families, j),
    ensures
        i == j,
{
    if i < j {
        assert(!families[i].supports_graphics);
    }
    if j < i {
        assert(!families[j].supports_graphics);
    }
}

/// A queue family is usable when its capability flags include graphics
/// support; presentation ability is checked separately.
pub fn is_queue_family_suitable(family: &QueueFamilyInfo) -> (suitable: bool)
    ensures
        suitable == family.supports_graphics,
{
    family.supports_graphics
}

/// The first queue family of `device` whose capability flags include
/// graphics support; a device exposing none is reported as a named failure
/// rather than a panic.
pub fn pick_queue_family_index(device: &PhysicalDeviceCandidate) -> (result: Result<
    u32,
    BootstrapError,
>)
    requires
        device.queue_families@.len() <= u32::MAX,
    ensures
        result is Ok <==> has_graphics_family(device.queue_families@),
        match result {
            Ok(index) => is_first_graphics_family(device.queue_families@, index as int),
            Err(e) => e == BootstrapError::NoSuitableQueueFamily,
        },
{
    let n = device.queue_families.len();
    let mut i: usize = 0;
    while i < n
        invariant
            n == device.queue_families@.len(),
            n <= u32::MAX,
            i <= n,
            forall|j: int| 0 <= j < i ==> !(#[trigger] device.queue_families@[j]).supports_graphics,
        decreases n - i,
    {
        if is_queue_family_suitable(&device.queue_families[i]) {
            return Ok(i as u32);
        }
        i = i + 1;
    }
    Err(BootstrapError::NoSuitableQueueFamily)
}

/// The device-level half of the suitability policy.
pub fn is_device_suitable(device: &PhysicalDeviceCandidate) -> (suitable: bool)
    ensures
        suitable == spec_device_suitable(*device),
{
    device.device_type == DeviceType::DiscreteGpu && device.geometry_shader
}

/// First-match selection over the candidates in driver-reported order: the
/// first device whose first graphics-capable queue family can also present
/// and which passes the device-level checks wins, even if a later candidate
/// would score better. Returns the winning candidate's position and its
/// chosen queue-family index.
pub fn pick_physical_device_and_index(devices: &Vec<PhysicalDeviceCandidate>) -> (result: Result<
    (usize, u32),
    BootstrapError,
>)
    requires
        forall|d: int|
            0 <= d < devices@.len() ==> (#[trigger] devices@[d]).queue_families@.len()
                <= u32::MAX,
    ensures
        result is Ok <==> exists|d: int|
            0 <= d < devices@.len() && candidate_passes(#[trigger] devices@[d]),
        match result {
            Ok((chosen, family)) => {
                &&& chosen < devices@.len()
                &&& candidate_passes(devices@[chosen as int])
                &&& is_first_graphics_family(
                    devices@[chosen as int].queue_families@,
                    family as int,
                )
                &&& devices@[chosen as int].queue_families@[family as int].supports_present
                &&& forall|d: int| 0 <= d < chosen ==> !candidate_passes(#[trigger] devices@[d])
            },
            Err(e) => e == BootstrapError::NoSuitableDevice,
        },
{
    let n = devices.len();
    let mut d: usize = 0;
    while d < n
        invariant
            n == devices@.len(),
            d <= n,
            forall|k: int|
                0 <= k < n ==> (#[trigger] devices@[k]).queue_families@.len() <= u32::MAX,
            forall|k: int| 0 <= k < d ==> !candidate_passes(#[trigger] devices@[k]),
        decreases n - d,
    {
        let device = &devices[d];
        match pick_queue_family_index(device) {
            Ok(queue_index) => {
                let present = device.queue_families[queue_index as usize].supports_present;
                if present && is_device_suitable(device) {
                    return Ok((d, queue_index));
                }
                proof {
                    if candidate_passes(devices@[d as int]) {
                        let i = choose|i: int|
                            #[trigger] is_first_graphics_family(device.queue_families@, i)
                                && device.queue_families@[i].supports_present;
                        lemma_first_graphics_family_unique(
                            device.queue_families@,
                            i,
                            queue_index as int,
                        );
                    }
                }
            },
            Err(_) => {
                proof {
                    if candidate_passes(devices@[d as int]) {
                        let i = choose|i: int|
                            #[trigger] is_first_graphics_family(device.queue_families@, i)
                                && device.queue_families@[i].supports_present;
                        assert(0 <= i < device.queue_families@.len()
                            && device.queue_families@[i].supports_graphics);
                    }
                }
            },
        }
        d = d + 1;
    }
    Err(BootstrapError::NoSuitableDevice)
}

} // verus!
