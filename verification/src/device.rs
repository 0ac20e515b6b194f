//! Choice of the physical device, and what the logical device is created with.

use crate::error::BootstrapError;
use crate::handles::PhysicalDeviceHandle;
use crate::vulkan::{has_graphics, supports_graphics};
use vstd::prelude::*;

verus! {

/// A queue family of a physical device, as its capability flags.
#[derive(Clone, Copy, Debug, PartialEq, Eq, Structural)]
pub struct QueueFamily {
    pub flags: u32,
}

/// A physical device with its queue families, in the order in which the
/// runtime lists them.
#[derive(Debug, PartialEq, Eq)]
pub struct PhysicalDevice {
    pub handle: PhysicalDeviceHandle,
    pub families: Vec<QueueFamily>,
}

/// The mathematical content of a `PhysicalDevice`.
pub ghost struct PhysicalDeviceView {
    pub handle: PhysicalDeviceHandle,
    pub families: Seq<QueueFamily>,
}

impl View for PhysicalDevice {
    type V = PhysicalDeviceView;

    open spec fn view(&self) -> PhysicalDeviceView {
        PhysicalDeviceView { handle: self.handle, families: self.families@ }
    }
}

/// The device that was chosen, with the queue family that it was chosen for.
#[derive(Clone, Copy, Debug, PartialEq, Eq, Structural)]
pub struct PhysicalDeviceCandidate {
    /// The place of the device in the enumeration.
    pub device_index: usize,
    /// The handle of the device.
    pub device: PhysicalDeviceHandle,
    /// The index of the queue family among the families of the device.
    pub family: usize,
}

/// Whether family `family` of device `device` exists and takes graphics work.
pub open spec fn is_graphics_family(devices: Seq<PhysicalDevice>, device: int, family: int) -> bool {
    &&& 0 <= device < devices.len()
    &&& 0 <= family < devices[device]@.families.len()
    &&& has_graphics(devices[device]@.families[family].flags)
}

/// Whether a family comes before another in the enumeration: the families of
/// an earlier device first, then the earlier families of the same device.
pub open spec fn precedes(device: int, family: int, other_device: int, other_family: int) -> bool {
    device < other_device || (device == other_device && family < other_family)
}

/// Whether family `family` of device `device` is the first graphics family of
/// the enumeration.
pub open spec fn is_first_fit(devices: Seq<PhysicalDevice>, device: int, family: int) -> bool {
    &&& is_graphics_family(devices, device, family)
    &&& forall|d: int, f: int|
        precedes(d, f, device, family) ==> !#[trigger] is_graphics_family(devices, d, f)
}

/// Whether no device of the enumeration has a graphics family.
pub open spec fn no_graphics_family(devices: Seq<PhysicalDevice>) -> bool {
    forall|d: int, f: int| !#[trigger] is_graphics_family(devices, d, f)
}

/// What selection returns for an enumeration.
pub open spec fn selects(
    devices: Seq<PhysicalDevice>,
    outcome: Result<PhysicalDeviceCandidate, BootstrapError>,
) -> bool {
    match outcome {
        Ok(candidate) => {
            &&& is_first_fit(devices, candidate.device_index as int, candidate.family as int)
            &&& candidate.device == devices[candidate.device_index as int]@.handle
        },
        Err(error) => error == BootstrapError::DeviceSelection && no_graphics_family(devices),
    }
}

/// The outcome of selection for an enumeration: the one that `selects` holds
/// of.
pub open spec fn selection(devices: Seq<PhysicalDevice>) -> Result<
    PhysicalDeviceCandidate,
    BootstrapError,
> {
    choose|outcome: Result<PhysicalDeviceCandidate, BootstrapError>| selects(devices, outcome)
}

/// Finds the first queue family of a device that takes graphics work.
pub fn find_graphics_family(families: &Vec<QueueFamily>) -> (found: Option<usize>)
    ensures
        match found {
            Some(family) => {
                &&& family < families.len()
                &&& has_graphics(families[family as int].flags)
                &&& forall|f: int| 0 <= f < family ==> !has_graphics(#[trigger] families[f].flags)
            },
            None => forall|f: int|
                0 <= f < families.len() ==> !has_graphics(#[trigger] families[f].flags),
        },
{
    let mut family: usize = 0;
    while family < families.len()
        invariant
            family <= families.len(),
            forall|f: int| 0 <= f < family ==> !has_graphics(#[trigger] families[f].flags),
        decreases families.len() - family,
    {
        if supports_graphics(families[family].flags) {
            return Some(family);
        }
        family += 1;
    }
    None
}

/// Chooses the physical device: the first one, in the order of the
/// enumeration, that has a queue family for graphics work, with the first such
/// family. Later devices are not looked at. Without any such family selection
/// fails.
pub fn pick_physical_device(devices: &Vec<PhysicalDevice>) -> (outcome: Result<
    PhysicalDeviceCandidate,
    BootstrapError,
>)
    ensures
        selects(devices@, outcome),
        outcome == selection(devices@),
{
    let mut device: usize = 0;
    while device < devices.len()
        invariant
            device <= devices.len(),
            forall|d: int, f: int|
                0 <= d < device ==> !#[trigger] is_graphics_family(devices@, d, f),
        decreases devices.len() - device,
    {
        match find_graphics_family(&devices[device].families) {
            Some(family) => {
                let candidate = PhysicalDeviceCandidate {
                    device_index: device,
                    device: devices[device].handle,
                    family,
                };
                assert(is_graphics_family(devices@, device as int, family as int));
                proof {
                    lemma_selection_is_selected(devices@, Ok(candidate));
                }
                return Ok(candidate);
            },
            None => {},
        }
        device += 1;
    }
    proof {
        lemma_selection_is_selected(devices@, Err(BootstrapError::DeviceSelection));
    }
    Err(BootstrapError::DeviceSelection)
}

/// Selection is a function of the enumeration: two outcomes for the same
/// enumeration are the same.
pub proof fn lemma_selection_unique(
    devices: Seq<PhysicalDevice>,
    first: Result<PhysicalDeviceCandidate, BootstrapError>,
    second: Result<PhysicalDeviceCandidate, BootstrapError>,
)
    requires
        selects(devices, first),
        selects(devices, second),
    ensures
        first == second,
{
    match (first, second) {
        (Ok(a), Ok(b)) => {
            let (ad, af) = (a.device_index as int, a.family as int);
            let (bd, bf) = (b.device_index as int, b.family as int);
            assert(is_graphics_family(devices, ad, af));
            assert(is_graphics_family(devices, bd, bf));
            assert(!precedes(ad, af, bd, bf));
            assert(!precedes(bd, bf, ad, af));
        },
        (Ok(a), Err(_)) => {
            assert(is_graphics_family(devices, a.device_index as int, a.family as int));
        },
        (Err(_), Ok(b)) => {
            assert(is_graphics_family(devices, b.device_index as int, b.family as int));
        },
        (Err(_), Err(_)) => {},
    }
}

/// Whatever `selects` holds of is the outcome that `selection` names.
pub proof fn lemma_selection_is_selected(
    devices: Seq<PhysicalDevice>,
    outcome: Result<PhysicalDeviceCandidate, BootstrapError>,
)
    requires
        selects(devices, outcome),
    ensures
        outcome == selection(devices),
        selects(devices, selection(devices)),
{
    lemma_selection_unique(devices, outcome, selection(devices));
}

/// The first graphics family among the first `upto` families, if there is
/// one.
proof fn lemma_least_family(families: Seq<QueueFamily>, upto: int) -> (found: Option<int>)
    requires
        0 <= upto <= families.len(),
    ensures
        match found {
            Some(family) => {
                &&& 0 <= family < upto
                &&& has_graphics(families[family].flags)
                &&& forall|f: int| 0 <= f < family ==> !has_graphics(#[trigger] families[f].flags)
            },
            None => forall|f: int| 0 <= f < upto ==> !has_graphics(#[trigger] families[f].flags),
        },
    decreases upto,
{
    if upto == 0 {
        None
    } else {
        match lemma_least_family(families, upto - 1) {
            Some(family) => Some(family),
            None => if has_graphics(families[upto - 1].flags) {
                Some(upto - 1)
            } else {
                None
            },
        }
    }
}

/// The first graphics family among the first `upto` devices, if there is one.
proof fn lemma_least_device(devices: Seq<PhysicalDevice>, upto: int) -> (found: Option<
    (int, int),
>)
    requires
        0 <= upto <= devices.len(),
    ensures
        match found {
            Some((device, family)) => device < upto && is_first_fit(devices, device, family),
            None => forall|d: int, f: int|
                0 <= d < upto ==> !#[trigger] is_graphics_family(devices, d, f),
        },
    decreases upto,
{
    if upto == 0 {
        None
    } else {
        match lemma_least_device(devices, upto - 1) {
            Some(found) => Some(found),
            None => {
                let families = devices[upto - 1]@.families;
                match lemma_least_family(families, families.len() as int) {
                    Some(family) => {
                        assert(is_graphics_family(devices, upto - 1, family));
                        Some((upto - 1, family))
                    },
                    None => None,
                }
            },
        }
    }
}

/// Every enumeration has an outcome: `selects` holds of `selection`.
pub proof fn lemma_selection_exists(devices: Vec<PhysicalDevice>)
    ensures
        selects(devices@, selection(devices@)),
{
    assert(devices.len() == devices@.len());
    match lemma_least_device(devices@, devices@.len() as int) {
        Some((device, family)) => {
            let families = devices@[device].families;
            assert(families.len() == families@.len());
            let candidate = PhysicalDeviceCandidate {
                device_index: device as usize,
                device: devices@[device].handle,
                family: family as usize,
            };
            lemma_selection_is_selected(devices@, Ok(candidate));
        },
        None => {
            lemma_selection_is_selected(devices@, Err(BootstrapError::DeviceSelection));
        },
    }
}

/// Selection fails exactly when the enumeration holds no graphics family, and
/// a graphics family anywhere keeps it from failing.
pub proof fn lemma_selection_fails_without_candidate(
    devices: Seq<PhysicalDevice>,
    outcome: Result<PhysicalDeviceCandidate, BootstrapError>,
)
    requires
        selects(devices, outcome),
    ensures
        outcome is Err <==> no_graphics_family(devices),
        outcome is Err ==> outcome == Err::<PhysicalDeviceCandidate, BootstrapError>(
            BootstrapError::DeviceSelection,
        ),
{
    if let Ok(candidate) = outcome {
        assert(is_graphics_family(
            devices,
            candidate.device_index as int,
            candidate.family as int,
        ));
    }
}

/// First fit: where a graphics family exists, the candidate is a graphics
/// family and no graphics family comes before it, whatever comes after.
pub proof fn lemma_first_fit(
    devices: Seq<PhysicalDevice>,
    outcome: Result<PhysicalDeviceCandidate, BootstrapError>,
    device: int,
    family: int,
)
    requires
        selects(devices, outcome),
        is_graphics_family(devices, device, family),
    ensures
        outcome is Ok,
        !precedes(
            device,
            family,
            outcome->Ok_0.device_index as int,
            outcome->Ok_0.family as int,
        ),
{
}

/// Selection looks no further than the first fit: where one of the first
/// `kept` devices has a graphics family, the enumeration cut after these
/// devices has the outcome of the whole, whatever the later devices offer.
pub proof fn lemma_selection_ignores_later_devices(
    devices: Seq<PhysicalDevice>,
    kept: int,
    device: int,
    family: int,
    outcome: Result<PhysicalDeviceCandidate, BootstrapError>,
)
    requires
        0 <= device < kept <= devices.len(),
        is_graphics_family(devices, device, family),
    ensures
        selects(devices.subrange(0, kept), outcome) <==> selects(devices, outcome),
{
    let cut = devices.subrange(0, kept);
    assert forall|d: int, f: int| #[trigger]
        is_graphics_family(cut, d, f) <==> d < kept && is_graphics_family(devices, d, f) by {
        if 0 <= d < kept {
            assert(cut[d] == devices[d]);
        }
    }
    assert(is_graphics_family(cut, device, family));
    if let Ok(candidate) = outcome {
        let (d, f) = (candidate.device_index as int, candidate.family as int);
        if selects(devices, outcome) {
            assert(!precedes(device, family, d, f));
            assert(cut[d] == devices[d]);
            assert forall|d2: int, f2: int| precedes(d2, f2, d, f) implies !#[trigger]
                is_graphics_family(cut, d2, f2) by {
                assert(!is_graphics_family(devices, d2, f2));
            }
        }
        if selects(cut, outcome) {
            assert(cut[d] == devices[d]);
            assert forall|d2: int, f2: int| precedes(d2, f2, d, f) implies !#[trigger]
                is_graphics_family(devices, d2, f2) by {
                assert(!is_graphics_family(cut, d2, f2));
            }
        }
    }
}

/// The number of queues that are requested of the chosen family.
pub open spec fn requested_queue_count() -> u32 {
    1
}

/// The index, within its family, of the queue that is retrieved.
pub open spec fn requested_queue_index() -> u32 {
    0
}

/// What the logical device is created with: one queue of the candidate's
/// family and nothing else, neither extensions nor features.
#[derive(Debug, PartialEq, Eq)]
pub struct DeviceDescriptor {
    pub physical_device: PhysicalDeviceHandle,
    pub queue_family: usize,
    pub queue_count: u32,
    pub extensions: Vec<String>,
}

/// The mathematical content of a `DeviceDescriptor`.
pub ghost struct DeviceDescriptorView {
    pub physical_device: PhysicalDeviceHandle,
    pub queue_family: usize,
    pub queue_count: u32,
    pub extensions: Seq<Seq<char>>,
}

impl View for DeviceDescriptor {
    type V = DeviceDescriptorView;

    open spec fn view(&self) -> DeviceDescriptorView {
        DeviceDescriptorView {
            physical_device: self.physical_device,
            queue_family: self.queue_family,
            queue_count: self.queue_count,
            extensions: crate::config::names(self.extensions@),
        }
    }
}

/// The descriptor for a candidate.
pub open spec fn device_descriptor(candidate: PhysicalDeviceCandidate) -> DeviceDescriptorView {
    DeviceDescriptorView {
        physical_device: candidate.device,
        queue_family: candidate.family,
        queue_count: requested_queue_count(),
        extensions: Seq::empty(),
    }
}

/// Describes the logical device for the chosen candidate.
pub fn create_logical_device(candidate: &PhysicalDeviceCandidate) -> (descriptor: DeviceDescriptor)
    ensures
        descriptor@ == device_descriptor(*candidate),
{
    let descriptor = DeviceDescriptor {
        physical_device: candidate.device,
        queue_family: candidate.family,
        queue_count: 1,
        extensions: Vec::new(),
    };
    assert(descriptor@.extensions =~= Seq::<Seq<char>>::empty());
    descriptor
}

/// Which queue is retrieved from the logical device.
#[derive(Clone, Copy, Debug, PartialEq, Eq, Structural)]
pub struct QueueRequest {
    pub family: usize,
    pub index: u32,
}

/// The queue that is retrieved once the device exists: the first of the
/// candidate's family.
pub fn graphics_queue(candidate: &PhysicalDeviceCandidate) -> (request: QueueRequest)
    ensures
        request == (QueueRequest { family: candidate.family, index: requested_queue_index() }),
{
    QueueRequest { family: candidate.family, index: 0 }
}

} // verus!
