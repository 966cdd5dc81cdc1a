//! Choice of the physical device: the first one, in enumeration order, that
//! passes every suitability check.
use vstd::prelude::*;

use crate::error::{SetupError, SuitabilityError};
use crate::queue_family::{
    QueueFamilyIndices, has_graphics_family, has_present_family, is_first_graphics_family,
    is_first_present_family,
};
use crate::swapchain::SwapchainSupport;

verus! {

/// Name of the swapchain device extension.
pub open spec fn swapchain_extension_name() -> Seq<char> {
    "VK_KHR_swapchain"@
}

/// The device extensions every selected device must offer.
pub open spec fn spec_required_device_extensions() -> Seq<Seq<char>> {
    seq![swapchain_extension_name()]
}

/// Builds the list of required device extensions.
pub fn required_device_extensions() -> (r: Vec<String>)
    ensures
        r@.len() == spec_required_device_extensions().len(),
        forall|i: int| 0 <= i < r@.len() ==> #[trigger] r@[i]@ == spec_required_device_extensions()[i],
{
    let name = "VK_KHR_swapchain".to_owned();
    vec![name]
}

/// `name` is one of `available`.
pub open spec fn offers(available: Seq<String>, name: Seq<char>) -> bool {
    exists|i: int| 0 <= i < available.len() && #[trigger] available[i]@ == name
}

/// Every name of `required` is one of `available`.
pub open spec fn offers_all(available: Seq<String>, required: Seq<Seq<char>>) -> bool {
    forall|j: int| 0 <= j < required.len() ==> offers(available, #[trigger] required[j])
}

pub(crate) fn contains_name(available: &Vec<String>, name: &String) -> (r: bool)
    ensures
        r == offers(available@, name@),
{
    let mut i: usize = 0;
    while i < available.len()
        invariant
            i <= available@.len(),
            forall|k: int| 0 <= k < i ==> #[trigger] available@[k]@ != name@,
        decreases available@.len() - i,
    {
        if available[i] == *name {
            assert(available@[i as int]@ == name@);
            return true;
        }
        i = i + 1;
    }
    false
}

/// Whether every required device extension is among `available`.
pub fn check_physical_device_extensions(available: &Vec<String>) -> (r: bool)
    ensures
        r == offers_all(available@, spec_required_device_extensions()),
{
    let required = required_device_extensions();
    let mut j: usize = 0;
    while j < required.len()
        invariant
            j <= required@.len(),
            required@.len() == spec_required_device_extensions().len(),
            forall|i: int|
                0 <= i < required@.len() ==> #[trigger] required@[i]@
                    == spec_required_device_extensions()[i],
            forall|k: int|
                0 <= k < j ==> offers(available@, #[trigger] spec_required_device_extensions()[k]),
        decreases required@.len() - j,
    {
        if !contains_name(available, &required[j]) {
            assert(!offers(available@, spec_required_device_extensions()[j as int]));
            return false;
        }
        j = j + 1;
    }
    true
}

/// What the queries report about one physical device.
#[derive(Debug, Clone, PartialEq, Eq)]
pub struct DeviceCandidate {
    /// The device's name, for the log.
    pub name: String,
    /// False when one of the queries below failed; the other fields are then meaningless.
    pub queries_ok: bool,
    /// Capability flags of each queue family.
    pub queue_flags: Vec<u32>,
    /// Whether each queue family can present to the surface.
    pub present_support: Vec<bool>,
    /// Names of the device extensions offered.
    pub extensions: Vec<String>,
    pub swapchain_support: SwapchainSupport,
}

impl DeviceCandidate {
    /// The family counts fit the 32-bit family indices.
    pub open spec fn wf(&self) -> bool {
        self.queue_flags@.len() <= u32::MAX && self.present_support@.len() <= u32::MAX
    }

    pub open spec fn has_queue_families(&self) -> bool {
        has_graphics_family(self.queue_flags@) && has_present_family(self.present_support@)
    }

    /// The device passes every check.
    pub open spec fn is_suitable(&self) -> bool {
        &&& self.queries_ok
        &&& self.has_queue_families()
        &&& offers_all(self.extensions@, spec_required_device_extensions())
        &&& self.swapchain_support.spec_is_adequate()
    }

    /// The first check that an unsuitable device fails.
    pub open spec fn skip_reason(&self) -> SuitabilityError {
        if !self.queries_ok {
            SuitabilityError::QueryFailed
        } else if !self.has_queue_families() {
            SuitabilityError::MissingQueueFamilies
        } else if !offers_all(self.extensions@, spec_required_device_extensions()) {
            SuitabilityError::MissingDeviceExtensions
        } else {
            SuitabilityError::InsufficientSwapchainSupport
        }
    }

    /// The queue families of a suitable device are the first graphics one
    /// and the first one that presents.
    pub open spec fn has_indices(&self, indices: QueueFamilyIndices) -> bool {
        is_first_graphics_family(self.queue_flags@, indices.graphics as int)
            && is_first_present_family(self.present_support@, indices.present as int)
    }
}

/// Runs the checks on one device in order: queries, queue families,
/// extensions, swapchain support. Returns the device's queue families.
pub fn check_physical_device(candidate: &DeviceCandidate) -> (r: Result<
    QueueFamilyIndices,
    SuitabilityError,
>)
    requires
        candidate.wf(),
    ensures
        r is Ok <==> candidate.is_suitable(),
        r is Ok ==> candidate.has_indices(r->Ok_0),
        r is Err ==> r->Err_0 == candidate.skip_reason(),
{
    if !candidate.queries_ok {
        return Err(SuitabilityError::QueryFailed);
    }
    let indices = match QueueFamilyIndices::get(&candidate.queue_flags, &candidate.present_support) {
        Ok(indices) => indices,
        Err(e) => {
            return Err(e);
        },
    };
    if !check_physical_device_extensions(&candidate.extensions) {
        return Err(SuitabilityError::MissingDeviceExtensions);
    }
    if !candidate.swapchain_support.is_adequate() {
        return Err(SuitabilityError::InsufficientSwapchainSupport);
    }
    Ok(indices)
}

/// The device chosen, with its queue families.
#[derive(Debug, Copy, Clone, PartialEq, Eq, Structural)]
pub struct ChosenDevice {
    /// Position of the device in the enumeration.
    pub index: usize,
    pub queue_families: QueueFamilyIndices,
}

/// Outcome of the selection: the device chosen, if any, and why each device
/// looked at before it was skipped.
#[derive(Debug, Clone, PartialEq, Eq)]
pub struct DeviceSelection {
    pub chosen: Option<ChosenDevice>,
    /// In enumeration order: the devices before the chosen one, or all of
    /// them when none passed.
    pub skipped: Vec<SuitabilityError>,
}

impl DeviceSelection {
    /// The chosen device, or the fatal error when every device was skipped.
    pub fn result(&self) -> (r: Result<ChosenDevice, SetupError>)
        ensures
            self.chosen is Some ==> r == Ok::<ChosenDevice, SetupError>(self.chosen->0),
            self.chosen is None ==> r == Err::<ChosenDevice, SetupError>(
                SetupError::NoSuitableDevice,
            ),
    {
        match self.chosen {
            Some(c) => Ok(c),
            None => Err(SetupError::NoSuitableDevice),
        }
    }
}

/// Goes through the devices in order and chooses the first suitable one.
pub fn pick_physical_device(candidates: &Vec<DeviceCandidate>) -> (r: DeviceSelection)
    requires
        forall|i: int| 0 <= i < candidates@.len() ==> (#[trigger] candidates@[i]).wf(),
    ensures
        r.chosen is None <==> forall|i: int|
            0 <= i < candidates@.len() ==> !(#[trigger] candidates@[i]).is_suitable(),
        r.chosen is Some ==> {
            let c = r.chosen->0;
            &&& c.index < candidates@.len()
            &&& candidates@[c.index as int].is_suitable()
            &&& candidates@[c.index as int].has_indices(c.queue_families)
            &&& forall|k: int| 0 <= k < c.index ==> !(#[trigger] candidates@[k]).is_suitable()
            &&& r.skipped@.len() == c.index
        },
        r.chosen is None ==> r.skipped@.len() == candidates@.len(),
        forall|k: int|
            0 <= k < r.skipped@.len() ==> #[trigger] r.skipped@[k] == candidates@[k].skip_reason(),
{
    let mut skipped: Vec<SuitabilityError> = Vec::new();
    let mut i: usize = 0;
    while i < candidates.len()
        invariant
            i <= candidates@.len(),
            forall|j: int| 0 <= j < candidates@.len() ==> (#[trigger] candidates@[j]).wf(),
            forall|k: int| 0 <= k < i ==> !(#[trigger] candidates@[k]).is_suitable(),
            skipped@.len() == i,
            forall|k: int|
                0 <= k < skipped@.len() ==> #[trigger] skipped@[k] == candidates@[k].skip_reason(),
        decreases candidates@.len() - i,
    {
        match check_physical_device(&candidates[i]) {
            Ok(queue_families) => {
                return DeviceSelection {
                    chosen: Some(ChosenDevice { index: i, queue_families }),
                    skipped,
                };
            },
            Err(reason) => {
                skipped.push(reason);
            },
        }
        i = i + 1;
    }
    DeviceSelection { chosen: None, skipped }
}

} // verus!
