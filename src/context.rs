//! What the instance and the logical device are created with: layers,
//! extensions, flags and one queue per distinct family.
use vstd::prelude::*;

use crate::error::SetupError;
use crate::physical_device::{
    contains_name, offers, required_device_extensions, spec_required_device_extensions,
};
use crate::queue_family::{QueueFamilyIndices, spec_unique_families};

verus! {

/// Raw value of the instance flag that enumerates portability devices.
pub const INSTANCE_CREATE_ENUMERATE_PORTABILITY: u32 = 1;

pub open spec fn validation_layer_name() -> Seq<char> {
    "VK_LAYER_KHRONOS_validation"@
}

pub open spec fn properties2_extension_name() -> Seq<char> {
    "VK_KHR_get_physical_device_properties2"@
}

pub open spec fn portability_enumeration_extension_name() -> Seq<char> {
    "VK_KHR_portability_enumeration"@
}

pub open spec fn portability_subset_extension_name() -> Seq<char> {
    "VK_KHR_portability_subset"@
}

pub open spec fn debug_utils_extension_name() -> Seq<char> {
    "VK_EXT_debug_utils"@
}

/// The character sequences of a list of names.
pub open spec fn names(v: Seq<String>) -> Seq<Seq<char>> {
    v.map_values(|s: String| s@)
}

/// A loader or API version.
#[derive(Debug, Copy, Clone, PartialEq, Eq, Structural)]
pub struct ApiVersion {
    pub major: u32,
    pub minor: u32,
    pub patch: u32,
}

/// `v` is `w` or later, comparing major, then minor, then patch.
pub open spec fn version_at_least(v: ApiVersion, w: ApiVersion) -> bool {
    v.major > w.major || (v.major == w.major && (v.minor > w.minor || (v.minor == w.minor
        && v.patch >= w.patch)))
}

/// The first loader version on macOS that requires the portability extensions.
pub open spec fn portability_version() -> ApiVersion {
    ApiVersion { major: 1, minor: 3, patch: 216 }
}

/// Whether the portability extensions and flag are needed: on macOS, from
/// loader version 1.3.216 on.
pub fn needs_portability(is_macos: bool, loader: ApiVersion) -> (r: bool)
    ensures
        r == (is_macos && version_at_least(loader, portability_version())),
{
    is_macos && (loader.major > 1 || (loader.major == 1 && (loader.minor > 3 || (loader.minor == 3
        && loader.patch >= 216))))
}

fn push_name(v: &mut Vec<String>, s: &str)
    ensures
        names(final(v)@) == names(old(v)@).push(s@),
{
    v.push(s.to_owned());
    assert(names(final(v)@) =~= names(old(v)@).push(s@));
}

pub open spec fn spec_layers(validation: bool) -> Seq<Seq<char>> {
    if validation {
        seq![validation_layer_name()]
    } else {
        seq![]
    }
}

/// The layers to enable: the validation layer when diagnostics are on, which
/// must then be among `available`; none otherwise.
pub fn validations_layers(validation: bool, available: &Vec<String>) -> (r: Result<
    Vec<String>,
    SetupError,
>)
    ensures
        r is Err <==> validation && !offers(available@, validation_layer_name()),
        r is Err ==> r->Err_0 == SetupError::ValidationLayerMissing,
        r is Ok ==> names(r->Ok_0@) == spec_layers(validation),
{
    let mut layers: Vec<String> = Vec::new();
    if validation {
        let layer = "VK_LAYER_KHRONOS_validation";
        let wanted = layer.to_owned();
        let found = contains_name(available, &wanted);
        if !found {
            return Err(SetupError::ValidationLayerMissing);
        }
        push_name(&mut layers, layer);
    }
    assert(names(layers@) =~= spec_layers(validation));
    Ok(layers)
}

pub open spec fn spec_instance_extensions(
    window: Seq<Seq<char>>,
    portability: bool,
    validation: bool,
) -> Seq<Seq<char>> {
    window + (if portability {
        seq![properties2_extension_name(), portability_enumeration_extension_name()]
    } else {
        seq![]
    }) + (if validation {
        seq![debug_utils_extension_name()]
    } else {
        seq![]
    })
}

/// The instance extensions: those the windowing system asks for, then the
/// portability ones when needed, then the debug-utils one when diagnostics are on.
pub fn instance_extensions(window: Vec<String>, portability: bool, validation: bool) -> (r: Vec<
    String,
>)
    ensures
        names(r@) == spec_instance_extensions(names(window@), portability, validation),
{
    let mut r = window;
    if portability {
        push_name(&mut r, "VK_KHR_get_physical_device_properties2");
        push_name(&mut r, "VK_KHR_portability_enumeration");
    }
    if validation {
        push_name(&mut r, "VK_EXT_debug_utils");
    }
    assert(names(r@) =~= spec_instance_extensions(names(window@), portability, validation));
    r
}

/// Everything the instance is created with.
#[derive(Debug, Clone, PartialEq, Eq)]
pub struct InstancePlan {
    pub layers: Vec<String>,
    pub extensions: Vec<String>,
    /// Raw instance creation flags.
    pub flags: u32,
}

/// Chooses the instance's layers, extensions and flags.
pub fn plan_instance(
    validation: bool,
    portability: bool,
    window_extensions: Vec<String>,
    available_layers: &Vec<String>,
) -> (r: Result<InstancePlan, SetupError>)
    ensures
        r is Err <==> validation && !offers(available_layers@, validation_layer_name()),
        r is Err ==> r->Err_0 == SetupError::ValidationLayerMissing,
        r is Ok ==> {
            let p = r->Ok_0;
            &&& names(p.layers@) == spec_layers(validation)
            &&& names(p.extensions@) == spec_instance_extensions(
                names(window_extensions@),
                portability,
                validation,
            )
            &&& p.flags == if portability {
                INSTANCE_CREATE_ENUMERATE_PORTABILITY
            } else {
                0
            }
        },
{
    let layers = match validations_layers(validation, available_layers) {
        Ok(layers) => layers,
        Err(e) => {
            return Err(e);
        },
    };
    let extensions = instance_extensions(window_extensions, portability, validation);
    let flags = if portability {
        INSTANCE_CREATE_ENUMERATE_PORTABILITY
    } else {
        0
    };
    Ok(InstancePlan { layers, extensions, flags })
}

pub open spec fn spec_device_extensions(portability: bool) -> Seq<Seq<char>> {
    spec_required_device_extensions() + (if portability {
        seq![portability_subset_extension_name()]
    } else {
        seq![]
    })
}

/// Everything the logical device is created with.
#[derive(Debug, Clone, PartialEq, Eq)]
pub struct LogicalDevicePlan {
    /// One queue, of priority one, for each of these families.
    pub queue_families: Vec<u32>,
    pub layers: Vec<String>,
    pub extensions: Vec<String>,
}

/// One queue per distinct discovered family, the validation layer when
/// diagnostics are on, the required device extensions and, when needed,
/// the portability subset.
pub fn plan_logical_device(indices: &QueueFamilyIndices, validation: bool, portability: bool) -> (r:
    LogicalDevicePlan)
    ensures
        r.queue_families@ == spec_unique_families(*indices),
        names(r.layers@) == spec_layers(validation),
        names(r.extensions@) == spec_device_extensions(portability),
{
    let mut layers: Vec<String> = Vec::new();
    if validation {
        push_name(&mut layers, "VK_LAYER_KHRONOS_validation");
    }
    assert(names(layers@) =~= spec_layers(validation));
    let mut extensions = required_device_extensions();
    assert(names(extensions@) =~= spec_required_device_extensions());
    if portability {
        push_name(&mut extensions, "VK_KHR_portability_subset");
    }
    assert(names(extensions@) =~= spec_device_extensions(portability));
    LogicalDevicePlan { queue_families: indices.unique_families(), layers, extensions }
}

} // verus!
