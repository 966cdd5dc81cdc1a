//! Failures of the setup stages.
use vstd::prelude::*;

verus! {

/// Why a physical device cannot be used; a device with such a reason is
/// skipped, never fatal by itself.
#[derive(Debug, Copy, Clone, PartialEq, Eq, Structural)]
pub enum SuitabilityError {
    /// No family with graphics capability, or none that can present to the surface.
    MissingQueueFamilies,
    /// A required device extension is not offered.
    MissingDeviceExtensions,
    /// The surface offers no format or no present mode on this device.
    InsufficientSwapchainSupport,
    /// One of the queries that describe the device failed.
    QueryFailed,
}

/// Fatal failures while choosing what to create.
#[derive(Debug, Copy, Clone, PartialEq, Eq, Structural)]
pub enum SetupError {
    /// Diagnostics were requested but the validation layer is not installed.
    ValidationLayerMissing,
    /// Every enumerated physical device was skipped.
    NoSuitableDevice,
}

} // verus!
