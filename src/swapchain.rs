//! Negotiation of the swapchain's format, present mode, extent, image count
//! and sharing from what the surface reports.
use vstd::prelude::*;

use crate::queue_family::{QueueFamilyIndices, SharingMode};

verus! {

/// Raw value of the 8-bit BGRA sRGB image format.
pub const FORMAT_B8G8R8A8_SRGB: i32 = 50;

/// Raw value of the nonlinear sRGB color space.
pub const COLOR_SPACE_SRGB_NONLINEAR: i32 = 0;

/// Raw value of the mailbox present mode (low-latency triple buffering).
pub const PRESENT_MODE_MAILBOX: i32 = 1;

/// Raw value of the FIFO present mode, which every surface supports.
pub const PRESENT_MODE_FIFO: i32 = 2;

/// A width and a height in pixels.
#[derive(Debug, Copy, Clone, PartialEq, Eq, Structural)]
pub struct Extent2D {
    pub width: u32,
    pub height: u32,
}

/// An image format with its color space, as raw values.
#[derive(Debug, Copy, Clone, PartialEq, Eq, Structural)]
pub struct SurfaceFormat {
    pub format: i32,
    pub color_space: i32,
}

/// What the surface reports of the images it can present.
#[derive(Debug, Copy, Clone, PartialEq, Eq, Structural)]
pub struct SurfaceCapabilities {
    pub min_image_count: u32,
    /// Zero when there is no upper bound.
    pub max_image_count: u32,
    /// A width of `u32::MAX` means the window decides the extent.
    pub current_extent: Extent2D,
    pub min_image_extent: Extent2D,
    pub max_image_extent: Extent2D,
    /// Raw transform flags, handed on unchanged.
    pub current_transform: u32,
}

impl SurfaceCapabilities {
    /// When the window decides the extent, the surface's bounds are ordered.
    pub open spec fn extent_bounds_ok(self) -> bool {
        self.current_extent.width == u32::MAX ==> {
            &&& self.min_image_extent.width <= self.max_image_extent.width
            &&& self.min_image_extent.height <= self.max_image_extent.height
        }
    }

    /// The bounds that extent and image count selection rely on.
    pub open spec fn wf(self) -> bool {
        self.min_image_count < u32::MAX && self.extent_bounds_ok()
    }

    /// Checks `wf`.
    pub fn is_wf(&self) -> (r: bool)
        ensures
            r == self.wf(),
    {
        self.min_image_count < u32::MAX && (self.current_extent.width != u32::MAX || (
        self.min_image_extent.width <= self.max_image_extent.width
            && self.min_image_extent.height <= self.max_image_extent.height))
    }
}

/// What a physical device offers for presenting to the surface.
#[derive(Debug, Clone, PartialEq, Eq)]
pub struct SwapchainSupport {
    pub capabilities: SurfaceCapabilities,
    pub formats: Vec<SurfaceFormat>,
    pub present_modes: Vec<i32>,
}

impl SwapchainSupport {
    pub open spec fn spec_is_adequate(&self) -> bool {
        self.formats@.len() > 0 && self.present_modes@.len() > 0
    }

    /// At least one format and one present mode.
    pub fn is_adequate(&self) -> (r: bool)
        ensures
            r == self.spec_is_adequate(),
    {
        self.formats.len() > 0 && self.present_modes.len() > 0
    }
}

pub open spec fn is_preferred_format(f: SurfaceFormat) -> bool {
    f.format == FORMAT_B8G8R8A8_SRGB && f.color_space == COLOR_SPACE_SRGB_NONLINEAR
}

/// The first entry of `formats` that is 8-bit BGRA sRGB with nonlinear sRGB
/// color space, else the first entry.
pub open spec fn spec_surface_format(formats: Seq<SurfaceFormat>) -> SurfaceFormat {
    if exists|i: int| 0 <= i < formats.len() && is_preferred_format(#[trigger] formats[i]) {
        SurfaceFormat { format: FORMAT_B8G8R8A8_SRGB, color_space: COLOR_SPACE_SRGB_NONLINEAR }
    } else {
        formats[0]
    }
}

/// Mailbox when offered, FIFO otherwise.
pub open spec fn spec_present_mode(modes: Seq<i32>) -> i32 {
    if modes.contains(PRESENT_MODE_MAILBOX) {
        PRESENT_MODE_MAILBOX
    } else {
        PRESENT_MODE_FIFO
    }
}

pub open spec fn spec_clamp(x: u32, lo: u32, hi: u32) -> u32 {
    if x < lo {
        lo
    } else if x > hi {
        hi
    } else {
        x
    }
}

/// The surface's current extent when it defines one, else the window's pixel
/// size clamped componentwise into the surface's bounds.
pub open spec fn spec_extent(window: Extent2D, caps: SurfaceCapabilities) -> Extent2D {
    if caps.current_extent.width != u32::MAX {
        caps.current_extent
    } else {
        Extent2D {
            width: spec_clamp(window.width, caps.min_image_extent.width, caps.max_image_extent.width),
            height: spec_clamp(
                window.height,
                caps.min_image_extent.height,
                caps.max_image_extent.height,
            ),
        }
    }
}

/// One more image than the minimum, lowered to the maximum when there is one.
pub open spec fn spec_image_count(caps: SurfaceCapabilities) -> u32 {
    if caps.max_image_count != 0 && caps.min_image_count + 1 > caps.max_image_count {
        caps.max_image_count
    } else {
        (caps.min_image_count + 1) as u32
    }
}

/// Picks the surface format.
pub fn get_swapchain_surface_format(formats: &Vec<SurfaceFormat>) -> (r: SurfaceFormat)
    requires
        formats@.len() > 0,
    ensures
        r == spec_surface_format(formats@),
{
    let mut i: usize = 0;
    while i < formats.len()
        invariant
            i <= formats@.len(),
            forall|k: int| 0 <= k < i ==> !is_preferred_format(#[trigger] formats@[k]),
        decreases formats@.len() - i,
    {
        let f = formats[i];
        if f.format == FORMAT_B8G8R8A8_SRGB && f.color_space == COLOR_SPACE_SRGB_NONLINEAR {
            assert(is_preferred_format(formats@[i as int]));
            return f;
        }
        i = i + 1;
    }
    formats[0]
}

/// Picks the present mode.
pub fn get_swapchain_present_mode(present_modes: &Vec<i32>) -> (r: i32)
    ensures
        r == spec_present_mode(present_modes@),
{
    let mut i: usize = 0;
    while i < present_modes.len()
        invariant
            i <= present_modes@.len(),
            forall|k: int| 0 <= k < i ==> #[trigger] present_modes@[k] != PRESENT_MODE_MAILBOX,
        decreases present_modes@.len() - i,
    {
        if present_modes[i] == PRESENT_MODE_MAILBOX {
            assert(present_modes@[i as int] == PRESENT_MODE_MAILBOX);
            return PRESENT_MODE_MAILBOX;
        }
        i = i + 1;
    }
    PRESENT_MODE_FIFO
}

fn clamp_u32(x: u32, lo: u32, hi: u32) -> (r: u32)
    requires
        lo <= hi,
    ensures
        r == spec_clamp(x, lo, hi),
{
    if x < lo {
        lo
    } else if x > hi {
        hi
    } else {
        x
    }
}

/// Picks the extent from the window's pixel size and the surface's report.
pub fn get_swapchain_extent(window: Extent2D, capabilities: &SurfaceCapabilities) -> (r: Extent2D)
    requires
        capabilities.extent_bounds_ok(),
    ensures
        r == spec_extent(window, *capabilities),
{
    if capabilities.current_extent.width != u32::MAX {
        capabilities.current_extent
    } else {
        Extent2D {
            width: clamp_u32(
                window.width,
                capabilities.min_image_extent.width,
                capabilities.max_image_extent.width,
            ),
            height: clamp_u32(
                window.height,
                capabilities.min_image_extent.height,
                capabilities.max_image_extent.height,
            ),
        }
    }
}

/// Picks the number of swapchain images.
pub fn swapchain_image_count(capabilities: &SurfaceCapabilities) -> (r: u32)
    requires
        capabilities.min_image_count < u32::MAX,
    ensures
        r == spec_image_count(*capabilities),
{
    let count = capabilities.min_image_count + 1;
    if capabilities.max_image_count != 0 && count > capabilities.max_image_count {
        capabilities.max_image_count
    } else {
        count
    }
}

/// Where the surface leaves room for one image above its minimum, the image
/// count is at least one above the minimum and at most the larger of that and
/// the maximum; with no maximum it is exactly one above the minimum.
pub proof fn lemma_image_count_bounds(caps: SurfaceCapabilities)
    requires
        caps.min_image_count < u32::MAX,
        caps.max_image_count == 0 || caps.max_image_count >= caps.min_image_count + 1,
    ensures
        caps.max_image_count > 0 ==> caps.min_image_count + 1 <= spec_image_count(caps) <= if caps.max_image_count > caps.min_image_count + 1 {
            caps.max_image_count as int
        } else {
            caps.min_image_count + 1
        },
        caps.max_image_count == 0 ==> spec_image_count(caps) == caps.min_image_count + 1,
{
}

/// Everything the swapchain is created with.
#[derive(Debug, Clone, PartialEq, Eq)]
pub struct SwapchainConfig {
    pub surface_format: SurfaceFormat,
    pub present_mode: i32,
    pub extent: Extent2D,
    pub image_count: u32,
    pub sharing_mode: SharingMode,
    /// The families named for concurrent sharing; empty when exclusive.
    pub queue_family_indices: Vec<u32>,
    pub pre_transform: u32,
}

impl SwapchainConfig {
    /// Derives the swapchain's parameters from the surface's report, the
    /// discovered queue families and the window's pixel size.
    pub fn negotiate(
        support: &SwapchainSupport,
        indices: &QueueFamilyIndices,
        window: Extent2D,
    ) -> (r: SwapchainConfig)
        requires
            support.formats@.len() > 0,
            support.capabilities.wf(),
        ensures
            r.surface_format == spec_surface_format(support.formats@),
            r.present_mode == spec_present_mode(support.present_modes@),
            r.extent == spec_extent(window, support.capabilities),
            r.image_count == spec_image_count(support.capabilities),
            r.sharing_mode == indices.spec_sharing_mode(),
            r.queue_family_indices@ == indices.spec_concurrent_families(),
            r.pre_transform == support.capabilities.current_transform,
    {
        SwapchainConfig {
            surface_format: get_swapchain_surface_format(&support.formats),
            present_mode: get_swapchain_present_mode(&support.present_modes),
            extent: get_swapchain_extent(window, &support.capabilities),
            image_count: swapchain_image_count(&support.capabilities),
            sharing_mode: indices.sharing_mode(),
            queue_family_indices: indices.concurrent_families(),
            pre_transform: support.capabilities.current_transform,
        }
    }
}

} // verus!
