//! Negotiation of the swap configuration: surface format, present mode,
//! extent, image count, and queue sharing mode, derived from a capability
//! snapshot of one (device, surface) pair and a window size hint.

use vstd::prelude::*;

use crate::errors::ContextError;

verus! {

/// A width/height pair, as the driver and the window system report sizes.
#[derive(Clone, Copy, Debug, PartialEq, Eq, Structural)]
pub struct Extent2D {
    pub width: u32,
    pub height: u32,
}

/// A (pixel format, color space) pair advertised for a surface.  The numeric
/// values are the driver's own enumeration values, carried as plain integers.
#[derive(Clone, Copy, Debug, PartialEq, Eq, Structural)]
pub struct SurfaceFormat {
    pub format: u32,
    pub color_space: u32,
}

/// The "any format" sentinel: a surface that advertises exactly one format
/// entry with this value accepts whatever format the application prefers.
pub const FORMAT_UNDEFINED: u32 = 0;

/// 8-bit-per-channel RGBA, the preferred pixel format.
pub const FORMAT_R8G8B8A8_UNORM: u32 = 37;

/// The non-linear sRGB color space, the preferred color space.
pub const COLOR_SPACE_SRGB_NONLINEAR: u32 = 0;

/// The sentinel width marking a surface whose extent is not fixed by the
/// window system; the application must then clamp its own size hint.
pub const EXTENT_UNCONSTRAINED: u32 = 0xffff_ffff;

/// The format chosen when the surface leaves the choice open.
pub open spec fn preferred_format() -> SurfaceFormat {
    SurfaceFormat { format: FORMAT_R8G8B8A8_UNORM, color_space: COLOR_SPACE_SRGB_NONLINEAR }
}

/// `x` clamped into `[lo, hi]`.
pub open spec fn spec_clamp(x: u32, lo: u32, hi: u32) -> u32 {
    if x < lo {
        lo
    } else if x > hi {
        hi
    } else {
        x
    }
}

/// Clamp `x` into the inclusive range `[lo, hi]`.
pub fn bounded(x: u32, lo: u32, hi: u32) -> (r: u32)
    requires
        lo <= hi,
    ensures
        r == spec_clamp(x, lo, hi),
        lo <= r <= hi,
        lo <= x <= hi ==> r == x,
{
    if x < lo {
        lo
    } else if x > hi {
        hi
    } else {
        x
    }
}

/// The capability limits reported for one (device, surface) pair.
#[derive(Clone, Copy, Debug, PartialEq, Eq, Structural)]
pub struct SurfaceCapabilities {
    pub min_image_count: u32,
    pub max_image_count: u32,
    pub current_extent: Extent2D,
    pub min_image_extent: Extent2D,
    pub max_image_extent: Extent2D,
    pub current_transform: u32,
}

impl SurfaceCapabilities {
    /// The bounds any correctly reported snapshot satisfies: the extent range
    /// is non-empty, the desired image count `min + 1` is representable, and
    /// a bounded image count range is non-empty.
    pub open spec fn wf(self) -> bool {
        &&& self.min_image_extent.width <= self.max_image_extent.width
        &&& self.min_image_extent.height <= self.max_image_extent.height
        &&& self.min_image_count < u32::MAX
        &&& (self.max_image_count > 0 ==> self.min_image_count <= self.max_image_count)
    }
}

/// The number of swap images to request: one more than the reported minimum
/// (a triple-buffering bias), clamped to the reported maximum when the device
/// imposes one.  A `max_image_count` of zero means the device sets no bound,
/// and the desired count is returned unclamped.
pub fn triple_buffer_image_count(capabilities: &SurfaceCapabilities) -> (count: u32)
    requires
        capabilities.wf(),
    ensures
        capabilities.max_image_count == 0 ==> count == capabilities.min_image_count + 1,
        capabilities.max_image_count > 0 ==> count == spec_clamp(
            (capabilities.min_image_count + 1) as u32,
            capabilities.min_image_count,
            capabilities.max_image_count,
        ),
        capabilities.max_image_count > 0 ==> capabilities.min_image_count <= count
            <= capabilities.max_image_count,
        count >= capabilities.min_image_count,
{
    let desired = capabilities.min_image_count + 1;
    if capabilities.max_image_count > 0 {
        bounded(desired, capabilities.min_image_count, capabilities.max_image_count)
    } else {
        desired
    }
}

/// Everything queried about one (device, surface) pair that the negotiation
/// reads: capability limits, the advertised formats, and the advertised
/// present modes.  Immutable once captured.
#[derive(Clone, Debug)]
pub struct SwapChainSupportDetails {
    pub capabilities: SurfaceCapabilities,
    pub formats: Vec<SurfaceFormat>,
    pub present_modes: Vec<u32>,
}

/// The format the negotiation settles on, given a non-empty format list:
/// the preferred format when the surface leaves the choice open (a single
/// "undefined" entry) or advertises it; the first advertised format
/// otherwise.
pub open spec fn spec_choose_format(formats: Seq<SurfaceFormat>) -> SurfaceFormat
    recommends
        formats.len() > 0,
{
    if formats.len() == 1 && formats[0].format == FORMAT_UNDEFINED {
        preferred_format()
    } else if exists|i: int| 0 <= i < formats.len() && formats[i] == preferred_format() {
        preferred_format()
    } else {
        formats[0]
    }
}

impl SwapChainSupportDetails {
    /// Assemble a snapshot from the outcomes of the three capability queries,
    /// propagating a failure of any of them and never building a partial
    /// snapshot.  The error values are the driver's status codes.
    pub fn new(
        capabilities: Result<SurfaceCapabilities, i32>,
        formats: Result<Vec<SurfaceFormat>, i32>,
        present_modes: Result<Vec<u32>, i32>,
    ) -> (r: Result<SwapChainSupportDetails, ContextError>)
        ensures
            match r {
                Ok(details) => {
                    &&& capabilities matches Ok(c) && details.capabilities == c
                    &&& formats matches Ok(f) && details.formats == f
                    &&& present_modes matches Ok(p) && details.present_modes == p
                },
                Err(e) => {
                    &&& e == ContextError::QueryError
                    &&& (capabilities is Err || formats is Err || present_modes is Err)
                },
            },
    {
        let capabilities = match capabilities {
            Ok(c) => c,
            Err(_) => {
                return Err(ContextError::QueryError);
            },
        };
        let formats = match formats {
            Ok(f) => f,
            Err(_) => {
                return Err(ContextError::QueryError);
            },
        };
        let present_modes = match present_modes {
            Ok(p) => p,
            Err(_) => {
                return Err(ContextError::QueryError);
            },
        };
        Ok(SwapChainSupportDetails { capabilities, formats, present_modes })
    }

    /// Choose the surface format, or report an empty format list.
    pub fn choose_format(&self) -> (r: Result<SurfaceFormat, ContextError>)
        ensures
            self.formats@.len() == 0 ==> (r matches Err(e) && e
                == ContextError::EmptyCapabilityError),
            self.formats@.len() > 0 ==> (r matches Ok(f) && f == spec_choose_format(
                self.formats@,
            )),
    {
        if self.formats.len() == 0 {
            return Err(ContextError::EmptyCapabilityError);
        }
        let preferred = SurfaceFormat {
            format: FORMAT_R8G8B8A8_UNORM,
            color_space: COLOR_SPACE_SRGB_NONLINEAR,
        };
        if self.formats.len() == 1 && self.formats[0].format == FORMAT_UNDEFINED {
            return Ok(preferred);
        }
        let mut i: usize = 0;
        while i < self.formats.len()
            invariant
                i <= self.formats@.len(),
                preferred == preferred_format(),
                forall|j: int| 0 <= j < i ==> self.formats@[j] != preferred_format(),
            decreases self.formats@.len() - i,
        {
            if self.formats[i] == preferred {
                return Ok(preferred);
            }
            i = i + 1;
        }
        Ok(self.formats[0])
    }

    /// Choose the present mode: the maximum-valued mode advertised, the
    /// ranking of the mode enumeration preferring low-latency modes.
    pub fn choose_present_mode(&self) -> (r: Result<u32, ContextError>)
        ensures
            self.present_modes@.len() == 0 ==> (r matches Err(e) && e
                == ContextError::EmptyCapabilityError),
            self.present_modes@.len() > 0 ==> (r matches Ok(m) && self.present_modes@.contains(m)
                && (forall|i: int|
                0 <= i < self.present_modes@.len() ==> self.present_modes@[i] <= m)),
    {
        if self.present_modes.len() == 0 {
            return Err(ContextError::EmptyCapabilityError);
        }
        let mut best: u32 = self.present_modes[0];
        let mut i: usize = 1;
        assert(self.present_modes@.contains(best));
        while i < self.present_modes.len()
            invariant
                1 <= i <= self.present_modes@.len(),
                self.present_modes@.len() > 0,
                self.present_modes@.contains(best),
                forall|j: int| 0 <= j < i ==> self.present_modes@[j] <= best,
            decreases self.present_modes@.len() - i,
        {
            if self.present_modes[i] > best {
                best = self.present_modes[i];
                assert(self.present_modes@.contains(best));
            }
            i = i + 1;
        }
        Ok(best)
    }

    /// Choose the swap extent.  A snapshot with a fixed current extent
    /// mandates it verbatim; otherwise the window's size hint is clamped
    /// componentwise into the supported extent range, whatever the hint.
    pub fn choose_swap_extent(&self, width_hint: u32, height_hint: u32) -> (extent: Extent2D)
        requires
            self.capabilities.wf(),
        ensures
            self.capabilities.current_extent.width != EXTENT_UNCONSTRAINED ==> extent
                == self.capabilities.current_extent,
            self.capabilities.current_extent.width == EXTENT_UNCONSTRAINED ==> {
                &&& extent.width == spec_clamp(
                    width_hint,
                    self.capabilities.min_image_extent.width,
                    self.capabilities.max_image_extent.width,
                )
                &&& extent.height == spec_clamp(
                    height_hint,
                    self.capabilities.min_image_extent.height,
                    self.capabilities.max_image_extent.height,
                )
                &&& self.capabilities.min_image_extent.width <= extent.width
                    <= self.capabilities.max_image_extent.width
                &&& self.capabilities.min_image_extent.height <= extent.height
                    <= self.capabilities.max_image_extent.height
            },
    {
        if self.capabilities.current_extent.width != EXTENT_UNCONSTRAINED {
            self.capabilities.current_extent
        } else {
            Extent2D {
                width: bounded(
                    width_hint,
                    self.capabilities.min_image_extent.width,
                    self.capabilities.max_image_extent.width,
                ),
                height: bounded(
                    height_hint,
                    self.capabilities.min_image_extent.height,
                    self.capabilities.max_image_extent.height,
                ),
            }
        }
    }
}

/// How the swap images are shared between the graphics queue and the
/// presentation queue.
#[derive(Clone, Copy, Debug, PartialEq, Eq, Structural)]
pub enum SharingMode {
    /// One queue family owns the images; no cross-family synchronization.
    Exclusive,
    /// The images are shared between distinct queue families.
    Concurrent,
}

/// A sharing mode together with the de-duplicated queue family index list
/// that a concurrent configuration names.
#[derive(Clone, Debug)]
pub struct SharingConfig {
    pub mode: SharingMode,
    pub queue_family_indices: Vec<u32>,
}

/// Choose the image sharing configuration for a queue family assignment:
/// exclusive with an empty index list when graphics and presentation share
/// one family, concurrent with the two distinct indices in increasing order
/// otherwise.
pub fn choose_sharing_mode(graphics_family: u32, presentation_family: u32) -> (config:
    SharingConfig)
    ensures
        graphics_family == presentation_family ==> config.mode == SharingMode::Exclusive
            && config.queue_family_indices@ == Seq::<u32>::empty(),
        graphics_family != presentation_family ==> config.mode == SharingMode::Concurrent
            && config.queue_family_indices@ == seq![
            (if graphics_family < presentation_family {
                graphics_family
            } else {
                presentation_family
            }),
            (if graphics_family < presentation_family {
                presentation_family
            } else {
                graphics_family
            }),
        ],
{
    if graphics_family == presentation_family {
        SharingConfig { mode: SharingMode::Exclusive, queue_family_indices: Vec::new() }
    } else {
        let lo = if graphics_family < presentation_family {
            graphics_family
        } else {
            presentation_family
        };
        let hi = if graphics_family < presentation_family {
            presentation_family
        } else {
            graphics_family
        };
        let mut indices: Vec<u32> = Vec::new();
        indices.push(lo);
        indices.push(hi);
        assert(indices@ =~= seq![lo, hi]);
        SharingConfig { mode: SharingMode::Concurrent, queue_family_indices: indices }
    }
}

} // verus!
