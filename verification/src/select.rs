//! Device and queue-family selection: given the enumerated physical devices
//! with their queried attributes, pick the first device that satisfies every
//! constraint, and a graphics/presentation queue family pair on it,
//! preferring one family that can do both.

use vstd::prelude::*;

use crate::errors::ContextError;
use crate::swapchain::SwapChainSupportDetails;

verus! {

/// The capability flag bit marking a graphics-capable queue family.
pub const QUEUE_GRAPHICS_BIT: u32 = 0x1;

/// The device type value of a discrete GPU.
pub const PHYSICAL_DEVICE_TYPE_DISCRETE_GPU: u32 = 2;

/// What the capability query reports about one queue family: how many queues
/// it has, its capability flag bits, and whether it can present to the
/// surface under consideration.
#[derive(Clone, Copy, Debug, PartialEq, Eq, Structural)]
pub struct QueueFamilyInfo {
    pub queue_count: u32,
    pub queue_flags: u32,
    pub present_support: bool,
}

/// A family supports graphics when its flags include the graphics bit and it
/// has at least one queue.
pub open spec fn spec_supports_graphics(f: QueueFamilyInfo) -> bool {
    f.queue_count > 0 && f.queue_flags & QUEUE_GRAPHICS_BIT == QUEUE_GRAPHICS_BIT
}

/// Whether a family supports graphics work.
pub fn family_supports_graphics(f: &QueueFamilyInfo) -> (r: bool)
    ensures
        r == spec_supports_graphics(*f),
{
    f.queue_count > 0 && f.queue_flags & QUEUE_GRAPHICS_BIT == QUEUE_GRAPHICS_BIT
}

/// Family `i` of the sequence exists and supports graphics.
pub open spec fn is_graphics(families: Seq<QueueFamilyInfo>, i: int) -> bool {
    0 <= i < families.len() && spec_supports_graphics(families[i])
}

/// Family `i` of the sequence exists and can present to the surface.
pub open spec fn is_present(families: Seq<QueueFamilyInfo>, i: int) -> bool {
    0 <= i < families.len() && families[i].present_support
}

/// Family `i` of the sequence can do both graphics and presentation.
pub open spec fn is_combined(families: Seq<QueueFamilyInfo>, i: int) -> bool {
    is_graphics(families, i) && is_present(families, i)
}

/// The chosen pair of queue family indices on one device.  Both reference
/// existing families; they are equal when one family can do both.
#[derive(Clone, Copy, Debug, PartialEq, Eq, Structural)]
pub struct QueueFamilyAssignment {
    pub graphics: usize,
    pub presentation: usize,
}

/// What a correct assignment for a family sequence is.  When some family can
/// do both graphics and presentation, both indices are the smallest such
/// family — a split pair is never returned.  Otherwise the assignment falls
/// back to the smallest graphics-capable index and the smallest
/// presentation-capable index, taken independently.
pub open spec fn assignment_ok(families: Seq<QueueFamilyInfo>, a: QueueFamilyAssignment) -> bool {
    if exists|i: int| is_combined(families, i) {
        &&& a.graphics == a.presentation
        &&& is_combined(families, a.graphics as int)
        &&& forall|j: int| 0 <= j < a.graphics ==> !is_combined(families, j)
    } else {
        &&& is_graphics(families, a.graphics as int)
        &&& (forall|j: int| 0 <= j < a.graphics ==> !is_graphics(families, j))
        &&& is_present(families, a.presentation as int)
        &&& (forall|j: int| 0 <= j < a.presentation ==> !is_present(families, j))
    }
}

/// Pick the queue family pair for one device, or report that the device has
/// no graphics-capable family or no presentation-capable family and is
/// disqualified.
pub fn queue_family_assignment(families: &Vec<QueueFamilyInfo>) -> (r: Option<
    QueueFamilyAssignment,
>)
    ensures
        r matches Some(a) ==> assignment_ok(families@, a),
        r is Some <==> ((exists|i: int| is_graphics(families@, i)) && (exists|i: int|
            is_present(families@, i))),
{
    let n = families.len();
    let mut first_graphics: Option<usize> = None;
    let mut first_present: Option<usize> = None;
    let mut i: usize = 0;
    while i < n
        invariant
            n == families@.len(),
            i <= n,
            forall|j: int| 0 <= j < i ==> !is_combined(families@, j),
            match first_graphics {
                Some(g) => g < i && is_graphics(families@, g as int) && (forall|j: int|
                    0 <= j < g ==> !is_graphics(families@, j)),
                None => forall|j: int| 0 <= j < i ==> !is_graphics(families@, j),
            },
            match first_present {
                Some(p) => p < i && is_present(families@, p as int) && (forall|j: int|
                    0 <= j < p ==> !is_present(families@, j)),
                None => forall|j: int| 0 <= j < i ==> !is_present(families@, j),
            },
        decreases n - i,
    {
        let f = families[i];
        let graphics = family_supports_graphics(&f);
        let present = f.present_support;
        if graphics && present {
            assert(is_graphics(families@, i as int));
            assert(is_present(families@, i as int));
            assert(is_combined(families@, i as int));
            return Some(QueueFamilyAssignment { graphics: i, presentation: i });
        }
        if graphics && first_graphics.is_none() {
            first_graphics = Some(i);
        }
        if present && first_present.is_none() {
            first_present = Some(i);
        }
        i = i + 1;
    }
    match (first_graphics, first_present) {
        (Some(g), Some(p)) => Some(QueueFamilyAssignment { graphics: g, presentation: p }),
        _ => None,
    }
}

/// The sequence of available names contains `name`, by exact,
/// case-sensitive match.
pub open spec fn spec_has_extension(available: Seq<String>, name: Seq<char>) -> bool {
    exists|j: int| 0 <= j < available.len() && available[j]@ == name
}

/// Every required name appears among the available names.
pub open spec fn spec_extensions_supported(
    available: Seq<String>,
    required: Seq<String>,
) -> bool {
    forall|i: int| 0 <= i < required.len() ==> spec_has_extension(available, required[i]@)
}

/// Whether `needle` appears in `haystack`, by exact, case-sensitive match.
fn contains_name(haystack: &Vec<String>, needle: &String) -> (r: bool)
    ensures
        r == spec_has_extension(haystack@, needle@),
{
    let mut j: usize = 0;
    while j < haystack.len()
        invariant
            j <= haystack@.len(),
            forall|k: int| 0 <= k < j ==> haystack@[k]@ != needle@,
        decreases haystack@.len() - j,
    {
        if haystack[j] == *needle {
            return true;
        }
        j = j + 1;
    }
    false
}

/// Whether every required extension name appears in a device's enumerated
/// extension list, by exact, case-sensitive match.
pub fn extensions_supported(available: &Vec<String>, required: &Vec<String>) -> (r: bool)
    ensures
        r == spec_extensions_supported(available@, required@),
{
    let mut i: usize = 0;
    while i < required.len()
        invariant
            i <= required@.len(),
            forall|k: int| 0 <= k < i ==> spec_has_extension(available@, required@[k]@),
        decreases required@.len() - i,
    {
        if !contains_name(available, &required[i]) {
            return false;
        }
        i = i + 1;
    }
    true
}

/// The single device extension the context requires of every candidate:
/// swapchain support.
pub fn required_extensions() -> (r: Vec<String>)
    ensures
        r@.len() == 1,
        r@[0]@ == "VK_KHR_swapchain"@,
{
    let mut r: Vec<String> = Vec::new();
    r.push("VK_KHR_swapchain".to_owned());
    r
}

/// Everything queried about one enumerated physical device that selection
/// reads: its type, whether the geometry-shader feature is enabled, its
/// queue families in order, its enumerated extension names, and the surface
/// support snapshot for the target surface.
#[derive(Clone, Debug)]
pub struct DeviceCandidate {
    pub device_type: u32,
    pub geometry_shader: bool,
    pub queue_families: Vec<QueueFamilyInfo>,
    pub extensions: Vec<String>,
    pub support: SwapChainSupportDetails,
}

/// The application-defined fitness policy: a discrete GPU with the
/// geometry-shader feature enabled.
pub open spec fn spec_device_fit(c: DeviceCandidate) -> bool {
    c.device_type == PHYSICAL_DEVICE_TYPE_DISCRETE_GPU && c.geometry_shader
}

/// A candidate qualifies when it has a graphics-capable and a
/// presentation-capable queue family, supports every required extension,
/// advertises at least one surface format and one present mode, and passes
/// the fitness policy.
pub open spec fn qualifies(c: DeviceCandidate, required: Seq<String>) -> bool {
    &&& (exists|i: int| is_graphics(c.queue_families@, i))
    &&& (exists|i: int| is_present(c.queue_families@, i))
    &&& spec_extensions_supported(c.extensions@, required)
    &&& c.support.formats@.len() > 0
    &&& c.support.present_modes@.len() > 0
    &&& spec_device_fit(c)
}

/// The selection result: which candidate was chosen, and its queue family
/// assignment.
#[derive(Clone, Copy, Debug, PartialEq, Eq, Structural)]
pub struct DeviceSelection {
    pub device_index: usize,
    pub graphics_family: usize,
    pub presentation_family: usize,
}

/// Select the first candidate, in enumeration order, that qualifies, with
/// its queue family assignment.  Fails when no candidate qualifies — in
/// particular when the enumeration is empty.
pub fn select_device(candidates: &Vec<DeviceCandidate>, required: &Vec<String>) -> (r: Result<
    DeviceSelection,
    ContextError,
>)
    ensures
        match r {
            Ok(sel) => {
                &&& sel.device_index < candidates@.len()
                &&& qualifies(candidates@[sel.device_index as int], required@)
                &&& (forall|j: int|
                    0 <= j < sel.device_index ==> !qualifies(candidates@[j], required@))
                &&& assignment_ok(
                    candidates@[sel.device_index as int].queue_families@,
                    QueueFamilyAssignment {
                        graphics: sel.graphics_family,
                        presentation: sel.presentation_family,
                    },
                )
            },
            Err(e) => {
                &&& e == ContextError::NoSuitableDeviceError
                &&& forall|j: int|
                    0 <= j < candidates@.len() ==> !qualifies(candidates@[j], required@)
            },
        },
{
    let mut i: usize = 0;
    while i < candidates.len()
        invariant
            i <= candidates@.len(),
            forall|j: int| 0 <= j < i ==> !qualifies(candidates@[j], required@),
        decreases candidates@.len() - i,
    {
        let c = &candidates[i];
        let assignment = queue_family_assignment(&c.queue_families);
        match assignment {
            Some(a) => {
                if extensions_supported(&c.extensions, required) && c.support.formats.len() > 0
                    && c.support.present_modes.len() > 0 && c.device_type
                    == PHYSICAL_DEVICE_TYPE_DISCRETE_GPU && c.geometry_shader {
                    return Ok(
                        DeviceSelection {
                            device_index: i,
                            graphics_family: a.graphics,
                            presentation_family: a.presentation,
                        },
                    );
                }
            },
            None => {},
        }
        i = i + 1;
    }
    Err(ContextError::NoSuitableDeviceError)
}

} // verus!
