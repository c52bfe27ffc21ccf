use smolder::errors::ContextError;
use smolder::select::DeviceCandidate;
use smolder::select::PHYSICAL_DEVICE_TYPE_DISCRETE_GPU;
use smolder::select::QUEUE_GRAPHICS_BIT;
use smolder::select::QueueFamilyInfo;
use smolder::select::extensions_supported;
use smolder::select::family_supports_graphics;
use smolder::select::queue_family_assignment;
use smolder::select::required_extensions;
use smolder::select::select_device;
use smolder::swapchain::Extent2D;
use smolder::swapchain::SharingMode;
use smolder::swapchain::SurfaceCapabilities;
use smolder::swapchain::SurfaceFormat;
use smolder::swapchain::SwapChainSupportDetails;
use smolder::swapchain::choose_sharing_mode;

fn gfx_family() -> QueueFamilyInfo {
    QueueFamilyInfo { queue_count: 1, queue_flags: QUEUE_GRAPHICS_BIT, present_support: false }
}

fn present_family() -> QueueFamilyInfo {
    QueueFamilyInfo { queue_count: 1, queue_flags: 0, present_support: true }
}

fn combined_family() -> QueueFamilyInfo {
    QueueFamilyInfo { queue_count: 1, queue_flags: QUEUE_GRAPHICS_BIT, present_support: true }
}

fn working_support() -> SwapChainSupportDetails {
    SwapChainSupportDetails {
        capabilities: SurfaceCapabilities {
            min_image_count: 2,
            max_image_count: 3,
            current_extent: Extent2D { width: 800, height: 600 },
            min_image_extent: Extent2D { width: 1, height: 1 },
            max_image_extent: Extent2D { width: 4096, height: 4096 },
            current_transform: 0,
        },
        formats: vec![SurfaceFormat { format: 44, color_space: 0 }],
        present_modes: vec![2],
    }
}

fn fit_candidate(families: Vec<QueueFamilyInfo>) -> DeviceCandidate {
    DeviceCandidate {
        device_type: PHYSICAL_DEVICE_TYPE_DISCRETE_GPU,
        geometry_shader: true,
        queue_families: families,
        extensions: vec!["VK_KHR_swapchain".to_owned()],
        support: working_support(),
    }
}

#[test]
fn graphics_needs_flag_and_queue() {
    assert!(family_supports_graphics(&gfx_family()));
    assert!(!family_supports_graphics(&present_family()));
    // The graphics bit alone is not enough with zero queues.
    let empty = QueueFamilyInfo {
        queue_count: 0,
        queue_flags: QUEUE_GRAPHICS_BIT,
        present_support: false,
    };
    assert!(!family_supports_graphics(&empty));
    // Other capability bits beside the graphics bit do not matter.
    let more_bits = QueueFamilyInfo {
        queue_count: 4,
        queue_flags: QUEUE_GRAPHICS_BIT | 0x4 | 0x8,
        present_support: false,
    };
    assert!(family_supports_graphics(&more_bits));
}

#[test]
fn combined_family_is_preferred() {
    // Family 1 can do both: it must be both assignments, never a split pair.
    let families = vec![gfx_family(), combined_family(), present_family()];
    let a = queue_family_assignment(&families).unwrap();
    assert_eq!(a.graphics, 1);
    assert_eq!(a.presentation, 1);
}

#[test]
fn smallest_combined_family_wins() {
    let families = vec![present_family(), combined_family(), combined_family()];
    let a = queue_family_assignment(&families).unwrap();
    assert_eq!(a.graphics, 1);
    assert_eq!(a.presentation, 1);
}

#[test]
fn split_pair_when_no_family_does_both() {
    // Family 0 graphics-only, family 1 presentation-only.
    let families = vec![gfx_family(), present_family()];
    let a = queue_family_assignment(&families).unwrap();
    assert_eq!(a.graphics, 0);
    assert_eq!(a.presentation, 1);
    // The matching sharing configuration is concurrent over [0, 1].
    let config = choose_sharing_mode(a.graphics as u32, a.presentation as u32);
    assert_eq!(config.mode, SharingMode::Concurrent);
    assert_eq!(config.queue_family_indices, vec![0, 1]);
}

#[test]
fn device_without_presentation_is_disqualified() {
    let families = vec![gfx_family(), gfx_family()];
    assert!(queue_family_assignment(&families).is_none());
    let families = vec![present_family()];
    assert!(queue_family_assignment(&families).is_none());
    assert!(queue_family_assignment(&Vec::new()).is_none());
}

#[test]
fn extension_check_is_exact_and_case_sensitive() {
    let available = vec!["VK_KHR_swapchain".to_owned(), "VK_KHR_maintenance1".to_owned()];
    assert!(extensions_supported(&available, &required_extensions()));
    assert!(extensions_supported(&available, &Vec::new()));
    let upper = vec!["VK_KHR_SWAPCHAIN".to_owned()];
    assert!(!extensions_supported(&upper, &required_extensions()));
    let missing = vec!["VK_KHR_maintenance1".to_owned()];
    assert!(!extensions_supported(&missing, &required_extensions()));
}

#[test]
fn empty_enumeration_fails_selection() {
    let r = select_device(&Vec::new(), &required_extensions());
    assert_eq!(r.unwrap_err(), ContextError::NoSuitableDeviceError);
}

#[test]
fn first_qualifying_device_wins() {
    let unfit = DeviceCandidate {
        device_type: 1,  // not a discrete GPU
        ..fit_candidate(vec![combined_family()])
    };
    let candidates = vec![
        unfit,
        fit_candidate(vec![combined_family()]),
        fit_candidate(vec![combined_family()]),
    ];
    let sel = select_device(&candidates, &required_extensions()).unwrap();
    assert_eq!(sel.device_index, 1);
    assert_eq!(sel.graphics_family, 0);
    assert_eq!(sel.presentation_family, 0);
}

#[test]
fn missing_extension_disqualifies() {
    let mut c = fit_candidate(vec![combined_family()]);
    c.extensions = vec!["VK_KHR_maintenance1".to_owned()];
    let r = select_device(&vec![c], &required_extensions());
    assert_eq!(r.unwrap_err(), ContextError::NoSuitableDeviceError);
}

#[test]
fn empty_capability_lists_disqualify() {
    let mut c = fit_candidate(vec![combined_family()]);
    c.support.formats = Vec::new();
    let r = select_device(&vec![c], &required_extensions());
    assert_eq!(r.unwrap_err(), ContextError::NoSuitableDeviceError);

    let mut c = fit_candidate(vec![combined_family()]);
    c.support.present_modes = Vec::new();
    let r = select_device(&vec![c], &required_extensions());
    assert_eq!(r.unwrap_err(), ContextError::NoSuitableDeviceError);
}

#[test]
fn fitness_policy_disqualifies() {
    let mut c = fit_candidate(vec![combined_family()]);
    c.geometry_shader = false;
    let r = select_device(&vec![c], &required_extensions());
    assert_eq!(r.unwrap_err(), ContextError::NoSuitableDeviceError);

    let mut c = fit_candidate(vec![combined_family()]);
    c.device_type = 1;
    let r = select_device(&vec![c], &required_extensions());
    assert_eq!(r.unwrap_err(), ContextError::NoSuitableDeviceError);
}

#[test]
fn split_pair_device_is_still_eligible() {
    let candidates = vec![fit_candidate(vec![gfx_family(), present_family()])];
    let sel = select_device(&candidates, &required_extensions()).unwrap();
    assert_eq!(sel.device_index, 0);
    assert_eq!(sel.graphics_family, 0);
    assert_eq!(sel.presentation_family, 1);
}
