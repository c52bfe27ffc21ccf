use smolder::errors::ContextError;
use smolder::swapchain::COLOR_SPACE_SRGB_NONLINEAR;
use smolder::swapchain::EXTENT_UNCONSTRAINED;
use smolder::swapchain::FORMAT_R8G8B8A8_UNORM;
use smolder::swapchain::FORMAT_UNDEFINED;
use smolder::swapchain::Extent2D;
use smolder::swapchain::SharingMode;
use smolder::swapchain::SurfaceCapabilities;
use smolder::swapchain::SurfaceFormat;
use smolder::swapchain::SwapChainSupportDetails;
use smolder::swapchain::bounded;
use smolder::swapchain::choose_sharing_mode;
use smolder::swapchain::triple_buffer_image_count;

fn caps(min_count: u32, max_count: u32, current: u32) -> SurfaceCapabilities {
    SurfaceCapabilities {
        min_image_count: min_count,
        max_image_count: max_count,
        current_extent: Extent2D { width: current, height: current },
        min_image_extent: Extent2D { width: 200, height: 100 },
        max_image_extent: Extent2D { width: 1600, height: 900 },
        current_transform: 0,
    }
}

fn details(
    capabilities: SurfaceCapabilities,
    formats: Vec<SurfaceFormat>,
    present_modes: Vec<u32>,
) -> SwapChainSupportDetails {
    SwapChainSupportDetails { capabilities, formats, present_modes }
}

#[test]
fn bounded_clamps_both_ways() {
    assert_eq!(bounded(5, 10, 20), 10);
    assert_eq!(bounded(15, 10, 20), 15);
    assert_eq!(bounded(25, 10, 20), 20);
    assert_eq!(bounded(10, 10, 10), 10);
}

#[test]
fn image_count_bounded_device() {
    // min 2, max 3: the desired 3 already fits.
    assert_eq!(triple_buffer_image_count(&caps(2, 3, 0)), 3);
}

#[test]
fn image_count_unbounded_device() {
    // max 0 means unbounded: min + 1 comes back unclamped.
    assert_eq!(triple_buffer_image_count(&caps(1, 0, 0)), 2);
}

#[test]
fn image_count_at_the_representable_limit() {
    // An unbounded device with the largest expressible minimum still gets
    // min + 1.
    assert_eq!(triple_buffer_image_count(&caps(u32::MAX - 1, 0, 0)), u32::MAX);
}

#[test]
fn image_count_clamped_to_max() {
    assert_eq!(triple_buffer_image_count(&caps(4, 4, 0)), 4);
    let count = triple_buffer_image_count(&caps(3, 8, 0));
    assert!(count >= 3 && count <= 8);
    assert_eq!(count, 4);
}

#[test]
fn extent_fixed_by_device() {
    let d = details(caps(2, 3, 1024), Vec::new(), Vec::new());
    let e = d.choose_swap_extent(5000, 5000);
    assert_eq!(e, Extent2D { width: 1024, height: 1024 });
}

#[test]
fn extent_clamped_from_hint() {
    let d = details(caps(2, 3, EXTENT_UNCONSTRAINED), Vec::new(), Vec::new());
    // A hint inside the range is kept.
    assert_eq!(d.choose_swap_extent(800, 600), Extent2D { width: 800, height: 600 });
    // Hints outside the range are clamped, not rejected.
    assert_eq!(d.choose_swap_extent(1, 1), Extent2D { width: 200, height: 100 });
    assert_eq!(
        d.choose_swap_extent(100_000, 100_000),
        Extent2D { width: 1600, height: 900 }
    );
    let e = d.choose_swap_extent(0, u32::MAX);
    assert!(e.width >= 200 && e.width <= 1600);
    assert!(e.height >= 100 && e.height <= 900);
}

#[test]
fn format_single_undefined_gives_preferred() {
    let d = details(
        caps(2, 3, 0),
        vec![SurfaceFormat { format: FORMAT_UNDEFINED, color_space: 7 }],
        Vec::new(),
    );
    let f = d.choose_format().unwrap();
    assert_eq!(f.format, FORMAT_R8G8B8A8_UNORM);
    assert_eq!(f.color_space, COLOR_SPACE_SRGB_NONLINEAR);
}

#[test]
fn format_exact_match_is_found() {
    let preferred = SurfaceFormat {
        format: FORMAT_R8G8B8A8_UNORM,
        color_space: COLOR_SPACE_SRGB_NONLINEAR,
    };
    let other = SurfaceFormat { format: 44, color_space: 0 };
    let d = details(caps(2, 3, 0), vec![other, preferred], Vec::new());
    assert_eq!(d.choose_format().unwrap(), preferred);
}

#[test]
fn format_falls_back_to_first() {
    let a = SurfaceFormat { format: 44, color_space: 0 };
    let b = SurfaceFormat { format: 50, color_space: 1 };
    let d = details(caps(2, 3, 0), vec![a, b], Vec::new());
    assert_eq!(d.choose_format().unwrap(), a);
}

#[test]
fn format_empty_list_is_an_error() {
    let d = details(caps(2, 3, 0), Vec::new(), Vec::new());
    assert_eq!(d.choose_format().unwrap_err(), ContextError::EmptyCapabilityError);
}

#[test]
fn present_mode_takes_maximum() {
    let d = details(caps(2, 3, 0), Vec::new(), vec![2, 0, 3, 1]);
    assert_eq!(d.choose_present_mode().unwrap(), 3);
}

#[test]
fn present_mode_empty_list_is_an_error() {
    let d = details(caps(2, 3, 0), Vec::new(), Vec::new());
    assert_eq!(d.choose_present_mode().unwrap_err(), ContextError::EmptyCapabilityError);
}

#[test]
fn snapshot_assembles_from_three_queries() {
    let c = caps(2, 3, 0);
    let formats = vec![SurfaceFormat { format: 44, color_space: 0 }];
    let modes = vec![2u32];
    let d = SwapChainSupportDetails::new(Ok(c), Ok(formats.clone()), Ok(modes.clone())).unwrap();
    assert_eq!(d.capabilities, c);
    assert_eq!(d.formats, formats);
    assert_eq!(d.present_modes, modes);
}

#[test]
fn snapshot_propagates_query_failure() {
    let c = caps(2, 3, 0);
    let formats = vec![SurfaceFormat { format: 44, color_space: 0 }];
    let modes = vec![2u32];
    let r = SwapChainSupportDetails::new(Err(-1), Ok(formats.clone()), Ok(modes.clone()));
    assert_eq!(r.unwrap_err(), ContextError::QueryError);
    let r = SwapChainSupportDetails::new(Ok(c), Err(-3), Ok(modes));
    assert_eq!(r.unwrap_err(), ContextError::QueryError);
    let r = SwapChainSupportDetails::new(Ok(c), Ok(formats), Err(-4));
    assert_eq!(r.unwrap_err(), ContextError::QueryError);
}

#[test]
fn sharing_mode_exclusive_for_one_family() {
    let config = choose_sharing_mode(2, 2);
    assert_eq!(config.mode, SharingMode::Exclusive);
    assert!(config.queue_family_indices.is_empty());
}

#[test]
fn sharing_mode_concurrent_for_split_pair() {
    let config = choose_sharing_mode(0, 1);
    assert_eq!(config.mode, SharingMode::Concurrent);
    assert_eq!(config.queue_family_indices, vec![0, 1]);
    // The index list is de-duplicated and in increasing order either way.
    let config = choose_sharing_mode(5, 3);
    assert_eq!(config.mode, SharingMode::Concurrent);
    assert_eq!(config.queue_family_indices, vec![3, 5]);
}
