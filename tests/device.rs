use triangle_demo::device::{
    choose_queue_family, choose_swapchain_config, QueueFamilyInfo, SurfaceSupport, SwapchainConfig,
};
use triangle_demo::surface::Extent;

fn family(supports_graphics: bool, supports_present: bool) -> QueueFamilyInfo {
    QueueFamilyInfo { supports_graphics, supports_present }
}

#[test]
fn first_family_that_draws_and_presents() {
    let fams = vec![family(true, false), family(false, true), family(true, true), family(true, true)];
    assert_eq!(choose_queue_family(&fams), Some(2));
}

#[test]
fn no_family_fits() {
    assert_eq!(choose_queue_family(&vec![family(true, false), family(false, true)]), None);
    assert_eq!(choose_queue_family(&Vec::new()), None);
}

#[test]
fn swapchain_config_takes_first_entries() {
    let support = SurfaceSupport { min_image_count: 2, format_count: 4, composite_alpha_count: 3 };
    let window = Extent { width: 1280, height: 720 };
    assert_eq!(
        choose_swapchain_config(support, window),
        Some(SwapchainConfig { image_count: 2, format_index: 0, composite_alpha_index: 0, extent: window })
    );
}

#[test]
fn swapchain_config_needs_a_format_and_an_alpha_mode() {
    let window = Extent { width: 10, height: 10 };
    let no_format = SurfaceSupport { min_image_count: 2, format_count: 0, composite_alpha_count: 1 };
    let no_alpha = SurfaceSupport { min_image_count: 2, format_count: 1, composite_alpha_count: 0 };
    assert_eq!(choose_swapchain_config(no_format, window), None);
    assert_eq!(choose_swapchain_config(no_alpha, window), None);
}
