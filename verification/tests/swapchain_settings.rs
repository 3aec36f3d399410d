use vkjam::swapchain::{
    acquired_image_index, choose_extent, choose_present_mode, choose_surface_format,
    swapchain_config, Extent2D, SurfaceCapabilities, SurfaceFormat, COLOR_SPACE_SRGB_NONLINEAR,
    ERROR_OUT_OF_DATE, FORMAT_B8G8R8A8_UNORM, FORMAT_UNDEFINED, PRESENT_MODE_FIFO,
    PRESENT_MODE_IMMEDIATE, WINDOW_HEIGHT, WINDOW_WIDTH,
};

const PREFERRED: SurfaceFormat =
    SurfaceFormat { format: FORMAT_B8G8R8A8_UNORM, color_space: COLOR_SPACE_SRGB_NONLINEAR };

fn caps(current: (u32, u32), min: (u32, u32), max: (u32, u32)) -> SurfaceCapabilities {
    SurfaceCapabilities {
        min_image_count: 2,
        max_image_count: 8,
        current_extent: Extent2D { width: current.0, height: current.1 },
        min_image_extent: Extent2D { width: min.0, height: min.1 },
        max_image_extent: Extent2D { width: max.0, height: max.1 },
    }
}

#[test]
fn constants_match_vulkan() {
    assert_eq!(FORMAT_B8G8R8A8_UNORM, 44);
    assert_eq!(PRESENT_MODE_FIFO, 2);
    assert_eq!(ERROR_OUT_OF_DATE, -1_000_001_004);
    assert_eq!((WINDOW_WIDTH, WINDOW_HEIGHT), (800, 600));
}

#[test]
fn undefined_single_format_gives_preferred() {
    let formats = vec![SurfaceFormat { format: FORMAT_UNDEFINED, color_space: 7 }];
    assert!(choose_surface_format(&formats) == PREFERRED);
}

#[test]
fn preferred_format_is_found_among_others() {
    let formats = vec![
        SurfaceFormat { format: 50, color_space: 0 },
        SurfaceFormat { format: FORMAT_B8G8R8A8_UNORM, color_space: 1 },
        PREFERRED,
    ];
    assert!(choose_surface_format(&formats) == PREFERRED);
}

#[test]
fn first_format_when_preferred_is_missing() {
    let first = SurfaceFormat { format: 50, color_space: 0 };
    let formats = vec![first, SurfaceFormat { format: FORMAT_B8G8R8A8_UNORM, color_space: 3 }];
    assert!(choose_surface_format(&formats) == first);
    // Undefined among several formats is no free choice.
    let undefined = SurfaceFormat { format: FORMAT_UNDEFINED, color_space: 0 };
    let formats = vec![undefined, first];
    assert!(choose_surface_format(&formats) == undefined);
}

#[test]
fn immediate_present_mode_when_offered() {
    assert_eq!(choose_present_mode(&vec![2, 1, 0]), PRESENT_MODE_IMMEDIATE);
    assert_eq!(choose_present_mode(&vec![2, 1, 3]), PRESENT_MODE_FIFO);
    assert_eq!(choose_present_mode(&vec![]), PRESENT_MODE_FIFO);
}

#[test]
fn surface_extent_is_kept_when_given() {
    let c = caps((1024, 768), (1, 1), (4096, 4096));
    assert!(choose_extent(&c, 800, 600) == Extent2D { width: 1024, height: 768 });
}

#[test]
fn window_size_is_clamped_when_surface_leaves_it_open() {
    let c = caps((u32::MAX, u32::MAX), (100, 100), (1000, 500));
    assert!(choose_extent(&c, 800, 600) == Extent2D { width: 800, height: 500 });
    let c = caps((u32::MAX, u32::MAX), (900, 700), (1000, 800));
    assert!(choose_extent(&c, 800, 600) == Extent2D { width: 900, height: 700 });
    // With inverted bounds the lower bound wins.
    let c = caps((u32::MAX, u32::MAX), (900, 900), (500, 500));
    assert!(choose_extent(&c, 800, 600) == Extent2D { width: 900, height: 900 });
}

#[test]
fn swapchain_config_combines_every_choice() {
    let formats = vec![SurfaceFormat { format: 50, color_space: 0 }, PREFERRED];
    let c = caps((u32::MAX, u32::MAX), (1, 1), (640, 480));
    let config = swapchain_config(&formats, &vec![0, 2], &c);
    assert!(config.format == PREFERRED);
    assert_eq!(config.present_mode, PRESENT_MODE_IMMEDIATE);
    assert!(config.extent == Extent2D { width: 640, height: 480 });
    assert_eq!(config.image_count, 2);
}

#[test]
fn acquired_image_is_drawn_or_frame_skipped() {
    assert_eq!(acquired_image_index(Ok((3, false))), Some(3));
    assert_eq!(acquired_image_index(Ok((0, true))), Some(0));
    assert_eq!(acquired_image_index(Err(ERROR_OUT_OF_DATE)), None);
}
