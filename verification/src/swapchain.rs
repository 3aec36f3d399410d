use vstd::prelude::*;

verus! {

/// Width of the game window, in pixels.
pub const WINDOW_WIDTH: u32 = 800;

/// Height of the game window, in pixels.
pub const WINDOW_HEIGHT: u32 = 600;

/// `VK_FORMAT_UNDEFINED`: a surface that reports it alone takes any format.
pub const FORMAT_UNDEFINED: i32 = 0;

/// `VK_FORMAT_B8G8R8A8_UNORM`.
pub const FORMAT_B8G8R8A8_UNORM: i32 = 44;

/// `VK_COLOR_SPACE_SRGB_NONLINEAR_KHR`.
pub const COLOR_SPACE_SRGB_NONLINEAR: i32 = 0;

/// `VK_PRESENT_MODE_IMMEDIATE_KHR`.
pub const PRESENT_MODE_IMMEDIATE: i32 = 0;

/// `VK_PRESENT_MODE_FIFO_KHR`, which every surface supports.
pub const PRESENT_MODE_FIFO: i32 = 2;

/// `VK_ERROR_OUT_OF_DATE_KHR`: the swapchain no longer matches the surface.
pub const ERROR_OUT_OF_DATE: i32 = -1_000_001_004;

/// A pixel format together with its color space.
#[derive(Clone, Copy, PartialEq, Eq, Structural)]
pub struct SurfaceFormat {
    pub format: i32,
    pub color_space: i32,
}

/// A two-dimensional size in pixels.
#[derive(Clone, Copy, PartialEq, Eq, Structural)]
pub struct Extent2D {
    pub width: u32,
    pub height: u32,
}

/// What a surface reports of the swapchains it can take.
#[derive(Clone, Copy)]
pub struct SurfaceCapabilities {
    pub min_image_count: u32,
    pub max_image_count: u32,
    /// `u32::MAX` in both dimensions when the swapchain decides the size.
    pub current_extent: Extent2D,
    pub min_image_extent: Extent2D,
    pub max_image_extent: Extent2D,
}

/// The settings a swapchain is created with.
#[derive(Clone, Copy)]
pub struct SwapchainConfig {
    pub format: SurfaceFormat,
    pub present_mode: i32,
    pub extent: Extent2D,
    pub image_count: u32,
}

/// The format the renderer prefers: 8-bit BGRA in the sRGB color space.
pub open spec fn preferred_format() -> SurfaceFormat {
    SurfaceFormat { format: FORMAT_B8G8R8A8_UNORM, color_space: COLOR_SPACE_SRGB_NONLINEAR }
}

/// The preferred format where the surface leaves the choice open or offers
/// it, else the first format the surface offers.
pub open spec fn chosen_surface_format(formats: Seq<SurfaceFormat>) -> SurfaceFormat {
    if (formats.len() == 1 && formats[0].format == FORMAT_UNDEFINED) || formats.contains(
        preferred_format(),
    ) {
        preferred_format()
    } else {
        formats[0]
    }
}

/// Immediate presentation where the surface offers it, else FIFO.
pub open spec fn chosen_present_mode(modes: Seq<i32>) -> i32 {
    if modes.contains(PRESENT_MODE_IMMEDIATE) {
        PRESENT_MODE_IMMEDIATE
    } else {
        PRESENT_MODE_FIFO
    }
}

/// `value`, raised to `low` if below it, after being lowered to `high` if
/// above it.
pub open spec fn clamp(value: u32, low: u32, high: u32) -> u32 {
    let capped = if value < high { value } else { high };
    if capped > low { capped } else { low }
}

/// The surface's own extent where it gives one, else the wanted size held
/// within the surface's bounds.
pub open spec fn chosen_extent(capabilities: SurfaceCapabilities, width: u32, height: u32) -> Extent2D {
    if capabilities.current_extent.width != u32::MAX {
        capabilities.current_extent
    } else {
        Extent2D {
            width: clamp(
                width,
                capabilities.min_image_extent.width,
                capabilities.max_image_extent.width,
            ),
            height: clamp(
                height,
                capabilities.min_image_extent.height,
                capabilities.max_image_extent.height,
            ),
        }
    }
}

fn clamp_dimension(value: u32, low: u32, high: u32) -> (r: u32)
    ensures
        r == clamp(value, low, high),
{
    let capped = if value < high {
        value
    } else {
        high
    };
    if capped > low {
        capped
    } else {
        low
    }
}

/// Where the surface gives its own extent, that extent is chosen whatever
/// size is wanted; otherwise each dimension is the wanted one held within the
/// surface's bounds, the lower bound winning where the bounds are inverted.
pub proof fn lemma_chosen_extent(capabilities: SurfaceCapabilities, width: u32, height: u32)
    ensures
        capabilities.current_extent.width != u32::MAX ==> chosen_extent(capabilities, width, height) == capabilities.current_extent,
        capabilities.current_extent.width == u32::MAX ==> {
            &&& capabilities.min_image_extent.width > capabilities.max_image_extent.width ==> chosen_extent(capabilities, width, height).width == capabilities.min_image_extent.width
            &&& capabilities.min_image_extent.width <= capabilities.max_image_extent.width && width < capabilities.min_image_extent.width ==> chosen_extent(capabilities, width, height).width == capabilities.min_image_extent.width
            &&& capabilities.min_image_extent.width <= width <= capabilities.max_image_extent.width ==> chosen_extent(capabilities, width, height).width == width
            &&& capabilities.min_image_extent.width <= capabilities.max_image_extent.width && capabilities.max_image_extent.width < width ==> chosen_extent(capabilities, width, height).width == capabilities.max_image_extent.width
        },
        capabilities.current_extent.width == u32::MAX ==> {
            &&& capabilities.min_image_extent.height > capabilities.max_image_extent.height ==> chosen_extent(capabilities, width, height).height == capabilities.min_image_extent.height
            &&& capabilities.min_image_extent.height <= capabilities.max_image_extent.height && height < capabilities.min_image_extent.height ==> chosen_extent(capabilities, width, height).height == capabilities.min_image_extent.height
            &&& capabilities.min_image_extent.height <= height <= capabilities.max_image_extent.height ==> chosen_extent(capabilities, width, height).height == height
            &&& capabilities.min_image_extent.height <= capabilities.max_image_extent.height && capabilities.max_image_extent.height < height ==> chosen_extent(capabilities, width, height).height == capabilities.max_image_extent.height
        },
{
}

/// A surface that offers only an undefined format gets the preferred pair; a
/// surface that offers the preferred pair gets it; any other surface gets the
/// first format it offers.
pub proof fn lemma_chosen_surface_format(formats: Seq<SurfaceFormat>)
    requires
        formats.len() > 0,
    ensures
        formats.len() == 1 && formats[0].format == FORMAT_UNDEFINED ==> chosen_surface_format(formats).format
            == FORMAT_B8G8R8A8_UNORM && chosen_surface_format(formats).color_space == COLOR_SPACE_SRGB_NONLINEAR,
        (exists|k: int|
            0 <= k < formats.len() && formats[k].format == FORMAT_B8G8R8A8_UNORM && formats[k].color_space
                == COLOR_SPACE_SRGB_NONLINEAR) ==> chosen_surface_format(formats).format == FORMAT_B8G8R8A8_UNORM
            && chosen_surface_format(formats).color_space == COLOR_SPACE_SRGB_NONLINEAR,
        !(formats.len() == 1 && formats[0].format == FORMAT_UNDEFINED) && (forall|k: int|
            0 <= k < formats.len() ==> !(formats[k].format == FORMAT_B8G8R8A8_UNORM && formats[k].color_space
                == COLOR_SPACE_SRGB_NONLINEAR)) ==> chosen_surface_format(formats) == formats[0],
{
    let p = SurfaceFormat { format: FORMAT_B8G8R8A8_UNORM, color_space: COLOR_SPACE_SRGB_NONLINEAR };
    assert(p == preferred_format());
    if exists|k: int|
        0 <= k < formats.len() && formats[k].format == FORMAT_B8G8R8A8_UNORM && formats[k].color_space
            == COLOR_SPACE_SRGB_NONLINEAR {
        let k = choose|k: int|
            0 <= k < formats.len() && formats[k].format == FORMAT_B8G8R8A8_UNORM
                && formats[k].color_space == COLOR_SPACE_SRGB_NONLINEAR;
        assert(formats[k] == p);
        assert(formats.contains(p));
    }
    if formats.contains(p) {
        let k = choose|k: int| 0 <= k < formats.len() && formats[k] == p;
        assert(formats[k].format == FORMAT_B8G8R8A8_UNORM);
    }
}

/// The surface format the swapchain's images take. The surface must offer at least
/// one format.
pub fn choose_surface_format(formats: &Vec<SurfaceFormat>) -> (format: SurfaceFormat)
    requires
        formats.len() > 0,
    ensures
        format == chosen_surface_format(formats@),
        format == preferred_format() || formats@.contains(format),
        formats@.contains(preferred_format()) ==> format == preferred_format(),
        formats.len() == 1 && formats@[0].format == FORMAT_UNDEFINED ==> format.format
            == FORMAT_B8G8R8A8_UNORM && format.color_space == COLOR_SPACE_SRGB_NONLINEAR,
        (exists|k: int|
            0 <= k < formats.len() && formats@[k].format == FORMAT_B8G8R8A8_UNORM && formats@[k].color_space
                == COLOR_SPACE_SRGB_NONLINEAR) ==> format.format == FORMAT_B8G8R8A8_UNORM
            && format.color_space == COLOR_SPACE_SRGB_NONLINEAR,
        !(formats.len() == 1 && formats@[0].format == FORMAT_UNDEFINED) && (forall|k: int|
            0 <= k < formats.len() ==> !(formats@[k].format == FORMAT_B8G8R8A8_UNORM && formats@[k].color_space
                == COLOR_SPACE_SRGB_NONLINEAR)) ==> format == formats@[0],
{
    proof {
        lemma_chosen_surface_format(formats@);
    }
    let preferred = SurfaceFormat {
        format: FORMAT_B8G8R8A8_UNORM,
        color_space: COLOR_SPACE_SRGB_NONLINEAR,
    };
    if formats.len() == 1 && formats[0].format == FORMAT_UNDEFINED {
        return preferred;
    }
    let mut i: usize = 0;
    while i < formats.len()
        invariant
            i <= formats.len(),
            preferred == preferred_format(),
            forall|j: int| 0 <= j < i ==> formats@[j] != preferred_format(),
        decreases formats.len() - i,
    {
        if formats[i].format == FORMAT_B8G8R8A8_UNORM && formats[i].color_space
            == COLOR_SPACE_SRGB_NONLINEAR {
            assert(formats@.contains(preferred_format())) by {
                let f = formats@[i as int];
                assert(f.format == FORMAT_B8G8R8A8_UNORM);
                assert(f.color_space == COLOR_SPACE_SRGB_NONLINEAR);
                assert(f == preferred_format());
            }
            return preferred;
        }
        i = i + 1;
    }
    formats[0]
}

/// The present mode of the swapchain: immediate where offered, else FIFO.
pub fn choose_present_mode(present_modes: &Vec<i32>) -> (mode: i32)
    ensures
        mode == chosen_present_mode(present_modes@),
        mode == PRESENT_MODE_IMMEDIATE || mode == PRESENT_MODE_FIFO,
        present_modes@.contains(PRESENT_MODE_IMMEDIATE) <==> mode == PRESENT_MODE_IMMEDIATE,
{
    let mut i: usize = 0;
    while i < present_modes.len()
        invariant
            i <= present_modes.len(),
            forall|j: int| 0 <= j < i ==> present_modes@[j] != PRESENT_MODE_IMMEDIATE,
        decreases present_modes.len() - i,
    {
        if present_modes[i] == PRESENT_MODE_IMMEDIATE {
            assert(present_modes@[i as int] == PRESENT_MODE_IMMEDIATE);
            return PRESENT_MODE_IMMEDIATE;
        }
        i = i + 1;
    }
    PRESENT_MODE_FIFO
}

/// The size of the swapchain's images for a window of `width` by `height`.
pub fn choose_extent(capabilities: &SurfaceCapabilities, width: u32, height: u32) -> (extent:
    Extent2D)
    ensures
        extent == chosen_extent(*capabilities, width, height),
        capabilities.current_extent.width == u32::MAX ==> {
            &&& capabilities.min_image_extent.width <= extent.width
            &&& capabilities.min_image_extent.height <= extent.height
            &&& capabilities.min_image_extent.width <= capabilities.max_image_extent.width
                ==> extent.width <= capabilities.max_image_extent.width
            &&& capabilities.min_image_extent.height <= capabilities.max_image_extent.height
                ==> extent.height <= capabilities.max_image_extent.height
        },
        capabilities.current_extent.width != u32::MAX ==> extent == capabilities.current_extent,
        capabilities.current_extent.width == u32::MAX ==> {
            &&& capabilities.min_image_extent.width > capabilities.max_image_extent.width ==> extent.width == capabilities.min_image_extent.width
            &&& capabilities.min_image_extent.width <= capabilities.max_image_extent.width && width < capabilities.min_image_extent.width ==> extent.width == capabilities.min_image_extent.width
            &&& capabilities.min_image_extent.width <= width <= capabilities.max_image_extent.width ==> extent.width == width
            &&& capabilities.min_image_extent.width <= capabilities.max_image_extent.width && capabilities.max_image_extent.width < width ==> extent.width == capabilities.max_image_extent.width
        },
        capabilities.current_extent.width == u32::MAX ==> {
            &&& capabilities.min_image_extent.height > capabilities.max_image_extent.height ==> extent.height == capabilities.min_image_extent.height
            &&& capabilities.min_image_extent.height <= capabilities.max_image_extent.height && height < capabilities.min_image_extent.height ==> extent.height == capabilities.min_image_extent.height
            &&& capabilities.min_image_extent.height <= height <= capabilities.max_image_extent.height ==> extent.height == height
            &&& capabilities.min_image_extent.height <= capabilities.max_image_extent.height && capabilities.max_image_extent.height < height ==> extent.height == capabilities.max_image_extent.height
        },
{
    proof {
        lemma_chosen_extent(*capabilities, width, height);
    }
    if capabilities.current_extent.width != u32::MAX {
        capabilities.current_extent
    } else {
        Extent2D {
            width: clamp_dimension(
                width,
                capabilities.min_image_extent.width,
                capabilities.max_image_extent.width,
            ),
            height: clamp_dimension(
                height,
                capabilities.min_image_extent.height,
                capabilities.max_image_extent.height,
            ),
        }
    }
}

/// Every setting of the swapchain for the game window: format, present
/// mode, image size and the surface's least number of images. The surface
/// must offer at least one format.
pub fn swapchain_config(
    formats: &Vec<SurfaceFormat>,
    present_modes: &Vec<i32>,
    capabilities: &SurfaceCapabilities,
) -> (config: SwapchainConfig)
    requires
        formats.len() > 0,
    ensures
        config.format == chosen_surface_format(formats@),
        config.present_mode == chosen_present_mode(present_modes@),
        config.extent == chosen_extent(*capabilities, WINDOW_WIDTH, WINDOW_HEIGHT),
        config.image_count == capabilities.min_image_count,
        formats.len() == 1 && formats@[0].format == FORMAT_UNDEFINED ==> config.format.format
            == FORMAT_B8G8R8A8_UNORM && config.format.color_space == COLOR_SPACE_SRGB_NONLINEAR,
        (exists|k: int|
            0 <= k < formats.len() && formats@[k].format == FORMAT_B8G8R8A8_UNORM && formats@[k].color_space
                == COLOR_SPACE_SRGB_NONLINEAR) ==> config.format.format == FORMAT_B8G8R8A8_UNORM
            && config.format.color_space == COLOR_SPACE_SRGB_NONLINEAR,
        !(formats.len() == 1 && formats@[0].format == FORMAT_UNDEFINED) && (forall|k: int|
            0 <= k < formats.len() ==> !(formats@[k].format == FORMAT_B8G8R8A8_UNORM && formats@[k].color_space
                == COLOR_SPACE_SRGB_NONLINEAR)) ==> config.format == formats@[0],
        capabilities.current_extent.width != u32::MAX ==> config.extent == capabilities.current_extent,
        capabilities.current_extent.width == u32::MAX ==> {
            &&& capabilities.min_image_extent.width > capabilities.max_image_extent.width ==> config.extent.width == capabilities.min_image_extent.width
            &&& capabilities.min_image_extent.width <= capabilities.max_image_extent.width && WINDOW_WIDTH < capabilities.min_image_extent.width ==> config.extent.width == capabilities.min_image_extent.width
            &&& capabilities.min_image_extent.width <= WINDOW_WIDTH <= capabilities.max_image_extent.width ==> config.extent.width == WINDOW_WIDTH
            &&& capabilities.min_image_extent.width <= capabilities.max_image_extent.width && capabilities.max_image_extent.width < WINDOW_WIDTH ==> config.extent.width == capabilities.max_image_extent.width
        },
        capabilities.current_extent.width == u32::MAX ==> {
            &&& capabilities.min_image_extent.height > capabilities.max_image_extent.height ==> config.extent.height == capabilities.min_image_extent.height
            &&& capabilities.min_image_extent.height <= capabilities.max_image_extent.height && WINDOW_HEIGHT < capabilities.min_image_extent.height ==> config.extent.height == capabilities.min_image_extent.height
            &&& capabilities.min_image_extent.height <= WINDOW_HEIGHT <= capabilities.max_image_extent.height ==> config.extent.height == WINDOW_HEIGHT
            &&& capabilities.min_image_extent.height <= capabilities.max_image_extent.height && capabilities.max_image_extent.height < WINDOW_HEIGHT ==> config.extent.height == capabilities.max_image_extent.height
        },
{
    SwapchainConfig {
        format: choose_surface_format(formats),
        present_mode: choose_present_mode(present_modes),
        extent: choose_extent(capabilities, WINDOW_WIDTH, WINDOW_HEIGHT),
        image_count: capabilities.min_image_count,
    }
}

/// The swapchain image to draw into, from what acquiring the next image
/// gave back: its index, or `None` where the swapchain is out of date and
/// the frame is skipped. Any other failure is not accepted.
pub fn acquired_image_index(acquired: Result<(u32, bool), i32>) -> (index: Option<u32>)
    requires
        acquired matches Err(e) ==> e == ERROR_OUT_OF_DATE,
    ensures
        match acquired {
            Ok((i, _)) => index == Some(i),
            Err(_) => index is None,
        },
{
    match acquired {
        Ok((i, _)) => Some(i),
        Err(_) => None,
    }
}

} // verus!
