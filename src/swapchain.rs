use vstd::prelude::*;

verus! {

/// Width and height in pixels.
#[derive(Clone, Copy, Debug, PartialEq, Eq, Structural)]
pub struct Extent {
    pub width: u32,
    pub height: u32,
}

#[derive(Clone, Copy, Debug, PartialEq, Eq, Structural)]
pub enum CompositeAlpha {
    Opaque,
    PreMultiplied,
    PostMultiplied,
    Inherit,
}

#[derive(Clone, Copy, Debug, PartialEq, Eq, Structural)]
pub enum PresentMode {
    Immediate,
    Mailbox,
    Fifo,
    FifoRelaxed,
}

/// What a surface reports it can do. Formats are the driver's format codes.
#[derive(Clone, Debug)]
pub struct SurfaceCaps {
    pub current_extent: Option<Extent>,
    pub min_image_count: u32,
    pub supported_formats: Vec<u32>,
    pub supported_composite_alpha: Vec<CompositeAlpha>,
}

/// The parameters a swapchain is created with.
#[derive(Clone, Copy, Debug, PartialEq, Eq, Structural)]
pub struct SwapchainConfig {
    pub extent: Extent,
    pub image_count: u32,
    pub format: u32,
    pub composite_alpha: CompositeAlpha,
    pub present_mode: PresentMode,
}

#[derive(Clone, Copy, Debug, PartialEq, Eq, Structural)]
pub enum SwapchainError {
    NoSurfaceFormat,
    NoCompositeAlpha,
}

/// Extent used when the surface leaves the choice to the application.
pub const DEFAULT_WIDTH: u32 = 1280;

pub const DEFAULT_HEIGHT: u32 = 1024;

/// The surface's own extent, or the default one where it has none.
pub open spec fn chosen_extent(caps: SurfaceCaps) -> Extent {
    match caps.current_extent {
        Some(e) => e,
        None => Extent { width: DEFAULT_WIDTH, height: DEFAULT_HEIGHT },
    }
}

/// Chooses the swapchain parameters: the surface's extent (or the default),
/// its minimum image count, its first format and first composite-alpha mode,
/// and ordered, tear-free presentation.
pub fn choose_swapchain(caps: &SurfaceCaps) -> (r: Result<SwapchainConfig, SwapchainError>)
    ensures
        caps.supported_formats@.len() == 0 ==> r == Err::<SwapchainConfig, SwapchainError>(
            SwapchainError::NoSurfaceFormat,
        ),
        caps.supported_formats@.len() > 0 && caps.supported_composite_alpha@.len() == 0 ==> r
            == Err::<SwapchainConfig, SwapchainError>(SwapchainError::NoCompositeAlpha),
        caps.supported_formats@.len() > 0 && caps.supported_composite_alpha@.len() > 0 ==> r
            == Ok::<SwapchainConfig, SwapchainError>(
            SwapchainConfig {
                extent: chosen_extent(*caps),
                image_count: caps.min_image_count,
                format: caps.supported_formats@[0],
                composite_alpha: caps.supported_composite_alpha@[0],
                present_mode: PresentMode::Fifo,
            },
        ),
{
    if caps.supported_formats.len() == 0 {
        return Err(SwapchainError::NoSurfaceFormat);
    }
    if caps.supported_composite_alpha.len() == 0 {
        return Err(SwapchainError::NoCompositeAlpha);
    }
    let extent = match caps.current_extent {
        Some(e) => e,
        None => Extent { width: DEFAULT_WIDTH, height: DEFAULT_HEIGHT },
    };
    Ok(
        SwapchainConfig {
            extent,
            image_count: caps.min_image_count,
            format: caps.supported_formats[0],
            composite_alpha: caps.supported_composite_alpha[0],
            present_mode: PresentMode::Fifo,
        },
    )
}

/// A viewport in whole pixels, from the origin.
#[derive(Clone, Copy, Debug, PartialEq, Eq, Structural)]
pub struct Viewport {
    pub width: u32,
    pub height: u32,
}

/// What depends on the window's size: the viewport, and for each framebuffer
/// the index of the swapchain image it is bound to.
#[derive(Clone, Debug)]
pub struct SizeDependentSetup {
    pub viewport: Viewport,
    pub framebuffer_images: Vec<usize>,
}

/// Lays out the size-dependent state for a swapchain whose images have the
/// given extents: a viewport covering the first image, and one framebuffer per
/// image, in order. `None` where there is no image.
pub fn window_size_dependent_setup(images: &Vec<Extent>) -> (r: Option<SizeDependentSetup>)
    ensures
        r is None <==> images@.len() == 0,
        r matches Some(s) ==> s.viewport == (Viewport {
            width: images@[0].width,
            height: images@[0].height,
        }),
        r matches Some(s) ==> s.framebuffer_images@.len() == images@.len() && forall|i: int|
            0 <= i < images@.len() ==> #[trigger] s.framebuffer_images@[i] == i,
{
    if images.len() == 0 {
        return None;
    }
    let viewport = Viewport { width: images[0].width, height: images[0].height };
    let mut framebuffer_images: Vec<usize> = Vec::new();
    let mut i: usize = 0;
    while i < images.len()
        invariant
            i <= images@.len(),
            framebuffer_images@.len() == i,
            forall|j: int| 0 <= j < i ==> #[trigger] framebuffer_images@[j] == j,
        decreases images@.len() - i,
    {
        framebuffer_images.push(i);
        i = i + 1;
    }
    Some(SizeDependentSetup { viewport, framebuffer_images })
}

} // verus!
