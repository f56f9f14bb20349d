//! Swapchain parameter negotiation and the presentation bundle.
//!
//! Building a presentation chain means choosing a surface format, a
//! presentation mode, an image extent and an image count from what the
//! surface reports, then deriving one image view and one framebuffer per
//! swapchain image. The bundle of results is internally consistent and is
//! torn down and rebuilt as a whole, never partially.

use vstd::prelude::*;

use crate::RenderError;
use crate::queue_families::RequiredQueueFamilies;

verus! {

/// Surface format identifier: 8-bit BGRA with sRGB encoding.
pub const FORMAT_B8G8R8A8_SRGB: u32 = 50;

/// Color space identifier: non-linear sRGB.
pub const COLOR_SPACE_SRGB_NONLINEAR: u32 = 0;

/// Presentation mode identifier: low-latency triple buffering.
pub const PRESENT_MODE_MAILBOX: u32 = 1;

/// Presentation mode identifier: vsync queue, guaranteed to be available.
pub const PRESENT_MODE_FIFO: u32 = 2;

/// The surface reports this width when the extent is up to the swapchain
/// ("indeterminate") rather than fixed by the window system.
pub const INDETERMINATE_EXTENT: u32 = 0xFFFF_FFFF;

/// A width and height in pixels.
#[derive(Clone, Copy, Debug, PartialEq, Eq, Structural)]
pub struct Extent2D {
    pub width: u32,
    pub height: u32,
}

/// A surface format: a pixel format paired with a color space.
#[derive(Clone, Copy, Debug, PartialEq, Eq, Structural)]
pub struct SurfaceFormat {
    pub format: u32,
    pub color_space: u32,
}

/// What the surface reports about the chains that can be built on it.
#[derive(Clone, Copy, Debug, PartialEq, Eq, Structural)]
pub struct SurfaceCapabilities {
    pub min_image_count: u32,
    /// Zero means unbounded.
    pub max_image_count: u32,
    pub current_extent: Extent2D,
    pub min_image_extent: Extent2D,
    pub max_image_extent: Extent2D,
    /// The transform the presentation engine currently applies.
    pub current_transform: u32,
}

/// Everything the shell queries from the surface before building a chain.
#[derive(Clone, Debug)]
pub struct SwapchainSupport {
    pub capabilities: SurfaceCapabilities,
    pub formats: Vec<SurfaceFormat>,
    pub present_modes: Vec<u32>,
}

/// The preferred format/color-space pair.
pub open spec fn is_preferred_format(f: SurfaceFormat) -> bool {
    f.format == FORMAT_B8G8R8A8_SRGB && f.color_space == COLOR_SPACE_SRGB_NONLINEAR
}

/// The first preferred format in the list, if the list has one.
pub open spec fn first_preferred_format(formats: Seq<SurfaceFormat>) -> Option<SurfaceFormat>
    decreases formats.len(),
{
    if formats.len() == 0 {
        None
    } else if is_preferred_format(formats[0]) {
        Some(formats[0])
    } else {
        first_preferred_format(formats.skip(1))
    }
}

/// The format the chain must use: the first preferred pair, or the first
/// reported format when no preferred pair is offered.
pub open spec fn chosen_format(formats: Seq<SurfaceFormat>) -> SurfaceFormat
    recommends
        formats.len() > 0,
{
    match first_preferred_format(formats) {
        Some(f) => f,
        None => formats[0],
    }
}

/// The presentation mode the chain must use: mailbox when offered, else
/// the always-available vsync queue.
pub open spec fn chosen_present_mode(present_modes: Seq<u32>) -> u32 {
    if present_modes.contains(PRESENT_MODE_MAILBOX) {
        PRESENT_MODE_MAILBOX
    } else {
        PRESENT_MODE_FIFO
    }
}

/// `v` clamped into `[lo, hi]` (with `lo` winning when `lo > hi`, as the
/// composition max(lo, min(hi, v)) has it).
pub open spec fn clamp_u32(lo: u32, hi: u32, v: u32) -> u32 {
    if (if v < hi { v } else { hi }) < lo {
        lo
    } else {
        if v < hi { v } else { hi }
    }
}

/// The extent the chain must use: the surface's reported extent when it is
/// determinate, else the window's pixel size clamped into the surface's
/// supported range.
pub open spec fn chosen_extent(window_extent: Extent2D, caps: SurfaceCapabilities) -> Extent2D {
    if caps.current_extent.width != INDETERMINATE_EXTENT {
        caps.current_extent
    } else {
        Extent2D {
            width: clamp_u32(
                caps.min_image_extent.width,
                caps.max_image_extent.width,
                window_extent.width,
            ),
            height: clamp_u32(
                caps.min_image_extent.height,
                caps.max_image_extent.height,
                window_extent.height,
            ),
        }
    }
}

/// The image count the chain is asked for: one more than the minimum, so a
/// frame never waits for an image, clamped to the maximum when the maximum
/// is bounded (zero means unbounded).
pub open spec fn chosen_image_count(caps: SurfaceCapabilities) -> u32
    recommends
        caps.min_image_count < u32::MAX,
{
    let one_more = (caps.min_image_count + 1) as u32;
    if caps.max_image_count != 0 && one_more > caps.max_image_count {
        caps.max_image_count
    } else {
        one_more
    }
}

/// Picks the surface format: the first occurrence of the preferred
/// format/color-space pair, or the first reported format when the preferred
/// pair is absent.
pub fn get_swapchain_surface_format(formats: &Vec<SurfaceFormat>) -> (r: SurfaceFormat)
    requires
        formats@.len() > 0,
    ensures
        r == chosen_format(formats@),
{
    let mut i: usize = 0;
    assert(formats@.skip(0) =~= formats@);
    while i < formats.len()
        invariant
            formats@.len() > 0,
            i <= formats@.len(),
            first_preferred_format(formats@) == first_preferred_format(
                formats@.skip(i as int),
            ),
        decreases formats@.len() - i,
    {
        let f = formats[i];
        assert(formats@.skip(i as int)[0] == formats@[i as int]);
        if f.format == FORMAT_B8G8R8A8_SRGB && f.color_space == COLOR_SPACE_SRGB_NONLINEAR {
            return f;
        }
        assert(formats@.skip(i as int).skip(1) =~= formats@.skip(i + 1));
        i += 1;
    }
    assert(formats@.skip(formats@.len() as int) =~= Seq::<SurfaceFormat>::empty());
    formats[0]
}

/// Picks the presentation mode: mailbox (low-latency triple buffering) when
/// the surface offers it, else the always-available vsync queue.
pub fn get_swapchain_presentation_mode(present_modes: &Vec<u32>) -> (r: u32)
    ensures
        r == chosen_present_mode(present_modes@),
        present_modes@.contains(PRESENT_MODE_MAILBOX) ==> r == PRESENT_MODE_MAILBOX,
        !present_modes@.contains(PRESENT_MODE_MAILBOX) ==> r == PRESENT_MODE_FIFO,
{
    let mut i: usize = 0;
    while i < present_modes.len()
        invariant
            i <= present_modes@.len(),
            forall|j: int| 0 <= j < i ==> present_modes@[j] != PRESENT_MODE_MAILBOX,
        decreases present_modes@.len() - i,
    {
        if present_modes[i] == PRESENT_MODE_MAILBOX {
            assert(present_modes@.contains(PRESENT_MODE_MAILBOX));
            return PRESENT_MODE_MAILBOX;
        }
        i += 1;
    }
    assert(!present_modes@.contains(PRESENT_MODE_MAILBOX));
    PRESENT_MODE_FIFO
}

/// Computes the extent the chain must use.
pub fn get_swapchain_extent(window_extent: Extent2D, capabilities: &SurfaceCapabilities) -> (r:
    Extent2D)
    ensures
        r == chosen_extent(window_extent, *capabilities),
{
    if capabilities.current_extent.width != INDETERMINATE_EXTENT {
        capabilities.current_extent
    } else {
        Extent2D {
            width: clamp(
                capabilities.min_image_extent.width,
                capabilities.max_image_extent.width,
                window_extent.width,
            ),
            height: clamp(
                capabilities.min_image_extent.height,
                capabilities.max_image_extent.height,
                window_extent.height,
            ),
        }
    }
}

/// Computes the image count the chain is asked for.
pub fn get_swapchain_image_count(capabilities: &SurfaceCapabilities) -> (r: u32)
    requires
        capabilities.min_image_count < u32::MAX,
    ensures
        r == chosen_image_count(*capabilities),
{
    let mut image_count = capabilities.min_image_count + 1;
    if capabilities.max_image_count != 0 && image_count > capabilities.max_image_count {
        image_count = capabilities.max_image_count;
    }
    image_count
}

/// Image sharing across queue families.
#[derive(Clone, Copy, Debug, PartialEq, Eq, Structural)]
pub enum SharingMode {
    /// One queue family owns the images.
    Exclusive,
    /// The graphics and presentation families share the images.
    Concurrent,
}

/// Every parameter of the chain the shell must create, derived from what
/// the surface and the chosen device report.
#[derive(Clone, Debug)]
pub struct SwapchainConfig {
    pub format: u32,
    pub color_space: u32,
    pub extent: Extent2D,
    pub image_count: u32,
    pub present_mode: u32,
    pub sharing_mode: SharingMode,
    /// Both family indices under concurrent sharing, empty under exclusive.
    pub queue_family_indices: Vec<u32>,
    pub pre_transform: u32,
}

/// Negotiates every parameter of a new chain.
///
/// The chosen format, presentation mode, extent and image count follow the
/// choice functions above; sharing is concurrent across the two families
/// exactly when they differ. Device selection guarantees at least one
/// reported format, which this function requires.
pub fn create_swapchain(
    window_extent: Extent2D,
    support: &SwapchainSupport,
    indices: &RequiredQueueFamilies,
) -> (r: SwapchainConfig)
    requires
        support.formats@.len() > 0,
        support.capabilities.min_image_count < u32::MAX,
    ensures
        r.format == chosen_format(support.formats@).format,
        r.color_space == chosen_format(support.formats@).color_space,
        r.present_mode == chosen_present_mode(support.present_modes@),
        r.extent == chosen_extent(window_extent, support.capabilities),
        r.image_count == chosen_image_count(support.capabilities),
        indices.graphics_queue_index != indices.presentation_queue_index ==> r.sharing_mode
            == SharingMode::Concurrent && r.queue_family_indices@ == seq![
            indices.graphics_queue_index,
            indices.presentation_queue_index,
        ],
        indices.graphics_queue_index == indices.presentation_queue_index ==> r.sharing_mode
            == SharingMode::Exclusive && r.queue_family_indices@ == Seq::<u32>::empty(),
        r.pre_transform == support.capabilities.current_transform,
{
    let surface_format = get_swapchain_surface_format(&support.formats);
    let present_mode = get_swapchain_presentation_mode(&support.present_modes);
    let extent = get_swapchain_extent(window_extent, &support.capabilities);
    let image_count = get_swapchain_image_count(&support.capabilities);
    let queue_family_indices = indices.shared_queue_indices();
    let sharing_mode = if indices.graphics_queue_index != indices.presentation_queue_index {
        SharingMode::Concurrent
    } else {
        SharingMode::Exclusive
    };
    SwapchainConfig {
        format: surface_format.format,
        color_space: surface_format.color_space,
        extent,
        image_count,
        present_mode,
        sharing_mode,
        queue_family_indices,
        pre_transform: support.capabilities.current_transform,
    }
}

/// The configuration of one image view: the identity channel mapping over a
/// single mip level and a single array layer of its image.
#[derive(Clone, Copy, Debug, PartialEq, Eq, Structural)]
pub struct ImageViewConfig {
    pub image: u64,
    pub format: u32,
    pub identity_swizzle: bool,
    pub base_mip_level: u32,
    pub mip_level_count: u32,
    pub base_array_layer: u32,
    pub array_layer_count: u32,
}

/// Plans one image view per swapchain image: identity channel mapping, one
/// mip level, one array layer, all in the chain's format.
pub fn create_swapchain_image_views(images: &Vec<u64>, format: u32) -> (r: Vec<ImageViewConfig>)
    ensures
        r@.len() == images@.len(),
        forall|i: int|
            0 <= i < images@.len() ==> r@[i] == (ImageViewConfig {
                image: images@[i],
                format,
                identity_swizzle: true,
                base_mip_level: 0,
                mip_level_count: 1,
                base_array_layer: 0,
                array_layer_count: 1,
            }),
{
    let mut views: Vec<ImageViewConfig> = Vec::new();
    let mut i: usize = 0;
    while i < images.len()
        invariant
            i <= images@.len(),
            views@.len() == i,
            forall|j: int|
                0 <= j < i ==> views@[j] == (ImageViewConfig {
                    image: images@[j],
                    format,
                    identity_swizzle: true,
                    base_mip_level: 0,
                    mip_level_count: 1,
                    base_array_layer: 0,
                    array_layer_count: 1,
                }),
        decreases images@.len() - i,
    {
        views.push(
            ImageViewConfig {
                image: images[i],
                format,
                identity_swizzle: true,
                base_mip_level: 0,
                mip_level_count: 1,
                base_array_layer: 0,
                array_layer_count: 1,
            },
        );
        i += 1;
    }
    views
}

/// The configuration of one framebuffer: a single attachment bound to the
/// render pass, at the chain's extent, one layer deep.
#[derive(Clone, Copy, Debug, PartialEq, Eq, Structural)]
pub struct FramebufferConfig {
    pub render_pass: u64,
    pub attachment: u64,
    pub width: u32,
    pub height: u32,
    pub layers: u32,
}

/// Plans one framebuffer per image view, each bound to the render pass and
/// sized to the chain's extent.
pub fn create_frame_buffers(
    image_views: &Vec<u64>,
    render_pass: u64,
    extent: Extent2D,
) -> (r: Vec<FramebufferConfig>)
    ensures
        r@.len() == image_views@.len(),
        forall|i: int|
            0 <= i < image_views@.len() ==> r@[i] == (FramebufferConfig {
                render_pass,
                attachment: image_views@[i],
                width: extent.width,
                height: extent.height,
                layers: 1,
            }),
{
    let mut framebuffers: Vec<FramebufferConfig> = Vec::new();
    let mut i: usize = 0;
    while i < image_views.len()
        invariant
            i <= image_views@.len(),
            framebuffers@.len() == i,
            forall|j: int|
                0 <= j < i ==> framebuffers@[j] == (FramebufferConfig {
                    render_pass,
                    attachment: image_views@[j],
                    width: extent.width,
                    height: extent.height,
                    layers: 1,
                }),
        decreases image_views@.len() - i,
    {
        framebuffers.push(
            FramebufferConfig {
                render_pass,
                attachment: image_views[i],
                width: extent.width,
                height: extent.height,
                layers: 1,
            },
        );
        i += 1;
    }
    framebuffers
}

/// The render pass of the chain: a single color attachment, and it must
/// carry the chain's chosen format.
#[derive(Clone, Copy, Debug, PartialEq, Eq, Structural)]
pub struct RenderPassConfig {
    pub color_attachment_format: u32,
    pub color_attachment_count: u32,
}

/// Plans the render pass: one color attachment in the chain's format.
pub fn create_render_pass(format: u32) -> (r: RenderPassConfig)
    ensures
        r == (RenderPassConfig { color_attachment_format: format, color_attachment_count: 1 }),
{
    RenderPassConfig { color_attachment_format: format, color_attachment_count: 1 }
}

/// The fixed-function state the graphics pipeline takes from the chain: its
/// viewport and scissor must match the chosen extent, and it must target
/// the chain's render pass.
#[derive(Clone, Copy, Debug, PartialEq, Eq, Structural)]
pub struct PipelineConfig {
    pub viewport_extent: Extent2D,
    pub scissor_extent: Extent2D,
    pub render_pass: u64,
}

/// Plans the extent-dependent pipeline state: viewport and scissor equal to
/// the chain's extent, targeting the chain's render pass.
pub fn create_pipeline(extent: Extent2D, render_pass: u64) -> (r: PipelineConfig)
    ensures
        r.viewport_extent == extent,
        r.scissor_extent == extent,
        r.render_pass == render_pass,
{
    PipelineConfig { viewport_extent: extent, scissor_extent: extent, render_pass }
}

/// max(lo, min(hi, v)), as the negotiation uses it.
fn clamp(lo: u32, hi: u32, v: u32) -> (r: u32)
    ensures
        r == clamp_u32(lo, hi, v),
{
    let upper = if v < hi {
        v
    } else {
        hi
    };
    if upper < lo {
        lo
    } else {
        upper
    }
}

} // verus!
