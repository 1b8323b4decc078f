//! How the window's surface is configured: one configuration for each pixel
//! size and surface format, with everything else fixed.

use vstd::prelude::*;
use wgpu::{CompositeAlphaMode, PresentMode, TextureFormat};
use winit::dpi::PhysicalSize;
use crate::gpu::srgb_variant;

verus! {

/// What the images of the surface are used for.
#[derive(Clone, Copy, Debug, PartialEq, Eq)]
pub enum SurfaceUsage {
    /// The images are the output of render passes, and nothing else.
    RenderAttachment,
}

/// The number of frames the presentation engine is asked to queue in advance.
pub const FRAME_LATENCY: u32 = 2;

/// A complete configuration of the surface, ready for the host to apply.
#[derive(Clone, Copy, Debug, PartialEq, Eq)]
pub struct SurfaceConfig {
    /// The use of the surface's images.
    pub usage: SurfaceUsage,
    /// The format of the surface's images.
    pub format: TextureFormat,
    /// The one format, besides `format`, in which views of the images may be
    /// made.
    pub view_format: TextureFormat,
    /// How the alpha channel is treated when the window is composited.
    pub alpha_mode: CompositeAlphaMode,
    /// The width of the images, in pixels.
    pub width: u32,
    /// The height of the images, in pixels.
    pub height: u32,
    /// The number of frames to queue in advance.
    pub desired_maximum_frame_latency: u32,
    /// How presentation is synchronised with the display.
    pub present_mode: PresentMode,
}

/// A surface can be configured for `size`: neither dimension is zero.
pub open spec fn drawable(size: PhysicalSize<u32>) -> bool {
    size.width > 0 && size.height > 0
}

/// The configuration for a surface of `size` whose images have `format`:
/// render attachments of that size and format, viewed through the sRGB
/// variant of the format, composited as the platform chooses, presented with
/// vertical sync where it can be had, two frames queued.
pub open spec fn configuration_for(size: PhysicalSize<u32>, format: TextureFormat) -> SurfaceConfig {
    SurfaceConfig {
        usage: SurfaceUsage::RenderAttachment,
        format,
        view_format: srgb_variant(format),
        alpha_mode: CompositeAlphaMode::Auto,
        width: size.width,
        height: size.height,
        desired_maximum_frame_latency: FRAME_LATENCY,
        present_mode: PresentMode::AutoVsync,
    }
}

/// Whether a surface can be configured for `size`.
pub fn is_drawable(size: PhysicalSize<u32>) -> (out: bool)
    ensures
        out == drawable(size),
{
    size.width > 0 && size.height > 0
}

/// Builds the configuration for a surface of `size` with images of `format`.
pub fn surface_configuration(size: PhysicalSize<u32>, format: TextureFormat) -> (config:
    SurfaceConfig)
    ensures
        config == configuration_for(size, format),
{
    SurfaceConfig {
        usage: SurfaceUsage::RenderAttachment,
        format,
        view_format: format.add_srgb_suffix(),
        alpha_mode: CompositeAlphaMode::Auto,
        width: size.width,
        height: size.height,
        desired_maximum_frame_latency: FRAME_LATENCY,
        present_mode: PresentMode::AutoVsync,
    }
}

/// Two sizes have the same configuration, for any one format, exactly when
/// they are the same size.
pub proof fn lemma_configuration_tells_size(
    a: PhysicalSize<u32>,
    b: PhysicalSize<u32>,
    format: TextureFormat,
)
    ensures
        configuration_for(a, format) == configuration_for(b, format) <==> a == b,
{
}

} // verus!
