//! The plain data types of `wgpu` and `winit` that the library works on, and
//! the one computation it takes from `wgpu`: the sRGB variant of a format.

use vstd::prelude::*;
use wgpu::{AstcChannel, TextureFormat};

verus! {

/// `wgpu::TextureFormat`, with its variants as `wgpu` declares them.
#[verifier::external_type_specification]
pub struct ExTextureFormat(wgpu::TextureFormat);

/// `wgpu::AstcBlock`, which `TextureFormat::Astc` carries.
#[verifier::external_type_specification]
pub struct ExAstcBlock(wgpu::AstcBlock);

/// `wgpu::AstcChannel`, which `TextureFormat::Astc` carries.
#[verifier::external_type_specification]
pub struct ExAstcChannel(wgpu::AstcChannel);

/// `wgpu::SurfaceError`, the reasons for which a surface refuses a frame.
#[verifier::external_type_specification]
pub struct ExSurfaceError(wgpu::SurfaceError);

/// `wgpu::PresentMode`.
#[verifier::external_type_specification]
pub struct ExPresentMode(wgpu::PresentMode);

/// `wgpu::CompositeAlphaMode`.
#[verifier::external_type_specification]
pub struct ExCompositeAlphaMode(wgpu::CompositeAlphaMode);

/// `winit::dpi::PhysicalSize`, a width and a height in physical pixels.
#[verifier::external_type_specification]
#[verifier::reject_recursive_types(P)]
pub struct ExPhysicalSize<P>(winit::dpi::PhysicalSize<P>);

/// The format that differs from `format` only in being sRGB-encoded, where
/// there is one; `format` itself where there is none or where it already is
/// sRGB-encoded.
pub open spec fn srgb_variant(format: TextureFormat) -> TextureFormat {
    match format {
        TextureFormat::Rgba8Unorm => TextureFormat::Rgba8UnormSrgb,
        TextureFormat::Bgra8Unorm => TextureFormat::Bgra8UnormSrgb,
        TextureFormat::Bc1RgbaUnorm => TextureFormat::Bc1RgbaUnormSrgb,
        TextureFormat::Bc2RgbaUnorm => TextureFormat::Bc2RgbaUnormSrgb,
        TextureFormat::Bc3RgbaUnorm => TextureFormat::Bc3RgbaUnormSrgb,
        TextureFormat::Bc7RgbaUnorm => TextureFormat::Bc7RgbaUnormSrgb,
        TextureFormat::Etc2Rgb8Unorm => TextureFormat::Etc2Rgb8UnormSrgb,
        TextureFormat::Etc2Rgb8A1Unorm => TextureFormat::Etc2Rgb8A1UnormSrgb,
        TextureFormat::Etc2Rgba8Unorm => TextureFormat::Etc2Rgba8UnormSrgb,
        TextureFormat::Astc { block, channel: AstcChannel::Unorm } => TextureFormat::Astc {
            block,
            channel: AstcChannel::UnormSrgb,
        },
        _ => format,
    }
}

/// `wgpu::TextureFormat::add_srgb_suffix`. Trusted, not proved: that it
/// returns the sRGB variant of the format it is called on, as `srgb_variant`
/// lists them, and the format itself where it has none.
pub assume_specification[ TextureFormat::add_srgb_suffix ](format: &TextureFormat) -> (out:
    TextureFormat)
    ensures
        out == srgb_variant(*format),
;

} // verus!
