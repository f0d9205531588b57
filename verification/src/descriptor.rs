//! Texture Descriptor: the canonical resolved metadata record that the
//! platform swizzle transform consumes.

use vstd::prelude::*;

use crate::format::PixelFormat;

verus! {

/// Texture sampling filter.
#[derive(Clone, Copy, Debug, PartialEq, Eq, Structural)]
pub enum FilterMode {
    Nearest,
    Linear,
}

/// Texture coordinate wrapping per axis.
#[derive(Clone, Copy, Debug, PartialEq, Eq, Structural)]
pub enum WrapMode {
    Clamp,
    Repeat,
    Mirror,
}

/// Filter applied between mip levels.
#[derive(Clone, Copy, Debug, PartialEq, Eq, Structural)]
pub enum MipFilterMode {
    Nearest,
    Linear,
}

/// Anisotropic filtering ratio.
#[derive(Clone, Copy, Debug, PartialEq, Eq, Structural)]
pub enum AnisoRatio {
    Ratio1,
    Ratio2,
    Ratio4,
    Ratio8,
    Ratio16,
}

/// Sampler parameter bundle. The pipeline never derives these from the
/// input; it always uses the conservative default below.
#[derive(Clone, Copy, Debug, PartialEq, Eq, Structural)]
pub struct SamplerParams {
    /// Reserved platform field, kept at zero.
    pub reserved: u32,
    /// Minification/magnification filter.
    pub filter: FilterMode,
    /// Wrapping along the first axis.
    pub wrap_x: WrapMode,
    /// Wrapping along the second axis.
    pub wrap_y: WrapMode,
    /// Wrapping along the third axis.
    pub wrap_z: WrapMode,
    /// Filter between mip levels.
    pub mip_filter: MipFilterMode,
    /// Anisotropic filtering ratio.
    pub aniso: AnisoRatio,
}

/// The conservative default sampler bundle: linear filtering, repeat
/// wrapping on every axis, linear mip filtering, anisotropy ratio 1.
pub open spec fn spec_default_sampler() -> SamplerParams {
    SamplerParams {
        reserved: 0,
        filter: FilterMode::Linear,
        wrap_x: WrapMode::Repeat,
        wrap_y: WrapMode::Repeat,
        wrap_z: WrapMode::Repeat,
        mip_filter: MipFilterMode::Linear,
        aniso: AnisoRatio::Ratio1,
    }
}

/// The canonical resolved representation of one texture asset.
#[derive(Debug)]
pub struct TextureDescriptor {
    /// Pixel width, positive for any meaningful texture.
    pub width: u32,
    /// Pixel height, positive for any meaningful texture.
    pub height: u32,
    /// Number of layers; this pipeline always produces exactly one.
    pub layer_count: u32,
    /// The resolved generic pixel format.
    pub format: PixelFormat,
    /// Declared byte size per mip level; this pipeline always produces a
    /// single entry holding the caller-declared budget.
    pub mip_byte_sizes: Vec<u32>,
    /// Opaque platform tiling hint; neutral (zero) for linear sources.
    pub tiling_hint: u32,
    /// Opaque platform swizzle hint; neutral (zero) for linear sources.
    pub swizzle_hint: u32,
    /// Sampler parameters, always the conservative default.
    pub sampler: SamplerParams,
}

impl TextureDescriptor {
    /// The descriptor shape this pipeline always produces: a single-layer,
    /// single-mip, linear-layout texture with default sampling.
    pub open spec fn wf(self) -> bool {
        &&& self.layer_count == 1
        &&& self.mip_byte_sizes@.len() == 1
        &&& self.tiling_hint == 0
        &&& self.swizzle_hint == 0
        &&& self.sampler == spec_default_sampler()
    }
}

/// Assemble the canonical descriptor for one resolved texture: the given
/// dimensions and format, one layer, one declared mip byte size, neutral
/// hints, and the default sampler bundle.
pub fn build_descriptor(width: u32, height: u32, format: PixelFormat, mip_size: u32) -> (d:
    TextureDescriptor)
    ensures
        d.width == width,
        d.height == height,
        d.format == format,
        d.layer_count == 1,
        d.mip_byte_sizes@ == seq![mip_size],
        d.tiling_hint == 0,
        d.swizzle_hint == 0,
        d.sampler == spec_default_sampler(),
        d.wf(),
{
    let mut sizes: Vec<u32> = Vec::new();
    sizes.push(mip_size);
    proof {
        assert(sizes@ =~= seq![mip_size]);
    }
    TextureDescriptor {
        width,
        height,
        layer_count: 1,
        format,
        mip_byte_sizes: sizes,
        tiling_hint: 0,
        swizzle_hint: 0,
        sampler: SamplerParams {
            reserved: 0,
            filter: FilterMode::Linear,
            wrap_x: WrapMode::Repeat,
            wrap_y: WrapMode::Repeat,
            wrap_z: WrapMode::Repeat,
            mip_filter: MipFilterMode::Linear,
            aniso: AnisoRatio::Ratio1,
        },
    }
}

} // verus!
