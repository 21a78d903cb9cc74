//! Format catalog: maps an abstract pixel format to its native format code,
//! aspect set and per-block size, and builds native subresource ranges from
//! abstract ones. Extending to a new format only ever adds a catalog entry;
//! no other component branches on pixel format directly.

use vstd::prelude::*;

verus! {

/// Abstract pixel formats understood by the engine.
#[derive(Clone, Copy, Debug, PartialEq, Eq, Hash, Structural)]
pub enum TextureFormat {
    Rgba8Unorm,
    Bgra8UnormSrgb,
}

/// Comparison functions for samplers and depth tests.
#[derive(Clone, Copy, Debug, PartialEq, Eq, Hash, Structural)]
pub enum CompareFunction {
    Never,
    Less,
    LessEqual,
    Equal,
    GreaterEqual,
    Greater,
    NotEqual,
    Always,
}

/// Which aspects a format carries.
#[derive(Clone, Copy, Debug, PartialEq, Eq, Structural)]
pub struct FormatAspects {
    pub color: bool,
    pub depth: bool,
    pub stencil: bool,
}

/// Size and footprint of one texel block.
#[derive(Clone, Copy, Debug, PartialEq, Eq, Structural)]
pub struct BlockInfo {
    pub bytes: u8,
    pub width: u8,
    pub height: u8,
}

/// A catalog entry: native format code, aspect set, block info.
#[derive(Clone, Copy, Debug, PartialEq, Eq, Structural)]
pub struct FormatInfo {
    pub raw: u32,
    pub aspects: FormatAspects,
    pub block: BlockInfo,
}

/// Native code for `VK_FORMAT_R8G8B8A8_UNORM`.
pub const FORMAT_R8G8B8A8_UNORM: u32 = 37;

/// Native code for `VK_FORMAT_B8G8R8A8_SRGB`.
pub const FORMAT_B8G8R8A8_SRGB: u32 = 50;

/// Native image-aspect bit for color.
pub const IMAGE_ASPECT_COLOR: u32 = 1;

/// Native image-aspect bit for depth.
pub const IMAGE_ASPECT_DEPTH: u32 = 2;

/// Native image-aspect bit for stencil.
pub const IMAGE_ASPECT_STENCIL: u32 = 4;

/// Native sentinel meaning "all remaining mip levels".
pub const REMAINING_MIP_LEVELS: u32 = 0xffff_ffff;

/// Native sentinel meaning "all remaining array layers".
pub const REMAINING_ARRAY_LAYERS: u32 = 0xffff_ffff;

/// The format catalog as a mathematical function.
pub open spec fn spec_describe_format(format: TextureFormat) -> FormatInfo {
    match format {
        TextureFormat::Rgba8Unorm => FormatInfo {
            raw: FORMAT_R8G8B8A8_UNORM,
            aspects: FormatAspects { color: true, depth: false, stencil: false },
            block: BlockInfo { bytes: 4, width: 1, height: 1 },
        },
        TextureFormat::Bgra8UnormSrgb => FormatInfo {
            raw: FORMAT_B8G8R8A8_SRGB,
            aspects: FormatAspects { color: true, depth: false, stencil: false },
            block: BlockInfo { bytes: 4, width: 1, height: 1 },
        },
    }
}

/// Looks a format up in the catalog.
pub fn describe_format(format: TextureFormat) -> (info: FormatInfo)
    ensures
        info == spec_describe_format(format),
{
    match format {
        TextureFormat::Rgba8Unorm => FormatInfo {
            raw: FORMAT_R8G8B8A8_UNORM,
            aspects: FormatAspects { color: true, depth: false, stencil: false },
            block: BlockInfo { bytes: 4, width: 1, height: 1 },
        },
        TextureFormat::Bgra8UnormSrgb => FormatInfo {
            raw: FORMAT_B8G8R8A8_SRGB,
            aspects: FormatAspects { color: true, depth: false, stencil: false },
            block: BlockInfo { bytes: 4, width: 1, height: 1 },
        },
    }
}

/// The native aspect mask an aspect set maps to. The native bits are
/// disjoint, so addition assembles the mask.
pub open spec fn spec_map_aspects(aspects: FormatAspects) -> u32 {
    ((if aspects.color {
        IMAGE_ASPECT_COLOR
    } else {
        0
    }) + (if aspects.depth {
        IMAGE_ASPECT_DEPTH
    } else {
        0
    }) + (if aspects.stencil {
        IMAGE_ASPECT_STENCIL
    } else {
        0
    })) as u32
}

/// Builds the native aspect mask for an aspect set.
pub fn map_aspects(aspects: FormatAspects) -> (mask: u32)
    ensures
        mask == spec_map_aspects(aspects),
{
    let mut mask: u32 = 0;
    if aspects.color {
        mask = mask + IMAGE_ASPECT_COLOR;
    }
    if aspects.depth {
        mask = mask + IMAGE_ASPECT_DEPTH;
    }
    if aspects.stencil {
        mask = mask + IMAGE_ASPECT_STENCIL;
    }
    mask
}

/// A texture extent in texels.
#[derive(Clone, Copy, Debug, PartialEq, Eq, Structural)]
pub struct Extent {
    pub width: u32,
    pub height: u32,
    pub depth: u32,
}

/// The native three-dimensional extent.
#[derive(Clone, Copy, Debug, PartialEq, Eq, Structural)]
pub struct NativeExtent3d {
    pub width: u32,
    pub height: u32,
    pub depth: u32,
}

/// Copies an abstract extent into the native layout.
pub fn map_extent_3d(extent: &Extent) -> (r: NativeExtent3d)
    ensures
        r.width == extent.width,
        r.height == extent.height,
        r.depth == extent.depth,
{
    NativeExtent3d { width: extent.width, height: extent.height, depth: extent.depth }
}

/// An abstract subresource range. Absent counts mean "all remaining".
#[derive(Clone, Copy, Debug, PartialEq, Eq, Structural)]
pub struct TextureSubresources {
    pub base_mip_level: u32,
    pub mip_level_count: Option<u32>,
    pub base_array_layer: u32,
    pub array_layer_count: Option<u32>,
}

/// The native subresource range.
#[derive(Clone, Copy, Debug, PartialEq, Eq, Structural)]
pub struct NativeSubresourceRange {
    pub aspect_mask: u32,
    pub base_mip_level: u32,
    pub level_count: u32,
    pub base_array_layer: u32,
    pub layer_count: u32,
}

/// Builds the native subresource range: absent counts become the native
/// "remaining" sentinels, and the aspect mask comes from the format's aspects.
pub fn map_subresource_range(
    subresources: &TextureSubresources,
    aspects: FormatAspects,
) -> (r: NativeSubresourceRange)
    ensures
        r.aspect_mask == spec_map_aspects(aspects),
        r.base_mip_level == subresources.base_mip_level,
        r.level_count == match subresources.mip_level_count {
            Some(n) => n,
            None => REMAINING_MIP_LEVELS,
        },
        r.base_array_layer == subresources.base_array_layer,
        r.layer_count == match subresources.array_layer_count {
            Some(n) => n,
            None => REMAINING_ARRAY_LAYERS,
        },
{
    NativeSubresourceRange {
        aspect_mask: map_aspects(aspects),
        base_mip_level: subresources.base_mip_level,
        level_count: match subresources.mip_level_count {
            Some(n) => n,
            None => REMAINING_MIP_LEVELS,
        },
        base_array_layer: subresources.base_array_layer,
        layer_count: match subresources.array_layer_count {
            Some(n) => n,
            None => REMAINING_ARRAY_LAYERS,
        },
    }
}

/// The native comparison-operation code a comparison function maps to.
pub open spec fn spec_map_comparison(fun: CompareFunction) -> u32 {
    match fun {
        CompareFunction::Never => 0,
        CompareFunction::Less => 1,
        CompareFunction::Equal => 2,
        CompareFunction::LessEqual => 3,
        CompareFunction::Greater => 4,
        CompareFunction::NotEqual => 5,
        CompareFunction::GreaterEqual => 6,
        CompareFunction::Always => 7,
    }
}

/// Maps a comparison function to its native code.
pub fn map_comparison(fun: CompareFunction) -> (code: u32)
    ensures
        code == spec_map_comparison(fun),
{
    match fun {
        CompareFunction::Never => 0,
        CompareFunction::Less => 1,
        CompareFunction::Equal => 2,
        CompareFunction::LessEqual => 3,
        CompareFunction::Greater => 4,
        CompareFunction::NotEqual => 5,
        CompareFunction::GreaterEqual => 6,
        CompareFunction::Always => 7,
    }
}

} // verus!
