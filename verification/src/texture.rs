//! The State Store: two textures of one size and one format, each holding
//! one unsigned 32-bit value per cell.

use vstd::prelude::*;

verus! {

/// One of the two state textures.
#[derive(Clone, Copy, Debug, PartialEq, Eq, Structural)]
pub enum Buffer {
    A,
    B,
}

impl Buffer {
    /// The texture that is not `self`.
    pub open spec fn flipped(self) -> Buffer {
        match self {
            Buffer::A => Buffer::B,
            Buffer::B => Buffer::A,
        }
    }

    /// The texture that is not `self`.
    pub fn other(self) -> (other: Buffer)
        ensures
            other == self.flipped(),
            other != self,
    {
        match self {
            Buffer::A => Buffer::B,
            Buffer::B => Buffer::A,
        }
    }
}

/// What a texture may be used for.
#[derive(Clone, Copy, Debug, PartialEq, Eq, Structural)]
pub struct TextureUsage {
    /// Target of a buffer-to-texture copy.
    pub copy_dst: bool,
    /// Readable image of a shader stage.
    pub texture_binding: bool,
    /// Writable storage image of a compute stage.
    pub storage_binding: bool,
}

/// The size of a texture or of a region of one.
#[derive(Clone, Copy, Debug, PartialEq, Eq, Structural)]
pub struct Extent {
    pub width: u32,
    pub height: u32,
    pub depth_or_array_layers: u32,
}

/// A corner of a region of a texture.
#[derive(Clone, Copy, Debug, PartialEq, Eq, Structural)]
pub struct Origin {
    pub x: u32,
    pub y: u32,
    pub z: u32,
}

/// The number of axes along which a texture is laid out.
#[derive(Clone, Copy, Debug, PartialEq, Eq, Structural)]
pub enum TextureDimension {
    D1,
    D2,
    D3,
}

/// The format of the cells of a texture.
#[derive(Clone, Copy, Debug, PartialEq, Eq, Structural)]
pub enum TexelFormat {
    /// One channel of one unsigned 32-bit integer.
    R32Uint,
}

/// The description from which a state texture is allocated.
#[derive(Clone, Copy, Debug, PartialEq, Eq, Structural)]
pub struct TextureSpec {
    pub size: Extent,
    pub dimension: TextureDimension,
    /// The format in which the cells are stored.
    pub format: TexelFormat,
    /// The format in which views of the texture read and write the cells.
    pub view_format: TexelFormat,
    pub mip_level_count: u32,
    pub sample_count: u32,
    pub usage: TextureUsage,
}

/// The description of a state texture of the given size: a two-dimensional
/// image of one layer, one mip level and one sample, in the one-channel
/// unsigned 32-bit format and viewed in that same format, usable as the
/// simulation stage's input and output and as the target of the seeding
/// copy.
pub open spec fn state_texture(width: u32, height: u32) -> TextureSpec {
    TextureSpec {
        size: Extent { width, height, depth_or_array_layers: 1 },
        dimension: TextureDimension::D2,
        format: TexelFormat::R32Uint,
        view_format: TexelFormat::R32Uint,
        mip_level_count: 1,
        sample_count: 1,
        usage: TextureUsage { copy_dst: true, texture_binding: true, storage_binding: true },
    }
}

/// Describes a state texture of `width` by `height` cells.
pub fn create_texture(width: u32, height: u32) -> (texture: TextureSpec)
    ensures
        texture == state_texture(width, height),
{
    TextureSpec {
        size: Extent { width, height, depth_or_array_layers: 1 },
        dimension: TextureDimension::D2,
        format: TexelFormat::R32Uint,
        view_format: TexelFormat::R32Uint,
        mip_level_count: 1,
        sample_count: 1,
        usage: TextureUsage { copy_dst: true, texture_binding: true, storage_binding: true },
    }
}

} // verus!
