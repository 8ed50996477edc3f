use vstd::prelude::*;

verus! {

/// Options for creating a context.
pub struct ContextDesc {
    /// Ask the driver for its debug wrapper; diagnostic only.
    pub validation: bool,
}

/// Where the bytes of a buffer live and who may touch them.
#[derive(Clone, Copy, Debug, PartialEq, Eq, Structural)]
pub enum Memory {
    /// Private to the GPU.
    Device,
    /// Visible to the CPU and the GPU.
    Shared,
    /// Visible to the CPU, write-combined for uploads.
    Upload,
}

pub struct BufferDesc {
    pub name: String,
    pub size: u64,
    pub memory: Memory,
}

/// The pixel formats that textures can be created with.
#[derive(Clone, Copy, Debug, PartialEq, Eq, Structural)]
pub enum TextureFormat {
    Rgba8Unorm,
}

pub struct TextureDesc {
    pub name: String,
    pub format: TextureFormat,
    pub width: u32,
    pub height: u32,
    pub mip_level_count: u32,
}

pub struct TextureViewDesc {
    pub name: String,
    pub texture: crate::resource::Texture,
    pub format: TextureFormat,
}

pub struct CommandEncoderDesc {
    pub name: String,
}

/// No compatible device was found when creating a context.
#[derive(Clone, Copy, Debug, PartialEq, Eq, Structural)]
pub struct NotSupportedError;

} // verus!
