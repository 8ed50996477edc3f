use crate::desc::{Memory, TextureFormat};
use vstd::prelude::*;

verus! {

/// The value a handle holds when it refers to no native object.
pub const NULL_HANDLE: u64 = 0;

/// A buffer handle: a copyable reference to one native buffer object.
/// The default value is the null handle.
#[derive(Clone, Copy, Debug, PartialEq, Eq, Structural)]
pub struct Buffer {
    raw: u64,
}

/// A texture handle; the default value is the null handle.
#[derive(Clone, Copy, Debug, PartialEq, Eq, Structural)]
pub struct Texture {
    raw: u64,
}

/// A texture view handle; the default value is the null handle.
#[derive(Clone, Copy, Debug, PartialEq, Eq, Structural)]
pub struct TextureView {
    raw: u64,
}

impl Buffer {
    pub closed spec fn id(self) -> u64 {
        self.raw
    }

    /// A handle is its handle value: two handles with the same value are equal.
    pub proof fn lemma_id_determines(a: Buffer, b: Buffer)
        requires
            a.id() == b.id(),
        ensures
            a == b,
    {
    }

    pub open spec fn is_null_spec(self) -> bool {
        self.id() == NULL_HANDLE
    }

    /// The handle whose value is `raw`.
    pub closed spec fn from_raw_spec(raw: u64) -> Buffer {
        Buffer { raw }
    }

    pub fn from_raw(raw: u64) -> (r: Buffer)
        ensures
            r.id() == raw,
            r == Buffer::from_raw_spec(raw),
    {
        Buffer { raw }
    }

    pub fn raw(&self) -> (r: u64)
        ensures
            r == self.id(),
    {
        self.raw
    }

    pub fn is_null(&self) -> (r: bool)
        ensures
            r == self.is_null_spec(),
    {
        self.raw == NULL_HANDLE
    }
}

impl Default for Buffer {
    fn default() -> (r: Buffer)
        ensures
            r.is_null_spec(),
            r == Buffer::from_raw_spec(NULL_HANDLE),
    {
        Buffer { raw: NULL_HANDLE }
    }
}

impl Texture {
    pub closed spec fn id(self) -> u64 {
        self.raw
    }

    /// A handle is its handle value: two handles with the same value are equal.
    pub proof fn lemma_id_determines(a: Texture, b: Texture)
        requires
            a.id() == b.id(),
        ensures
            a == b,
    {
    }

    pub open spec fn is_null_spec(self) -> bool {
        self.id() == NULL_HANDLE
    }

    /// The handle whose value is `raw`.
    pub closed spec fn from_raw_spec(raw: u64) -> Texture {
        Texture { raw }
    }

    pub fn from_raw(raw: u64) -> (r: Texture)
        ensures
            r.id() == raw,
            r == Texture::from_raw_spec(raw),
    {
        Texture { raw }
    }

    pub fn raw(&self) -> (r: u64)
        ensures
            r == self.id(),
    {
        self.raw
    }

    pub fn is_null(&self) -> (r: bool)
        ensures
            r == self.is_null_spec(),
    {
        self.raw == NULL_HANDLE
    }
}

impl Default for Texture {
    fn default() -> (r: Texture)
        ensures
            r.is_null_spec(),
            r == Texture::from_raw_spec(NULL_HANDLE),
    {
        Texture { raw: NULL_HANDLE }
    }
}

impl TextureView {
    pub closed spec fn id(self) -> u64 {
        self.raw
    }

    /// A handle is its handle value: two handles with the same value are equal.
    pub proof fn lemma_id_determines(a: TextureView, b: TextureView)
        requires
            a.id() == b.id(),
        ensures
            a == b,
    {
    }

    pub open spec fn is_null_spec(self) -> bool {
        self.id() == NULL_HANDLE
    }

    /// The handle whose value is `raw`.
    pub closed spec fn from_raw_spec(raw: u64) -> TextureView {
        TextureView { raw }
    }

    pub fn from_raw(raw: u64) -> (r: TextureView)
        ensures
            r.id() == raw,
            r == TextureView::from_raw_spec(raw),
    {
        TextureView { raw }
    }

    pub fn raw(&self) -> (r: u64)
        ensures
            r == self.id(),
    {
        self.raw
    }

    pub fn is_null(&self) -> (r: bool)
        ensures
            r == self.is_null_spec(),
    {
        self.raw == NULL_HANDLE
    }
}

impl Default for TextureView {
    fn default() -> (r: TextureView)
        ensures
            r.is_null_spec(),
            r == TextureView::from_raw_spec(NULL_HANDLE),
    {
        TextureView { raw: NULL_HANDLE }
    }
}

/// Where a native resource is stored.
#[derive(Clone, Copy, Debug, PartialEq, Eq, Structural)]
pub enum StorageMode {
    Shared,
    Private,
}

/// The native resource options a buffer is created with.
#[derive(Clone, Copy, Debug, PartialEq, Eq, Structural)]
pub struct ResourceOptions {
    pub storage: StorageMode,
    pub write_combined: bool,
}

pub open spec fn options_for(memory: Memory) -> ResourceOptions {
    match memory {
        Memory::Device => ResourceOptions { storage: StorageMode::Private, write_combined: false },
        Memory::Shared => ResourceOptions { storage: StorageMode::Shared, write_combined: false },
        Memory::Upload => ResourceOptions { storage: StorageMode::Shared, write_combined: true },
    }
}

/// Storage mode field of the native option word.
pub const STORAGE_MODE_SHIFT: u64 = 4;
pub const STORAGE_SHARED: u64 = 0;
pub const STORAGE_PRIVATE: u64 = 2;
/// Cache mode field of the native option word.
pub const CPU_CACHE_WRITE_COMBINED: u64 = 1;

pub open spec fn options_bits_spec(o: ResourceOptions) -> u64 {
    let storage: u64 = match o.storage {
        StorageMode::Shared => 0u64,
        StorageMode::Private => 32u64,
    };
    if o.write_combined {
        (storage + 1) as u64
    } else {
        storage
    }
}

impl ResourceOptions {
    /// Chooses the resource options for a kind of memory.
    pub fn for_memory(memory: Memory) -> (r: ResourceOptions)
        ensures
            r == options_for(memory),
    {
        match memory {
            Memory::Device => ResourceOptions { storage: StorageMode::Private, write_combined: false },
            Memory::Shared => ResourceOptions { storage: StorageMode::Shared, write_combined: false },
            Memory::Upload => ResourceOptions { storage: StorageMode::Shared, write_combined: true },
        }
    }

    /// The native option word: storage mode in bits 4..8, cache mode in bits 0..4.
    pub fn bits(&self) -> (r: u64)
        ensures
            r == options_bits_spec(*self),
    {
        let storage: u64 = match self.storage {
            StorageMode::Shared => STORAGE_SHARED << STORAGE_MODE_SHIFT,
            StorageMode::Private => STORAGE_PRIVATE << STORAGE_MODE_SHIFT,
        };
        assert((0u64 << 4u64) == 0u64 && (2u64 << 4u64) == 32u64) by (bit_vector);
        assert((0u64 | 1u64) == 1u64 && (32u64 | 1u64) == 33u64) by (bit_vector);
        if self.write_combined {
            storage | CPU_CACHE_WRITE_COMBINED
        } else {
            storage
        }
    }
}

/// The native pixel formats this library produces.
#[derive(Clone, Copy, Debug, PartialEq, Eq, Structural)]
pub enum PixelFormat {
    Rgba8Unorm,
}

/// The native code of `Rgba8Unorm`.
pub const PIXEL_FORMAT_RGBA8_UNORM: u64 = 70;

impl PixelFormat {
    pub open spec fn code_spec(self) -> u64 {
        match self {
            PixelFormat::Rgba8Unorm => PIXEL_FORMAT_RGBA8_UNORM,
        }
    }

    /// The native numeric code of the format.
    pub fn code(&self) -> (r: u64)
        ensures
            r == self.code_spec(),
    {
        match self {
            PixelFormat::Rgba8Unorm => PIXEL_FORMAT_RGBA8_UNORM,
        }
    }
}

pub open spec fn texture_format_spec(format: TextureFormat) -> PixelFormat {
    match format {
        TextureFormat::Rgba8Unorm => PixelFormat::Rgba8Unorm,
    }
}

/// Maps a texture format onto the native pixel format table.
pub fn map_texture_format(format: TextureFormat) -> (r: PixelFormat)
    ensures
        r == texture_format_spec(format),
{
    match format {
        TextureFormat::Rgba8Unorm => PixelFormat::Rgba8Unorm,
    }
}

} // verus!
