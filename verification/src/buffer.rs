//! The logical pixel buffer: raw bytes plus format metadata.
//!
//! The buffer's length is pinned to `width * height * texel size` for its
//! texture format; it is written by the caller between frames and read, never
//! retained, by the upload step of each render call.

use vstd::prelude::*;

verus! {

/// The texel formats a pixel buffer can carry. The variants mirror the
/// format set of the GPU interface; each has a fixed texel size in bytes.
#[derive(Debug, Clone, Copy, PartialEq, Eq, Structural)]
pub enum TextureFormat {
    R8Unorm,
    R8Snorm,
    R8Uint,
    R8Sint,
    R16Uint,
    R16Sint,
    R16Float,
    Rg8Unorm,
    Rg8Snorm,
    Rg8Uint,
    Rg8Sint,
    R32Uint,
    R32Sint,
    R32Float,
    Rg16Uint,
    Rg16Sint,
    Rg16Float,
    Rgba8Unorm,
    Rgba8UnormSrgb,
    Rgba8Snorm,
    Rgba8Uint,
    Rgba8Sint,
    Bgra8Unorm,
    Bgra8UnormSrgb,
    Rgb10a2Unorm,
    Rg11b10Float,
    Depth32Float,
    Depth24Plus,
    Depth24PlusStencil8,
    Rg32Uint,
    Rg32Sint,
    Rg32Float,
    Rgba16Uint,
    Rgba16Sint,
    Rgba16Float,
    Rgba32Uint,
    Rgba32Sint,
    Rgba32Float,
}

/// The size of one texel of the format, in bytes.
pub open spec fn spec_texture_format_size(format: TextureFormat) -> int {
    match format {
        TextureFormat::R8Unorm => 1,
        TextureFormat::R8Snorm => 1,
        TextureFormat::R8Uint => 1,
        TextureFormat::R8Sint => 1,
        TextureFormat::R16Uint => 2,
        TextureFormat::R16Sint => 2,
        TextureFormat::R16Float => 2,
        TextureFormat::Rg8Unorm => 2,
        TextureFormat::Rg8Snorm => 2,
        TextureFormat::Rg8Uint => 2,
        TextureFormat::Rg8Sint => 2,
        TextureFormat::R32Uint => 4,
        TextureFormat::R32Sint => 4,
        TextureFormat::R32Float => 4,
        TextureFormat::Rg16Uint => 4,
        TextureFormat::Rg16Sint => 4,
        TextureFormat::Rg16Float => 4,
        TextureFormat::Rgba8Unorm => 4,
        TextureFormat::Rgba8UnormSrgb => 4,
        TextureFormat::Rgba8Snorm => 4,
        TextureFormat::Rgba8Uint => 4,
        TextureFormat::Rgba8Sint => 4,
        TextureFormat::Bgra8Unorm => 4,
        TextureFormat::Bgra8UnormSrgb => 4,
        TextureFormat::Rgb10a2Unorm => 4,
        TextureFormat::Rg11b10Float => 4,
        TextureFormat::Depth32Float => 4,
        TextureFormat::Depth24Plus => 4,
        TextureFormat::Depth24PlusStencil8 => 4,
        TextureFormat::Rg32Uint => 8,
        TextureFormat::Rg32Sint => 8,
        TextureFormat::Rg32Float => 8,
        TextureFormat::Rgba16Uint => 8,
        TextureFormat::Rgba16Sint => 8,
        TextureFormat::Rgba16Float => 8,
        TextureFormat::Rgba32Uint => 16,
        TextureFormat::Rgba32Sint => 16,
        TextureFormat::Rgba32Float => 16,
    }
}

/// The size in bytes of one texel of the given texture format.
pub fn get_texture_format_size(texture_format: TextureFormat) -> (size: u32)
    ensures
        size == spec_texture_format_size(texture_format),
        1 <= size <= 16,
{
    match texture_format {
        // 8-bit formats
        TextureFormat::R8Unorm
        | TextureFormat::R8Snorm
        | TextureFormat::R8Uint
        | TextureFormat::R8Sint => 1,
        // 16-bit formats
        TextureFormat::R16Uint
        | TextureFormat::R16Sint
        | TextureFormat::R16Float
        | TextureFormat::Rg8Unorm
        | TextureFormat::Rg8Snorm
        | TextureFormat::Rg8Uint
        | TextureFormat::Rg8Sint => 2,
        // 32-bit formats
        TextureFormat::R32Uint
        | TextureFormat::R32Sint
        | TextureFormat::R32Float
        | TextureFormat::Rg16Uint
        | TextureFormat::Rg16Sint
        | TextureFormat::Rg16Float
        | TextureFormat::Rgba8Unorm
        | TextureFormat::Rgba8UnormSrgb
        | TextureFormat::Rgba8Snorm
        | TextureFormat::Rgba8Uint
        | TextureFormat::Rgba8Sint
        | TextureFormat::Bgra8Unorm
        | TextureFormat::Bgra8UnormSrgb
        | TextureFormat::Rgb10a2Unorm
        | TextureFormat::Rg11b10Float
        | TextureFormat::Depth32Float
        | TextureFormat::Depth24Plus
        | TextureFormat::Depth24PlusStencil8 => 4,
        // 64-bit formats
        TextureFormat::Rg32Uint
        | TextureFormat::Rg32Sint
        | TextureFormat::Rg32Float
        | TextureFormat::Rgba16Uint
        | TextureFormat::Rgba16Sint
        | TextureFormat::Rgba16Float => 8,
        // 128-bit formats
        TextureFormat::Rgba32Uint | TextureFormat::Rgba32Sint | TextureFormat::Rgba32Float => 16,
    }
}

/// The fixed-resolution logical image: format metadata plus the raw bytes the
/// caller draws into.
#[derive(Debug)]
pub struct PixelBuffer {
    /// Width of the logical image, in pixels.
    pub width: u32,
    /// Height of the logical image, in pixels.
    pub height: u32,
    /// Texel format of the bytes.
    pub format: TextureFormat,
    /// The raw bytes, exactly `width * height * texel size` of them.
    pub bytes: Vec<u8>,
}

impl PixelBuffer {
    /// The number of bytes the buffer must hold.
    pub open spec fn spec_byte_len(self) -> int {
        self.width * self.height * spec_texture_format_size(self.format)
    }

    /// Positive extents, and exactly the right number of bytes.
    pub open spec fn wf(self) -> bool {
        &&& self.width >= 1
        &&& self.height >= 1
        &&& self.bytes@.len() == self.spec_byte_len()
    }

    /// Create a zero-filled pixel buffer for the given extent and format.
    pub fn new(width: u32, height: u32, format: TextureFormat) -> (buffer: PixelBuffer)
        requires
            width >= 1,
            height >= 1,
            width * height * spec_texture_format_size(format) <= u32::MAX,
        ensures
            buffer.width == width,
            buffer.height == height,
            buffer.format == format,
            buffer.wf(),
            buffer.bytes@ == Seq::<u8>::new(buffer.spec_byte_len() as nat, |i: int| 0u8),
    {
        let texel: u32 = get_texture_format_size(format);
        proof {
            assert(width * height * spec_texture_format_size(format) == (width * height) * texel
                && width * height <= width * height * spec_texture_format_size(format) && width
                * height >= 0) by (nonlinear_arith)
                requires
                    texel == spec_texture_format_size(format),
                    1 <= texel,
                    1 <= width,
                    1 <= height,
            ;
        }
        let capacity: u32 = width * height * texel;
        let mut bytes: Vec<u8> = Vec::new();
        let mut i: u32 = 0;
        while i < capacity
            invariant
                i <= capacity,
                bytes@ == Seq::<u8>::new(i as nat, |j: int| 0u8),
            decreases capacity - i,
        {
            bytes.push(0u8);
            i = i + 1;
            proof {
                assert(bytes@ =~= Seq::<u8>::new(i as nat, |j: int| 0u8));
            }
        }
        PixelBuffer { width, height, format, bytes }
    }

    /// The byte length of the buffer.
    pub fn byte_len(&self) -> (len: usize)
        requires
            self.wf(),
        ensures
            len == self.spec_byte_len(),
    {
        self.bytes.len()
    }
}

} // verus!
