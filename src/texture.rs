//! Format-tagged pixel storage, bulk pixel replacement, and texel lookup.

use vstd::prelude::*;

verus! {

/// The layout of one pixel in a texture's byte buffer.
#[allow(non_camel_case_types)]
#[derive(Clone, Copy, Debug, PartialEq, Eq, Structural)]
pub enum TextureFormat {
    R8,
    RGB8,
    SRGB8,
    RGBA8,
    SRGB8_A8,
    DEPTH_FLOAT,
}

/// Number of bytes one pixel of `format` occupies.
pub open spec fn bytes_per_pixel(format: TextureFormat) -> nat {
    match format {
        TextureFormat::R8 => 1,
        TextureFormat::RGB8 | TextureFormat::SRGB8 => 3,
        TextureFormat::RGBA8 | TextureFormat::SRGB8_A8 => 4,
        TextureFormat::DEPTH_FLOAT => 4,
    }
}

/// Value every byte of a fresh texture holds.
pub const FILL_BYTE: u8 = 0xFF;

/// A `width` x `height` image whose pixels are stored row-major, one after
/// the other, each taking `bytes_per_pixel(format)` bytes.
#[derive(Debug)]
pub struct Texture {
    pub format: TextureFormat,
    pub width: u32,
    pub height: u32,
    pub pixels: Vec<u8>,
}

/// `dst` with `src` written over it again and again from the start, as many
/// whole times as it fits; bytes past the last whole copy keep their value.
pub open spec fn tiled(dst: Seq<u8>, src: Seq<u8>) -> Seq<u8> {
    if src.len() == 0 {
        dst
    } else {
        Seq::new(
            dst.len(),
            |i: int|
                if i < dst.len() - dst.len() % src.len() {
                    src[i % (src.len() as int)]
                } else {
                    dst[i]
                },
        )
    }
}

/// A texel index clamped to the last valid index of a dimension.
pub open spec fn clamp_index(index: u32, dim: u32) -> int {
    if index >= dim {
        dim - 1
    } else {
        index as int
    }
}

/// Where one channel of a sampled color comes from, before the caller turns
/// it into a number: the constant full intensity, a byte read as a fraction
/// of 255, a byte read as a fraction of 255 and then taken from sRGB to
/// linear, or a byte taken at its integer value.
#[derive(Clone, Copy, Debug, PartialEq, Eq, Structural)]
pub enum Channel {
    Full,
    Unit(u8),
    Linear(u8),
    Raw(u8),
}

/// The four channels of one decoded texel.
#[derive(Clone, Copy, Debug, PartialEq, Eq, Structural)]
pub struct Texel {
    pub r: Channel,
    pub g: Channel,
    pub b: Channel,
    pub a: Channel,
}

/// The channels a pixel's bytes `px` decode to under `format`. Channels the
/// format does not store are at full intensity; a depth byte is repeated in
/// red, green and blue; sRGB formats go to linear in red, green and blue but
/// not in alpha.
pub open spec fn decode_texel(format: TextureFormat, px: Seq<u8>) -> Texel {
    match format {
        TextureFormat::R8 => Texel {
            r: Channel::Unit(px[0]),
            g: Channel::Full,
            b: Channel::Full,
            a: Channel::Full,
        },
        TextureFormat::RGB8 => Texel {
            r: Channel::Unit(px[0]),
            g: Channel::Unit(px[1]),
            b: Channel::Unit(px[2]),
            a: Channel::Full,
        },
        TextureFormat::SRGB8 => Texel {
            r: Channel::Linear(px[0]),
            g: Channel::Linear(px[1]),
            b: Channel::Linear(px[2]),
            a: Channel::Full,
        },
        TextureFormat::RGBA8 => Texel {
            r: Channel::Unit(px[0]),
            g: Channel::Unit(px[1]),
            b: Channel::Unit(px[2]),
            a: Channel::Unit(px[3]),
        },
        TextureFormat::SRGB8_A8 => Texel {
            r: Channel::Linear(px[0]),
            g: Channel::Linear(px[1]),
            b: Channel::Linear(px[2]),
            a: Channel::Unit(px[3]),
        },
        TextureFormat::DEPTH_FLOAT => Texel {
            r: Channel::Raw(px[0]),
            g: Channel::Raw(px[0]),
            b: Channel::Raw(px[0]),
            a: Channel::Full,
        },
    }
}

impl Texture {
    /// Bytes the texture's dimensions and format call for.
    pub open spec fn capacity(&self) -> int {
        self.width * self.height * bytes_per_pixel(self.format)
    }

    /// Both dimensions are positive and the buffer holds exactly one
    /// pixel's worth of bytes per pixel.
    pub open spec fn wf(&self) -> bool {
        &&& self.width > 0
        &&& self.height > 0
        &&& self.pixels.len() == self.capacity()
    }

    /// Byte offset of the texel at the clamped indices.
    pub open spec fn offset_of(&self, u_index: u32, v_index: u32) -> int {
        (clamp_index(u_index, self.width) + clamp_index(v_index, self.height) * self.width)
            * bytes_per_pixel(self.format)
    }

    /// A texture of the given format and size with every byte set to
    /// `FILL_BYTE`, or `None` when either dimension is zero.
    pub fn new(format: TextureFormat, width: u32, height: u32) -> (r: Option<Self>)
        requires
            width * height * bytes_per_pixel(format) <= usize::MAX,
        ensures
            r is None <==> (width == 0 || height == 0),
            r matches Some(t) ==> {
                &&& t.wf()
                &&& t.format == format
                &&& t.width == width
                &&& t.height == height
                &&& forall|i: int| 0 <= i < t.pixels.len() ==> t.pixels[i] == FILL_BYTE
            },
    {
        if width == 0 || height == 0 {
            return None;
        }
        let pixel_size: usize = match format {
            TextureFormat::R8 => 1,
            TextureFormat::RGB8 | TextureFormat::SRGB8 => 3,
            TextureFormat::RGBA8 | TextureFormat::SRGB8_A8 => 4,
            TextureFormat::DEPTH_FLOAT => 4,
        };
        assert(pixel_size == bytes_per_pixel(format));
        assert((width as int) * (height as int) <= (width as int) * (height as int) * pixel_size)
            by (nonlinear_arith)
            requires
                pixel_size >= 1,
        ;
        let len: usize = (width as usize) * (height as usize) * pixel_size;
        let mut pixels: Vec<u8> = Vec::new();
        let mut i: usize = 0;
        while i < len
            invariant
                i <= len,
                pixels.len() == i,
                forall|k: int| 0 <= k < i ==> pixels[k] == FILL_BYTE,
            decreases len - i,
        {
            pixels.push(FILL_BYTE);
            i += 1;
        }
        Some(Texture { format, width, height, pixels })
    }

    /// The texture's pixel format.
    pub fn get_texture_format(&self) -> (r: TextureFormat)
        ensures
            r == self.format,
    {
        self.format
    }

    /// Replaces the pixels by tiling: when `pixels` is no longer than the
    /// texture's capacity, every whole `pixels.len()`-byte chunk of the
    /// buffer, from the start, becomes a copy of `pixels` and an incomplete
    /// chunk at the end stays as it was. A longer `pixels` is refused and the
    /// texture is left unchanged.
    pub fn set_texture_pixels(&mut self, pixels: &[u8]) -> (r: Result<(), &'static str>)
        requires
            old(self).wf(),
        ensures
            final(self).format == old(self).format,
            final(self).width == old(self).width,
            final(self).height == old(self).height,
            final(self).wf(),
            r is Ok <==> pixels@.len() <= old(self).capacity(),
            r is Ok ==> final(self).pixels@ == tiled(old(self).pixels@, pixels@),
            r is Err ==> final(self).pixels@ == old(self).pixels@,
    {
        let capacity = self.pixels.len();
        if capacity < pixels.len() {
            return Err("texture is smaller than the source pixels");
        }
        let n = pixels.len();
        if n == 0 {
            return Ok(());
        }
        let limit: usize = capacity - capacity % n;
        let ghost before = self.pixels@;
        let mut i: usize = 0;
        while i < limit
            invariant
                limit <= capacity,
                limit == capacity - capacity % n,
                n == pixels@.len(),
                n > 0,
                i <= limit,
                self.pixels.len() == capacity,
                before.len() == capacity,
                self.format == old(self).format,
                self.width == old(self).width,
                self.height == old(self).height,
                before == old(self).pixels@,
                forall|k: int| 0 <= k < i ==> self.pixels[k] == pixels@[k % (n as int)],
                forall|k: int| i <= k < capacity ==> self.pixels[k] == before[k],
            decreases limit - i,
        {
            self.pixels.set(i, pixels[i % n]);
            i += 1;
        }
        assert(self.pixels@ =~= tiled(before, pixels@));
        Ok(())
    }

    /// Hands out the pixel buffer for direct writes. Whatever is written
    /// through the reference becomes the texture's buffer; the other fields
    /// stay as they were.
    pub fn get_texture_pixels(&mut self) -> (r: &mut Vec<u8>)
        ensures
            *r == old(self).pixels,
            final(self).format == old(self).format,
            final(self).width == old(self).width,
            final(self).height == old(self).height,
            final(self).pixels == *final(r),
    {
        &mut self.pixels
    }

    /// Bytes per pixel of the texture's format.
    pub fn get_pixel_size(&self) -> (r: i32)
        ensures
            r == bytes_per_pixel(self.format),
    {
        match self.format {
            TextureFormat::R8 => 1,
            TextureFormat::RGB8 | TextureFormat::SRGB8 => 3,
            TextureFormat::RGBA8 | TextureFormat::SRGB8_A8 => 4,
            TextureFormat::DEPTH_FLOAT => 4,
        }
    }

    /// Byte offset of the texel at column `u_index` and row `v_index`, each
    /// first clamped to the last column or row. The whole texel lies inside
    /// the buffer, whatever the indices.
    pub fn texel_offset(&self, u_index: u32, v_index: u32) -> (r: usize)
        requires
            self.wf(),
        ensures
            r == self.offset_of(u_index, v_index),
            r + bytes_per_pixel(self.format) <= self.pixels.len(),
    {
        let u: u32 = if u_index >= self.width { self.width - 1 } else { u_index };
        let v: u32 = if v_index >= self.height { self.height - 1 } else { v_index };
        let w = self.width as usize;
        let h = self.height as usize;
        let bpp = self.get_pixel_size() as usize;
        assert((u + v * w) * bpp + bpp <= w * h * bpp) by (nonlinear_arith)
            requires
                u < w,
                v < h,
                bpp >= 1,
        ;
        assert(v * w <= (u + v * w) * bpp) by (nonlinear_arith)
            requires
                bpp >= 1,
        ;
        (u as usize + (v as usize) * w) * bpp
    }

    /// The texel at column `u_index` and row `v_index` (each clamped to the
    /// last column or row), decoded by the texture's format.
    pub fn texel_fetch(&self, u_index: u32, v_index: u32) -> (r: Texel)
        requires
            self.wf(),
        ensures
            r == decode_texel(
                self.format,
                self.pixels@.subrange(
                    self.offset_of(u_index, v_index),
                    self.offset_of(u_index, v_index) + bytes_per_pixel(self.format),
                ),
            ),
    {
        let o = self.texel_offset(u_index, v_index);
        let p = &self.pixels;
        match self.format {
            TextureFormat::R8 => Texel {
                r: Channel::Unit(p[o]),
                g: Channel::Full,
                b: Channel::Full,
                a: Channel::Full,
            },
            TextureFormat::RGB8 => Texel {
                r: Channel::Unit(p[o]),
                g: Channel::Unit(p[o + 1]),
                b: Channel::Unit(p[o + 2]),
                a: Channel::Full,
            },
            TextureFormat::SRGB8 => Texel {
                r: Channel::Linear(p[o]),
                g: Channel::Linear(p[o + 1]),
                b: Channel::Linear(p[o + 2]),
                a: Channel::Full,
            },
            TextureFormat::RGBA8 => Texel {
                r: Channel::Unit(p[o]),
                g: Channel::Unit(p[o + 1]),
                b: Channel::Unit(p[o + 2]),
                a: Channel::Unit(p[o + 3]),
            },
            TextureFormat::SRGB8_A8 => Texel {
                r: Channel::Linear(p[o]),
                g: Channel::Linear(p[o + 1]),
                b: Channel::Linear(p[o + 2]),
                a: Channel::Unit(p[o + 3]),
            },
            TextureFormat::DEPTH_FLOAT => Texel {
                r: Channel::Raw(p[o]),
                g: Channel::Raw(p[o]),
                b: Channel::Raw(p[o]),
                a: Channel::Full,
            },
        }
    }

    /// The texture's `(width, height)`.
    pub fn get_shape(&self) -> (r: (u32, u32))
        ensures
            r == (self.width, self.height),
    {
        (self.width, self.height)
    }
}

} // verus!
