//! Render targets: a color and a depth attachment whose common extent the
//! frame buffer tracks, and clearing them before a pass.

use crate::texture::{bytes_per_pixel, Texture, TextureFormat};
use crate::utility::u32_min;
use vstd::prelude::*;

verus! {

/// The two attachment slots of a frame buffer.
#[derive(Clone, Copy, Debug, PartialEq, Eq, Structural)]
pub enum AttachmentType {
    Color,
    Depth,
}

/// Byte written into the depth attachment by `clear`.
pub const DEPTH_CLEAR_BYTE: u8 = 1;

/// Whether a texture of `format` may be attached in slot `kind`: color takes
/// `RGBA8` or `SRGB8_A8`, depth takes `DEPTH_FLOAT`.
pub open spec fn accepts(kind: AttachmentType, format: TextureFormat) -> bool {
    match kind {
        AttachmentType::Color => format == TextureFormat::RGBA8 || format
            == TextureFormat::SRGB8_A8,
        AttachmentType::Depth => format == TextureFormat::DEPTH_FLOAT,
    }
}

/// The smaller of two widths or heights.
pub open spec fn min_u32(a: u32, b: u32) -> u32 {
    if a > b {
        b
    } else {
        a
    }
}

/// The extent shared by the attached textures: the smallest width and the
/// smallest height among them, or `(0, 0)` when none is attached.
pub open spec fn extent(color: Option<Box<Texture>>, depth: Option<Box<Texture>>) -> (u32, u32) {
    match (color, depth) {
        (None, None) => (0, 0),
        (Some(c), None) => (c.width, c.height),
        (None, Some(d)) => (d.width, d.height),
        (Some(c), Some(d)) => (min_u32(c.width, d.width), min_u32(c.height, d.height)),
    }
}

/// A texture fit for slot `kind`, or an empty slot.
pub open spec fn slot_ok(kind: AttachmentType, slot: Option<Box<Texture>>) -> bool {
    slot matches Some(t) ==> t.wf() && accepts(kind, t.format)
}

/// `px` with its first `4 * count` bytes set to `color`, pixel after pixel.
pub open spec fn fill_pixels(px: Seq<u8>, count: int, color: [u8; 4]) -> Seq<u8> {
    Seq::new(px.len(), |i: int| if i < 4 * count { color@[i % 4] } else { px[i] })
}

/// `px` with its first `count` bytes set to `value`.
pub open spec fn fill_bytes(px: Seq<u8>, count: int, value: u8) -> Seq<u8> {
    Seq::new(px.len(), |i: int| if i < count { value } else { px[i] })
}

/// `after` is `before` with its pixels replaced by `px`: format and
/// dimensions stay.
pub open spec fn repainted(before: Box<Texture>, after: Box<Texture>, px: Seq<u8>) -> bool {
    &&& after.format == before.format
    &&& after.width == before.width
    &&& after.height == before.height
    &&& after.pixels@ == px
}

/// Sets the first `4 * count` bytes of `px` to `color`, pixel after pixel.
fn fill_pixels_exec(px: &mut Vec<u8>, count: usize, color: [u8; 4])
    requires
        4 * count <= old(px).len(),
    ensures
        final(px)@ == fill_pixels(old(px)@, count as int, color),
{
    let ghost before = px@;
    let n: usize = 4 * count;
    let mut i: usize = 0;
    while i < n
        invariant
            n == 4 * count,
            n <= px.len(),
            i <= n,
            px.len() == before.len(),
            forall|k: int| 0 <= k < i ==> px[k] == color@[k % 4],
            forall|k: int| i <= k < px.len() ==> px[k] == before[k],
        decreases n - i,
    {
        px.set(i, color[i % 4]);
        i += 1;
    }
    assert(px@ =~= fill_pixels(before, count as int, color));
}

/// Sets the first `count` bytes of `px` to `value`.
fn fill_bytes_exec(px: &mut Vec<u8>, count: usize, value: u8)
    requires
        count <= old(px).len(),
    ensures
        final(px)@ == fill_bytes(old(px)@, count as int, value),
{
    let ghost before = px@;
    let mut i: usize = 0;
    while i < count
        invariant
            count <= px.len(),
            i <= count,
            px.len() == before.len(),
            forall|k: int| 0 <= k < i ==> px[k] == value,
            forall|k: int| i <= k < px.len() ==> px[k] == before[k],
        decreases count - i,
    {
        px.set(i, value);
        i += 1;
    }
    assert(px@ =~= fill_bytes(before, count as int, value));
}

/// A set of render-target attachments. Its width and height are always the
/// extent of what is attached.
#[derive(Debug)]
pub struct FrameBuffer {
    width: u32,
    height: u32,
    color_buffer: Option<Box<Texture>>,
    depth_buffer: Option<Box<Texture>>,
}

impl FrameBuffer {
    #[verifier::type_invariant]
    spec fn inv(&self) -> bool {
        &&& slot_ok(AttachmentType::Color, self.color_buffer)
        &&& slot_ok(AttachmentType::Depth, self.depth_buffer)
        &&& (self.width, self.height) == extent(self.color_buffer, self.depth_buffer)
    }

    /// The frame buffer's width.
    pub closed spec fn spec_width(&self) -> u32 {
        self.width
    }

    /// The frame buffer's height.
    pub closed spec fn spec_height(&self) -> u32 {
        self.height
    }

    /// What is attached in slot `kind`.
    pub closed spec fn spec_attachment(&self, kind: AttachmentType) -> Option<Box<Texture>> {
        match kind {
            AttachmentType::Color => self.color_buffer,
            AttachmentType::Depth => self.depth_buffer,
        }
    }

    /// A frame buffer with nothing attached and extent `(0, 0)`.
    pub fn new() -> (r: Self)
        ensures
            r.spec_width() == 0,
            r.spec_height() == 0,
            r.spec_attachment(AttachmentType::Color) is None,
            r.spec_attachment(AttachmentType::Depth) is None,
    {
        FrameBuffer { width: 0, height: 0, color_buffer: None, depth_buffer: None }
    }

    /// Lowers the frame buffer's extent to at most `width` x `height`.
    fn set_min_size(size: (u32, u32), width: u32, height: u32) -> (r: (u32, u32))
        ensures
            r == (min_u32(size.0, width), min_u32(size.1, height)),
    {
        (u32_min(size.0, width), u32_min(size.1, height))
    }

    /// Puts `texture` into slot `attachment`, or empties the slot when
    /// `texture` is `None`; the texture that was there is dropped. A texture
    /// whose format the slot does not take is refused and nothing changes.
    /// Afterwards the extent is that of what is attached.
    pub fn attach_texture(&mut self, attachment: AttachmentType, texture: Option<Box<Texture>>)
        requires
            texture matches Some(t) ==> t.wf(),
        ensures
            ({
                let taken = match texture {
                    Some(t) => accepts(attachment, t.format),
                    None => true,
                };
                let other = match attachment {
                    AttachmentType::Color => AttachmentType::Depth,
                    AttachmentType::Depth => AttachmentType::Color,
                };
                &&& taken ==> final(self).spec_attachment(attachment) == texture
                &&& taken ==> final(self).spec_attachment(other) == old(self).spec_attachment(other)
                &&& !taken ==> *final(self) == *old(self)
            }),
            (final(self).spec_width(), final(self).spec_height()) == extent(
                final(self).spec_attachment(AttachmentType::Color),
                final(self).spec_attachment(AttachmentType::Depth),
            ),
    {
        proof {
            use_type_invariant(&*self);
        }
        let taken = match &texture {
            Some(t) => match attachment {
                AttachmentType::Color => t.format == TextureFormat::RGBA8 || t.format
                    == TextureFormat::SRGB8_A8,
                AttachmentType::Depth => t.format == TextureFormat::DEPTH_FLOAT,
            },
            None => true,
        };
        if !taken {
            return;
        }
        let mut current = FrameBuffer::new();
        std::mem::swap(self, &mut current);
        proof {
            use_type_invariant(&current);
        }
        let FrameBuffer { width: _, height: _, color_buffer, depth_buffer } = current;
        let (color_buffer, depth_buffer) = match attachment {
            AttachmentType::Color => (texture, depth_buffer),
            AttachmentType::Depth => (color_buffer, texture),
        };
        let mut size: (u32, u32) = (0, 0);
        if color_buffer.is_some() || depth_buffer.is_some() {
            size = (u32::MAX, u32::MAX);
            if let Some(c) = &color_buffer {
                size = Self::set_min_size(size, c.width, c.height);
            }
            if let Some(d) = &depth_buffer {
                size = Self::set_min_size(size, d.width, d.height);
            }
        }
        *self = FrameBuffer { width: size.0, height: size.1, color_buffer, depth_buffer };
    }

    /// Clears the first `width * height` pixels of the attachments: each
    /// color pixel takes the four bytes of `clear_color`, and each of the
    /// first `width * height` bytes of the depth attachment takes
    /// `DEPTH_CLEAR_BYTE`. Nothing else changes.
    pub fn clear(&mut self, clear_color: [u8; 4])
        ensures
            final(self).spec_width() == old(self).spec_width(),
            final(self).spec_height() == old(self).spec_height(),
            ({
                let count = old(self).spec_width() * old(self).spec_height();
                let c0 = old(self).spec_attachment(AttachmentType::Color);
                let c1 = final(self).spec_attachment(AttachmentType::Color);
                let d0 = old(self).spec_attachment(AttachmentType::Depth);
                let d1 = final(self).spec_attachment(AttachmentType::Depth);
                &&& c0 is None <==> c1 is None
                &&& d0 is None <==> d1 is None
                &&& c0 matches Some(a) ==> repainted(
                    a,
                    c1.unwrap(),
                    fill_pixels(a.pixels@, count, clear_color),
                )
                &&& d0 matches Some(a) ==> repainted(
                    a,
                    d1.unwrap(),
                    fill_bytes(a.pixels@, count, DEPTH_CLEAR_BYTE),
                )
            }),
    {
        proof {
            use_type_invariant(&*self);
        }
        let mut current = FrameBuffer::new();
        std::mem::swap(self, &mut current);
        proof {
            use_type_invariant(&current);
        }
        let FrameBuffer { width, height, color_buffer, depth_buffer } = current;
        proof {
            if let Some(c) = &color_buffer {
                assert(bytes_per_pixel(c.format) == 4);
                assert(width * height * 4 <= c.width * c.height * 4) by (nonlinear_arith)
                    requires
                        width <= c.width,
                        height <= c.height,
                ;
            }
            if let Some(d) = &depth_buffer {
                assert(bytes_per_pixel(d.format) == 4);
                assert(width * height * 4 <= d.width * d.height * 4) by (nonlinear_arith)
                    requires
                        width <= d.width,
                        height <= d.height,
                ;
            }
        }
        let count: usize = (width as usize) * (height as usize);
        let color_buffer = match color_buffer {
            Some(c) => {
                let mut t = *c;
                fill_pixels_exec(&mut t.pixels, count, clear_color);
                Some(Box::new(t))
            },
            None => None,
        };
        let depth_buffer = match depth_buffer {
            Some(d) => {
                let mut t = *d;
                proof {
                    assert(width * height <= width * height * 4) by (nonlinear_arith);
                }
                fill_bytes_exec(&mut t.pixels, count, DEPTH_CLEAR_BYTE);
                Some(Box::new(t))
            },
            None => None,
        };
        *self = FrameBuffer { width, height, color_buffer, depth_buffer };
    }

    /// The frame buffer's width: the smallest width among the attached
    /// textures, or 0 when none is attached.
    pub fn get_width(&self) -> (r: u32)
        ensures
            r == self.spec_width(),
            r == extent(
                self.spec_attachment(AttachmentType::Color),
                self.spec_attachment(AttachmentType::Depth),
            ).0,
    {
        proof {
            use_type_invariant(self);
        }
        self.width
    }

    /// The frame buffer's height: the smallest height among the attached
    /// textures, or 0 when none is attached.
    pub fn get_hegiht(&self) -> (r: u32)
        ensures
            r == self.spec_height(),
            r == extent(
                self.spec_attachment(AttachmentType::Color),
                self.spec_attachment(AttachmentType::Depth),
            ).1,
    {
        proof {
            use_type_invariant(self);
        }
        self.height
    }

    /// What is attached in slot `attachment`: a well-formed texture of a
    /// format the slot takes, or nothing.
    pub fn get_attachment(&self, attachment: AttachmentType) -> (r: &Option<Box<Texture>>)
        ensures
            *r == self.spec_attachment(attachment),
            slot_ok(attachment, *r),
    {
        proof {
            use_type_invariant(self);
        }
        match attachment {
            AttachmentType::Color => &self.color_buffer,
            AttachmentType::Depth => &self.depth_buffer,
        }
    }
}

} // verus!
