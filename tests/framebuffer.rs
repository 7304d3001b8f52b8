use raster_core::framebuffer::{AttachmentType, FrameBuffer, DEPTH_CLEAR_BYTE};
use raster_core::texture::{Texture, TextureFormat};

fn texture(format: TextureFormat, w: u32, h: u32) -> Option<Box<Texture>> {
    Some(Box::new(Texture::new(format, w, h).unwrap()))
}

#[test]
fn new_frame_buffer_is_empty() {
    let fb = FrameBuffer::new();
    assert_eq!(fb.get_width(), 0);
    assert_eq!(fb.get_hegiht(), 0);
    assert!(fb.get_attachment(AttachmentType::Color).is_none());
    assert!(fb.get_attachment(AttachmentType::Depth).is_none());
}

#[test]
fn attaching_depth_format_as_color_changes_nothing() {
    let mut fb = FrameBuffer::new();
    fb.attach_texture(AttachmentType::Color, texture(TextureFormat::RGBA8, 4, 3));
    fb.attach_texture(AttachmentType::Color, texture(TextureFormat::DEPTH_FLOAT, 1, 1));
    assert_eq!((fb.get_width(), fb.get_hegiht()), (4, 3));
    let c = fb.get_attachment(AttachmentType::Color).as_ref().unwrap();
    assert_eq!(c.format, TextureFormat::RGBA8);
    assert_eq!(c.get_shape(), (4, 3));
    assert!(fb.get_attachment(AttachmentType::Depth).is_none());
}

#[test]
fn attach_refuses_formats_the_slot_does_not_take() {
    let mut fb = FrameBuffer::new();
    fb.attach_texture(AttachmentType::Color, texture(TextureFormat::RGB8, 2, 2));
    fb.attach_texture(AttachmentType::Color, texture(TextureFormat::R8, 2, 2));
    fb.attach_texture(AttachmentType::Depth, texture(TextureFormat::RGBA8, 2, 2));
    assert!(fb.get_attachment(AttachmentType::Color).is_none());
    assert!(fb.get_attachment(AttachmentType::Depth).is_none());
    assert_eq!((fb.get_width(), fb.get_hegiht()), (0, 0));
    fb.attach_texture(AttachmentType::Color, texture(TextureFormat::SRGB8_A8, 2, 5));
    assert_eq!((fb.get_width(), fb.get_hegiht()), (2, 5));
}

#[test]
fn extent_is_the_smallest_attachment() {
    let mut fb = FrameBuffer::new();
    fb.attach_texture(AttachmentType::Color, texture(TextureFormat::RGBA8, 4, 2));
    fb.attach_texture(AttachmentType::Depth, texture(TextureFormat::DEPTH_FLOAT, 3, 5));
    assert_eq!((fb.get_width(), fb.get_hegiht()), (3, 2));
    fb.attach_texture(AttachmentType::Color, None);
    assert!(fb.get_attachment(AttachmentType::Color).is_none());
    assert_eq!((fb.get_width(), fb.get_hegiht()), (3, 5));
    fb.attach_texture(AttachmentType::Depth, None);
    assert_eq!((fb.get_width(), fb.get_hegiht()), (0, 0));
}

#[test]
fn clear_paints_red_over_two_by_two_color() {
    let mut fb = FrameBuffer::new();
    fb.attach_texture(AttachmentType::Color, texture(TextureFormat::RGBA8, 2, 2));
    fb.clear([255, 0, 0, 255]);
    let c = fb.get_attachment(AttachmentType::Color).as_ref().unwrap();
    assert_eq!(c.pixels.len(), 16);
    for px in c.pixels.chunks(4) {
        assert_eq!(px, &[255, 0, 0, 255]);
    }
}

#[test]
fn clear_covers_only_the_shared_extent() {
    let mut fb = FrameBuffer::new();
    fb.attach_texture(AttachmentType::Color, texture(TextureFormat::RGBA8, 2, 2));
    fb.attach_texture(AttachmentType::Depth, texture(TextureFormat::DEPTH_FLOAT, 1, 2));
    fb.clear([1, 2, 3, 4]);
    let c = fb.get_attachment(AttachmentType::Color).as_ref().unwrap();
    assert_eq!(&c.pixels[..8], &[1, 2, 3, 4, 1, 2, 3, 4]);
    assert!(c.pixels[8..].iter().all(|&b| b == 255));
    let d = fb.get_attachment(AttachmentType::Depth).as_ref().unwrap();
    assert_eq!(&d.pixels[..2], &[DEPTH_CLEAR_BYTE, DEPTH_CLEAR_BYTE]);
    assert!(d.pixels[2..].iter().all(|&b| b == 255));
    assert_eq!((fb.get_width(), fb.get_hegiht()), (1, 2));
}

#[test]
fn clear_without_attachments_does_nothing() {
    let mut fb = FrameBuffer::new();
    fb.clear([9, 9, 9, 9]);
    assert_eq!((fb.get_width(), fb.get_hegiht()), (0, 0));
    assert!(fb.get_attachment(AttachmentType::Color).is_none());
}
