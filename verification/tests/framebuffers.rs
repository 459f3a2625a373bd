use pixel2d::command::Command;
use pixel2d::framebuffers::{FramebufferError, FramebufferSet, GL_FRAMEBUFFER_COMPLETE};
use pixel2d::renderbuffer::{Attachment, Format as RenderbufferFormat, RenderbufferError};
use pixel2d::texture::{Format as TextureFormat, Texture, TextureError};
use pixel2d::vec2d::Vec2D;

#[test]
fn building_the_offscreen_target() {
    let mut set = FramebufferSet::new();
    let mut q: Vec<Command> = Vec::new();

    set.add_framebuffer(Vec2D::new(100, 100), &mut q);
    set.add_texture(TextureFormat::RGB, &mut q).unwrap();
    set.add_renderbuffer(RenderbufferFormat::Depth24, &mut q).unwrap();

    assert_eq!(set.len(), 1);
    assert_eq!(set.bound(), Some(0));
    assert_eq!(
        q,
        vec![
            Command::CreateFramebuffer { id: 1 },
            Command::BindFramebuffer { id: 1 },
            Command::AddTexture {
                framebuffer: 1,
                id: 2,
                format: TextureFormat::RGB,
                width: 100,
                height: 100,
                slot: 0,
            },
            Command::AddRenderbuffer {
                framebuffer: 1,
                id: 3,
                format: RenderbufferFormat::Depth24,
                width: 100,
                height: 100,
                attachment: Attachment::Depth,
            },
        ]
    );
}

#[test]
fn resize_preserves_attachment_formats() {
    let mut set = FramebufferSet::new();
    let mut q: Vec<Command> = Vec::new();

    set.add_framebuffer(Vec2D::new(100, 100), &mut q);
    set.add_texture(TextureFormat::RGB, &mut q).unwrap();
    set.add_renderbuffer(RenderbufferFormat::Depth24, &mut q).unwrap();
    q.clear();

    set.resize(Vec2D::new(50, 50), &mut q).unwrap();

    let fb = set.active();
    assert_eq!(fb.size(), Vec2D::new(50, 50));
    assert_eq!(fb.textures().len(), 1);
    assert_eq!(fb.textures()[0].format(), TextureFormat::RGB);
    assert_eq!(fb.textures()[0].size(), Vec2D::new(50, 50));

    let rb = fb.renderbuffer.unwrap();
    assert_eq!(rb.format(), RenderbufferFormat::Depth24);

    // Old objects destroyed exactly once, replacements recreated in order.
    assert_eq!(
        q,
        vec![
            Command::DeleteTexture { id: 2 },
            Command::DeleteRenderbuffer { id: 3 },
            Command::DeleteFramebuffer { id: 1 },
            Command::CreateFramebuffer { id: 4 },
            Command::BindFramebuffer { id: 4 },
            Command::AddRenderbuffer {
                framebuffer: 4,
                id: 5,
                format: RenderbufferFormat::Depth24,
                width: 50,
                height: 50,
                attachment: Attachment::Depth,
            },
            Command::AddTexture {
                framebuffer: 4,
                id: 6,
                format: TextureFormat::RGB,
                width: 50,
                height: 50,
                slot: 0,
            },
        ]
    );
}

#[test]
fn attachments_reject_negative_size() {
    let mut set = FramebufferSet::new();
    let mut q: Vec<Command> = Vec::new();

    set.add_framebuffer(Vec2D::new(-1, 5), &mut q);

    let r = set.add_renderbuffer(RenderbufferFormat::Depth24, &mut q);
    assert_eq!(r, Err(FramebufferError::RenderbufferError(RenderbufferError::NegativeSize)));

    let r = set.add_texture(TextureFormat::RGBA, &mut q);
    assert_eq!(r, Err(FramebufferError::TextureError(TextureError::NegativeSize)));
}

#[test]
fn resize_to_negative_size_fails() {
    let mut set = FramebufferSet::new();
    let mut q: Vec<Command> = Vec::new();

    set.add_framebuffer(Vec2D::new(10, 10), &mut q);
    set.add_renderbuffer(RenderbufferFormat::Stencil8, &mut q).unwrap();

    let r = set.resize(Vec2D::new(10, -1), &mut q);
    assert_eq!(r, Err(FramebufferError::RenderbufferError(RenderbufferError::NegativeSize)));
}

#[test]
fn redundant_framebuffer_bind_eliminated() {
    let mut set = FramebufferSet::new();
    let mut q: Vec<Command> = Vec::new();

    set.add_framebuffer(Vec2D::new(8, 8), &mut q);
    set.add_framebuffer(Vec2D::new(8, 8), &mut q);
    q.clear();

    set.bind(1, &mut q);
    assert_eq!(q.len(), 0);

    set.bind(0, &mut q);
    assert_eq!(q, vec![Command::BindFramebuffer { id: 1 }]);

    set.bind(0, &mut q);
    assert_eq!(q.len(), 1);

    set.bind_default(&mut q);
    assert_eq!(q.len(), 2);
    assert_eq!(q[1], Command::BindFramebuffer { id: 0 });

    set.bind_default(&mut q);
    assert_eq!(q.len(), 2);
}

#[test]
fn framebuffer_set_delete_deletes_everything_once() {
    let mut set = FramebufferSet::new();
    let mut q: Vec<Command> = Vec::new();

    set.add_framebuffer(Vec2D::new(4, 4), &mut q);
    set.add_texture(TextureFormat::R, &mut q).unwrap();
    q.clear();

    set.delete(&mut q);

    assert_eq!(
        q,
        vec![
            Command::BindFramebuffer { id: 0 },
            Command::DeleteTexture { id: 2 },
            Command::DeleteFramebuffer { id: 1 },
        ]
    );
}

#[test]
fn texture_record_rejects_negative_size() {
    let r = Texture::from_size_and_format(5, Vec2D::new(3, -1), TextureFormat::RG);
    assert_eq!(r, Err(TextureError::NegativeSize));

    let t = Texture::from_size_and_format(5, Vec2D::new(3, 4), TextureFormat::RG).unwrap();
    assert_eq!(t.id(), 5);
    assert_eq!(t.width(), 3);
    assert_eq!(t.height(), 4);
    assert_eq!(t.size(), Vec2D::new(3, 4));
    assert_eq!(t.format(), TextureFormat::RG);
}

#[test]
fn texel_sizes_per_format() {
    assert_eq!(TextureFormat::R.color_size_in_bytes(), 1);
    assert_eq!(TextureFormat::RG.color_size_in_bytes(), 2);
    assert_eq!(TextureFormat::RGB.color_size_in_bytes(), 3);
    assert_eq!(TextureFormat::RGBA.color_size_in_bytes(), 4);
}

#[test]
fn raw_texel_data_must_match_the_size() {
    let raw: Vec<u8> = vec![0; 3 * 4 * 2];

    let t = Texture::from_raw(8, Some(&raw), Vec2D::new(3, 4), TextureFormat::RG).unwrap();
    assert_eq!(t.size(), Vec2D::new(3, 4));

    let short: Vec<u8> = vec![0; 5];
    let r = Texture::from_raw(8, Some(&short), Vec2D::new(3, 4), TextureFormat::RG);
    assert_eq!(r, Err(TextureError::WrongRawSize));

    let r = Texture::from_raw(8, Some(&raw), Vec2D::new(-3, 4), TextureFormat::RG);
    assert_eq!(r, Err(TextureError::NegativeSize));
}

#[test]
fn completeness_status_is_typed() {
    let mut set = FramebufferSet::new();
    let mut q: Vec<Command> = Vec::new();
    set.add_framebuffer(Vec2D::new(4, 4), &mut q);

    assert!(set.is_completed(GL_FRAMEBUFFER_COMPLETE));
    assert!(!set.is_completed(0x8CD6));
}

#[test]
fn gl_constants_per_format() {
    assert_eq!(TextureFormat::R.gl_format(), 0x1903);
    assert_eq!(TextureFormat::RG.gl_format(), 0x8227);
    assert_eq!(TextureFormat::RGB.gl_format(), 0x1907);
    assert_eq!(TextureFormat::RGBA.gl_format(), 0x1908);

    assert_eq!(RenderbufferFormat::Depth16.internal_format(), 0x81A5);
    assert_eq!(RenderbufferFormat::Depth24.internal_format(), 0x81A6);
    assert_eq!(RenderbufferFormat::DepthF32.internal_format(), 0x8CAC);
    assert_eq!(RenderbufferFormat::Depth24Stencil8.internal_format(), 0x88F0);
    assert_eq!(RenderbufferFormat::DepthF32Stencil8.internal_format(), 0x8CAD);
    assert_eq!(RenderbufferFormat::Stencil8.internal_format(), 0x8D48);

    assert_eq!(RenderbufferFormat::Depth24.base_format(), 0x1902);
    assert_eq!(RenderbufferFormat::Depth24Stencil8.base_format(), 0x84F9);
    assert_eq!(RenderbufferFormat::Stencil8.base_format(), 0x1802);

    assert_eq!(Attachment::Depth.gl_value(), 0x8D00);
    assert_eq!(Attachment::DepthStencil.gl_value(), 0x821A);
    assert_eq!(Attachment::Stencil.gl_value(), 0x8D20);
}
