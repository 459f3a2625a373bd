use pixel2d::color::Color;
use pixel2d::ui::col::Col;
use pixel2d::ui::pos::Pos;
use pixel2d::command::{Command, Ortho, UniformValue};
use pixel2d::rect::Rect;
use pixel2d::render::{Render, RenderError, RenderLocations};
use pixel2d::renderbuffer::{Attachment, Format as RenderbufferFormat};
use pixel2d::shader_data::SharedLocations;
use pixel2d::shaders::ShaderProgram;
use pixel2d::texture::Format as TextureFormat;
use pixel2d::uniform::UniformError;
use pixel2d::vec2d::Vec2D;

fn locations() -> RenderLocations {
    RenderLocations {
        draw_texture: 1,
        frame: 2,
        projection: SharedLocations { font: 3, base: 4 },
        texture0: SharedLocations { font: 5, base: 6 },
        col: SharedLocations { font: 7, base: 8 },
    }
}

fn renderer(window: Vec2D, pixel_size: i32) -> Render {
    Render::new(
        window,
        pixel_size,
        ShaderProgram::new(10),
        ShaderProgram::new(11),
        ShaderProgram::new(12),
        locations(),
    )
    .unwrap()
}

#[test]
fn setup_trace() {
    let mut render = renderer(Vec2D::new(64, 48), 2);

    assert_eq!(render.size(), Vec2D::new(32, 24));

    let cmds = render.take_commands();
    assert_eq!(
        cmds,
        vec![
            Command::BindProgram { id: 10 },
            Command::BindProgram { id: 12 },
            Command::BindProgram { id: 11 },
            Command::BindProgram { id: 10 },
            Command::BindProgram { id: 11 },
            Command::BindProgram { id: 10 },
            Command::BindProgram { id: 11 },
            Command::BindProgram { id: 10 },
            Command::CreateFramebuffer { id: 1 },
            Command::BindFramebuffer { id: 1 },
            Command::AddTexture {
                framebuffer: 1,
                id: 2,
                format: TextureFormat::RGB,
                width: 32,
                height: 24,
                slot: 0,
            },
            Command::AddRenderbuffer {
                framebuffer: 1,
                id: 3,
                format: RenderbufferFormat::Depth24,
                width: 32,
                height: 24,
                attachment: Attachment::Depth,
            },
            Command::SetViewport { width: 32, height: 24 },
        ]
    );

    assert_eq!(render.take_commands(), vec![]);
}

#[test]
fn new_rejects_bad_pixel_size_and_locations() {
    let r = Render::new(
        Vec2D::new(64, 48),
        0,
        ShaderProgram::new(10),
        ShaderProgram::new(11),
        ShaderProgram::new(12),
        locations(),
    );
    assert!(matches!(r, Err(RenderError::WrongPixelSize)));

    let mut bad = locations();
    bad.col = SharedLocations { font: 7, base: -1 };

    let r = Render::new(
        Vec2D::new(64, 48),
        2,
        ShaderProgram::new(10),
        ShaderProgram::new(11),
        ShaderProgram::new(12),
        bad,
    );
    assert!(matches!(r, Err(RenderError::UniformError(UniformError::IncorrectLocation))));
}

#[test]
fn one_frame_one_offscreen_draw_one_composite_draw() {
    let mut render = renderer(Vec2D::new(64, 48), 2);
    render.take_commands();

    render.begin_draw_frame();
    render.set_color(Color::red());
    render.draw_rect(Rect { x: 31, y: 31, width: 2, height: 2 });
    render.end_draw_frame();

    let cmds = render.take_commands();
    assert_eq!(
        cmds,
        vec![
            // The base role was already active and the off-screen target
            // already bound, so the frame starts with the stale uniforms.
            Command::Upload { location: 4, value: UniformValue::Ortho(Ortho { width: 32, height: 24 }) },
            Command::Upload { location: 6, value: UniformValue::Int(0) },
            Command::Upload { location: 8, value: UniformValue::Rgba(Color(255, 0, 0, 255)) },
            Command::Upload { location: 1, value: UniformValue::Bool(false) },
            Command::DrawQuad {
                rect: Rect { x: 31, y: 31, width: 2, height: 2 },
                st: None,
                flip_v: true,
            },
            // The composite: sample the off-screen texture on the default
            // target, restored viewport, one full-screen quad.
            Command::BindTexture { unit: 0, id: 2 },
            Command::BindFramebuffer { id: 0 },
            Command::SetViewport { width: 64, height: 48 },
            Command::Clear { color: Color(0, 0, 0, 255) },
            Command::BindProgram { id: 12 },
            Command::Upload { location: 2, value: UniformValue::Int(0) },
            Command::DrawQuad {
                rect: Rect { x: -1, y: -1, width: 2, height: 2 },
                st: None,
                flip_v: false,
            },
        ]
    );

    let draws = cmds.iter().filter(|c| matches!(c, Command::DrawQuad { .. })).count();
    assert_eq!(draws, 2);
}

#[test]
fn second_frame_skips_synchronized_state() {
    let mut render = renderer(Vec2D::new(64, 48), 2);
    render.take_commands();

    render.begin_draw_frame();
    render.draw_rect(Rect { x: 0, y: 0, width: 4, height: 4 });
    render.end_draw_frame();
    render.take_commands();

    render.begin_draw_frame();
    render.draw_rect(Rect { x: 1, y: 1, width: 4, height: 4 });
    render.end_draw_frame();

    let cmds = render.take_commands();
    assert_eq!(
        cmds,
        vec![
            // Back to the off-screen target and its viewport.
            Command::BindFramebuffer { id: 1 },
            Command::SetViewport { width: 32, height: 24 },
            // Base role again; every uniform is still synchronized.
            Command::BindProgram { id: 10 },
            Command::DrawQuad {
                rect: Rect { x: 1, y: 1, width: 4, height: 4 },
                st: None,
                flip_v: true,
            },
            Command::BindTexture { unit: 0, id: 2 },
            Command::BindFramebuffer { id: 0 },
            Command::SetViewport { width: 64, height: 48 },
            Command::Clear { color: Color(0, 0, 0, 255) },
            Command::BindProgram { id: 12 },
            Command::DrawQuad {
                rect: Rect { x: -1, y: -1, width: 2, height: 2 },
                st: None,
                flip_v: false,
            },
        ]
    );
}

#[test]
fn window_resize_updates_logical_size_and_projection() {
    let mut render = renderer(Vec2D::new(600, 400), 2);
    render.take_commands();

    assert_eq!(render.size(), Vec2D::new(300, 200));

    render.resize(Vec2D::new(300, 200));

    assert_eq!(render.size(), Vec2D::new(150, 100));
    assert_eq!(render.shader_data.projection.get(), Ortho { width: 150, height: 100 });

    // The off-screen target followed, formats kept.
    let fb = render.framebuffers.active();
    assert_eq!(fb.size(), Vec2D::new(150, 100));
    assert_eq!(fb.textures()[0].format(), TextureFormat::RGB);
    assert_eq!(fb.renderbuffer.unwrap().format(), RenderbufferFormat::Depth24);

    // The next draw pushes the new orthographic bounds.
    render.take_commands();
    render.begin_draw_frame();
    render.draw_rect(Rect { x: 0, y: 0, width: 1, height: 1 });

    let cmds = render.take_commands();
    assert!(cmds.contains(
        &Command::Upload { location: 4, value: UniformValue::Ortho(Ortho { width: 150, height: 100 }) },
    ));
}

#[test]
fn set_texture_binds_and_flags() {
    let mut render = renderer(Vec2D::new(64, 48), 2);
    render.take_commands();

    let texture =
        pixel2d::texture::Texture::from_size_and_format(77, Vec2D::new(16, 16), TextureFormat::RGBA)
            .unwrap();

    render.set_texture(&texture);
    assert_eq!(render.take_commands(), vec![Command::BindTexture { unit: 0, id: 77 }]);

    render.begin_draw_frame();
    render.draw_rect(Rect { x: 0, y: 0, width: 16, height: 16 });

    let cmds = render.take_commands();
    assert!(cmds.contains(&Command::Upload { location: 1, value: UniformValue::Bool(true) }));

    render.unset_texture();
    render.draw_rect(Rect { x: 0, y: 0, width: 16, height: 16 });

    let cmds = render.take_commands();
    assert!(cmds.contains(&Command::Upload { location: 1, value: UniformValue::Bool(false) }));
}

#[test]
fn clear_emits_clear() {
    let mut render = renderer(Vec2D::new(64, 48), 2);
    render.take_commands();

    render.clear(Color::rgb(1, 2, 3));
    assert_eq!(render.take_commands(), vec![Command::Clear { color: Color(1, 2, 3, 255) }]);
}

#[test]
fn draw_trait_draws_a_colored_rect() {

    let mut render = renderer(Vec2D::new(64, 48), 2);
    render.take_commands();
    render.begin_draw_frame();

    let rect = Col::red(Pos::new(pixel2d::position::Position::LeftBot(0, 0), Rect {
        x: 31,
        y: 31,
        width: 12,
        height: 12,
    }));
    render.draw(&rect);

    let cmds = render.take_commands();
    assert!(cmds.contains(&Command::Upload { location: 8, value: UniformValue::Rgba(Color(255, 0, 0, 255)) }));
    assert!(cmds.contains(&Command::DrawQuad {
        rect: Rect { x: 31, y: 31, width: 12, height: 12 },
        st: None,
        flip_v: true,
    }));
}
