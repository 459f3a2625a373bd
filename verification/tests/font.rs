use std::collections::HashMap;
use pixel2d::color::Color;
use pixel2d::command::{Command, Ortho, TexRect, UniformValue};
use pixel2d::draw::{DrawParameters, FontStyle};
use pixel2d::font_render::FontRender;
use pixel2d::position::Position;
use pixel2d::render::{Render, RenderLocations};
use pixel2d::shader_data::SharedLocations;
use pixel2d::shaders::ShaderProgram;
use pixel2d::ui::col::Col;
use pixel2d::ui::text::Text;
use pixel2d::font::{Font, GlyphSize};
use pixel2d::glyphs::{Char, Glyph, Glyphs};
use pixel2d::pages::Pages;
use pixel2d::rect::Rect;
use pixel2d::texture::{Format as TextureFormat, Texture};
use pixel2d::vec2d::Vec2D;

fn atlas_page(id: u32) -> Texture {
    Texture::from_size_and_format(id, Vec2D::new(128, 128), TextureFormat::RGBA).unwrap()
}

fn font() -> Font {
    let mut widths: HashMap<u32, GlyphSize> = HashMap::new();
    widths.insert('i' as u32, GlyphSize::new(0, 6));

    Font::new(Vec2D::new(16, 16), 0, 1, Pages::new(atlas_page(1)), widths)
}

#[test]
fn font_new_derives_cell_size() {
    let f = font();

    assert_eq!(f.glyphs_on_page, 256);
    assert_eq!(f.glyph_size_default(), Vec2D::new(8, 8));
}

#[test]
fn glyph_layout_places_and_measures() {
    let f = font();
    let text: Vec<char> = vec!['a', 'b', '\n', 'i'];

    let glyphs = f.glyphs(&text, Vec::new(), false);

    assert_eq!(
        glyphs.chars,
        vec![
            Char::Print(Glyph { size: GlyphSize { left_offset: 0, width: 8 }, delta_x: 0, code: 97 }),
            Char::Print(Glyph { size: GlyphSize { left_offset: 0, width: 8 }, delta_x: 8, code: 98 }),
            Char::NewLine,
            Char::Print(Glyph { size: GlyphSize { left_offset: 0, width: 6 }, delta_x: 0, code: 105 }),
        ]
    );
    // Two lines: the widest is 16 wide; two cells plus one line of spacing.
    assert_eq!(glyphs.size(), Vec2D::new(16, 17));
}

#[test]
fn monospaced_layout_ignores_glyph_widths() {
    let f = font();
    let text: Vec<char> = vec!['i', 'i'];

    let glyphs = f.glyphs(&text, Vec::new(), true);

    assert_eq!(
        glyphs.chars,
        vec![
            Char::Print(Glyph { size: GlyphSize { left_offset: 0, width: 8 }, delta_x: 0, code: 105 }),
            Char::Print(Glyph { size: GlyphSize { left_offset: 0, width: 8 }, delta_x: 8, code: 105 }),
        ]
    );
    assert_eq!(glyphs.size(), Vec2D::new(16, 8));
}

#[test]
fn layout_appends_to_the_given_buffer() {
    let f = font();
    let text: Vec<char> = vec!['a'];
    let buf = vec![Char::NewLine];

    let glyphs = f.glyphs(&text, buf, true);

    assert_eq!(glyphs.chars.len(), 2);
    assert_eq!(glyphs.chars[0], Char::NewLine);

    let inner = glyphs.into_inner();
    assert_eq!(inner.len(), 2);
}

#[test]
fn st_map_selects_the_atlas_cell() {
    let f = font();
    let glyph = Glyph::new(GlyphSize::new(2, 4), 0, 65);

    let st = f.st_map(glyph);

    // 'A' is cell 65: column 1, row 4, in 8-texel cells of a 128-texel page.
    assert_eq!(
        st,
        TexRect {
            rect: Rect { x: 10, y: 32, width: 4, height: 8 },
            tex_width: 128,
            tex_height: 128,
        }
    );
}

#[test]
fn placing_shifts_by_the_line_offset() {
    let f = font();
    let glyph = Glyph::new(GlyphSize::new(0, 8), 24, 66);

    let rect = f.placing(glyph, Vec2D::new(5, 7));
    assert_eq!(rect, Rect { x: 29, y: 7, width: 8, height: 8 });

    let (r0, r1) = f.render_rect(glyph, Vec2D::new(5, 7));
    assert_eq!(r0, rect);
    assert_eq!(r1, f.st_map(glyph));
}

#[test]
fn page_lookup_follows_the_pages_table() {
    let mut pages = Pages::new(atlas_page(1));
    pages.add(atlas_page(9), 4);

    let f = Font::new(Vec2D::new(16, 16), 0, 1, pages, HashMap::new());

    // Codes 0..255 are on the first page.
    assert_eq!(f.page(65).map(|t| t.id()), Some(1));
    // Page 4 was added explicitly.
    assert_eq!(f.page(4 * 256).map(|t| t.id()), Some(9));
    // Pages 1..3 were only reserved.
    assert_eq!(f.page(256).map(|t| t.id()), None);
    // Beyond the table nothing is found.
    assert_eq!(f.page(5 * 256).map(|t| t.id()), None);
}

#[test]
fn new_line_moves_down() {
    let f = font();
    let mut pos = Vec2D::new(3, 100);

    f.new_line(&mut pos);

    assert_eq!(pos, Vec2D::new(3, 91));
}

#[test]
fn glyphs_accessors() {
    let g = Glyphs::new(vec![Char::NewLine], Vec2D::new(1, 2));

    assert_eq!(g.chars().len(), 1);
    assert_eq!(g.size(), Vec2D::new(1, 2));
}

fn renderer_with_font() -> Render {
    let mut render = Render::new(
        Vec2D::new(64, 48),
        2,
        ShaderProgram::new(10),
        ShaderProgram::new(11),
        ShaderProgram::new(12),
        RenderLocations {
            draw_texture: 1,
            frame: 2,
            projection: SharedLocations { font: 3, base: 4 },
            texture0: SharedLocations { font: 5, base: 6 },
            col: SharedLocations { font: 7, base: 8 },
        },
    )
    .unwrap();

    let page = Texture::from_size_and_format(50, Vec2D::new(128, 128), TextureFormat::R).unwrap();
    let plain = Font::new(Vec2D::new(16, 16), 0, 1, Pages::new(page), HashMap::new());

    render.set_font_render(FontRender::new(plain));
    render.take_commands();
    render
}

#[test]
fn print_draws_each_glyph_from_its_atlas_cell() {
    let mut render = renderer_with_font();

    render.begin_draw_frame();
    assert_eq!(render.take_commands(), vec![]);

    let text: Vec<char> = vec!['a', 'b'];
    render.print(
        &text,
        &DrawParameters {
            color: Color::green(),
            position: Position::LeftBot(0, 0),
            frame: Rect { x: 0, y: 0, width: 32, height: 24 },
            font_style: FontStyle::new(),
        },
    );

    let st_a = TexRect { rect: Rect { x: 8, y: 48, width: 8, height: 8 }, tex_width: 128, tex_height: 128 };
    let st_b = TexRect { rect: Rect { x: 16, y: 48, width: 8, height: 8 }, tex_width: 128, tex_height: 128 };

    assert_eq!(
        render.take_commands(),
        vec![
            Command::BindTexture { unit: 0, id: 50 },
            Command::BindProgram { id: 11 },
            Command::Upload { location: 3, value: UniformValue::Ortho(Ortho { width: 32, height: 24 }) },
            Command::Upload { location: 5, value: UniformValue::Int(0) },
            Command::Upload { location: 7, value: UniformValue::Rgba(Color(0, 255, 0, 255)) },
            Command::DrawQuad {
                rect: Rect { x: 0, y: 0, width: 8, height: 8 },
                st: Some(st_a),
                flip_v: true,
            },
            Command::BindTexture { unit: 0, id: 50 },
            Command::DrawQuad {
                rect: Rect { x: 8, y: 0, width: 8, height: 8 },
                st: Some(st_b),
                flip_v: true,
            },
        ]
    );
}

#[test]
fn print_shadow_pass_precedes_text_pass() {
    let mut render = renderer_with_font();

    let text: Vec<char> = vec!['a'];
    render.print(
        &text,
        &DrawParameters {
            color: Color::green(),
            position: Position::LeftBot(5, 5),
            frame: Rect { x: 0, y: 0, width: 32, height: 24 },
            font_style: FontStyle::new().shadow(Vec2D::new(0, -1), Color::blue()),
        },
    );

    let st = TexRect { rect: Rect { x: 8, y: 48, width: 8, height: 8 }, tex_width: 128, tex_height: 128 };

    assert_eq!(
        render.take_commands(),
        vec![
            Command::BindTexture { unit: 0, id: 50 },
            Command::BindProgram { id: 11 },
            Command::Upload { location: 3, value: UniformValue::Ortho(Ortho { width: 32, height: 24 }) },
            Command::Upload { location: 5, value: UniformValue::Int(0) },
            Command::Upload { location: 7, value: UniformValue::Rgba(Color(0, 0, 255, 255)) },
            Command::DrawQuad {
                rect: Rect { x: 5, y: 4, width: 8, height: 8 },
                st: Some(st),
                flip_v: true,
            },
            Command::BindTexture { unit: 0, id: 50 },
            Command::Upload { location: 7, value: UniformValue::Rgba(Color(0, 255, 0, 255)) },
            Command::DrawQuad {
                rect: Rect { x: 5, y: 5, width: 8, height: 8 },
                st: Some(st),
                flip_v: true,
            },
        ]
    );
}

#[test]
fn print_skips_glyphs_on_absent_pages() {
    let mut render = renderer_with_font();

    // Code 300 lives on atlas page 1, which was never added.
    let text: Vec<char> = vec![char::from_u32(300).unwrap()];
    render.print(
        &text,
        &DrawParameters {
            color: Color::white(),
            position: Position::LeftBot(0, 0),
            frame: Rect { x: 0, y: 0, width: 32, height: 24 },
            font_style: FontStyle::new(),
        },
    );

    let cmds = render.take_commands();
    assert!(!cmds.iter().any(|c| matches!(c, Command::DrawQuad { .. })));
}

#[test]
fn can_print_guards_the_precondition() {
    let mut render = renderer_with_font();

    let text: Vec<char> = vec!['a', 'b'];
    let params = DrawParameters {
        color: Color::white(),
        position: Position::LeftBot(0, 0),
        frame: Rect { x: 0, y: 0, width: 32, height: 24 },
        font_style: FontStyle::new(),
    };

    assert!(render.can_print(&text, &params));

    // A shadow that pushes a glyph out of the coordinate range is refused:
    // the second glyph sits 8 columns into the line, past the far edge.
    let bad = DrawParameters {
        font_style: FontStyle::new().shadow(Vec2D::new(i32::MAX, 0), Color::black()),
        ..params
    };
    assert!(!render.can_print(&text, &bad));

    // Without an installed font nothing can be printed.
    render.font_render = None;
    assert!(!render.can_print(&text, &params));
}

#[test]
fn text_drawable_prints_itself() {
    let mut render = renderer_with_font();
    render.take_commands();

    let label = Col::green(Text::new(vec!['a']));
    render.draw(&label);

    let cmds = render.take_commands();
    assert!(cmds.contains(&Command::BindTexture { unit: 0, id: 50 }));
    assert!(cmds.iter().any(|c| matches!(c, Command::DrawQuad { .. })));
    assert!(cmds.contains(&Command::Upload { location: 7, value: UniformValue::Rgba(Color(0, 255, 0, 255)) }));
}
