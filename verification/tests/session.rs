use ttf_render::commands::GpuCommand;
use ttf_render::commands::OrthoParams;
use ttf_render::font::Font;
use ttf_render::geometry::GlyphMetrics;
use ttf_render::geometry::Vec2;
use ttf_render::layout::RenderError;
use ttf_render::renderer::Renderer;

fn glyph_a() -> GlyphMetrics {
    GlyphMetrics {
        advance: Vec2 { x: 10_000_000, y: 0 },
        offset: Vec2 { x: 0, y: 0 },
        dimensions: Vec2 { x: 8_000_000, y: 12_000_000 },
        tex: Vec2 { x: 0, y: 0 },
    }
}

fn one_glyph_font() -> Font {
    let mut font = Font::new((256, 256), 2_000_000, 7, String::from("data/fonts/mono.ttf"));
    font.add_glyph(b'a', glyph_a());
    font
}

fn begun_renderer() -> Renderer {
    let mut r = Renderer::new(1, 2, 3, 4);
    let _ = r.begin(640, 480);
    r
}

#[test]
fn new_records_handles() {
    let r = Renderer::new(11, 22, 33, 44);
    assert_eq!(r.vao, 11);
    assert_eq!(r.vbo, 22);
    assert_eq!(r.shader, 33);
    assert_eq!(r.proj_loc, 44);
    assert!(!r.in_session);
}

#[test]
fn init_commands_sequence() {
    let r = Renderer::new(1, 2, 3, 4);
    let cmds = r.init_commands(9);
    assert_eq!(cmds.len(), 6);
    assert_eq!(cmds[0], GpuCommand::BindShader(3));
    assert_eq!(cmds[1], GpuCommand::SetSamplerUniform { location: 9, unit: 0 });
    assert_eq!(cmds[2], GpuCommand::BindVertexArray(1));
    assert_eq!(cmds[3], GpuCommand::BindArrayBuffer(2));
    assert_eq!(cmds[4], GpuCommand::UploadVertices(Vec::new()));
    assert_eq!(cmds[5], GpuCommand::EnableAttribSlot(0));
}

#[test]
fn begin_sets_state_and_projection() {
    let mut r = Renderer::new(1, 2, 3, 4);
    let cmds = r.begin(640, 480);
    assert!(r.in_session);
    assert_eq!(cmds.len(), 7);
    assert_eq!(cmds[0], GpuCommand::DisableDepthTest);
    assert_eq!(cmds[1], GpuCommand::SetTextureWrapClampS);
    assert_eq!(cmds[2], GpuCommand::SetTextureWrapClampT);
    assert_eq!(cmds[3], GpuCommand::EnableBlend);
    assert_eq!(cmds[4], GpuCommand::SetBlendStraightAlpha);
    assert_eq!(cmds[5], GpuCommand::BindShader(3));
    assert_eq!(
        cmds[6],
        GpuCommand::SetProjectionUniform {
            location: 4,
            params: OrthoParams {
                left: 0,
                right: 640_000_000,
                bottom: 480_000_000,
                top: 0,
                near: 1_000_000,
                far: 100_000_000,
            },
        },
    );
}

#[test]
fn end_restores_the_two_toggles() {
    let mut r = begun_renderer();
    let cmds = r.end();
    assert!(!r.in_session);
    assert_eq!(cmds, vec![GpuCommand::EnableDepthTest, GpuCommand::DisableBlend]);
}

#[test]
fn projection_reproduced_after_round_trip() {
    let font = one_glyph_font();
    let mut r = Renderer::new(1, 2, 3, 4);
    let first = r.begin(800, 600);
    let _ = r.render(&b"aa".to_vec(), Vec2 { x: 0, y: 0 }, &font).unwrap();
    let _ = r.end();
    let second = r.begin(800, 600);
    assert_eq!(first, second);
    assert_eq!(first[6], second[6]);
}

#[test]
fn empty_text_uploads_and_draws_nothing() {
    let font = one_glyph_font();
    let mut r = begun_renderer();
    let cmds = r.render(&Vec::new(), Vec2 { x: 0, y: 0 }, &font).unwrap();
    assert_eq!(cmds.len(), 11);
    for cmd in &cmds {
        assert!(!matches!(cmd, GpuCommand::UploadVertices(_)));
        assert!(!matches!(cmd, GpuCommand::DrawTriangles(_)));
    }
}

#[test]
fn missing_glyph_aborts_with_the_character() {
    let font = one_glyph_font();
    let mut r = begun_renderer();
    let res = r.render(&b"ax".to_vec(), Vec2 { x: 0, y: 0 }, &font);
    match res {
        Err(RenderError::MissingGlyph { character, font_path, glyph_count }) => {
            assert_eq!(character, b'x');
            assert_eq!(font_path, String::from("data/fonts/mono.ttf"));
            assert_eq!(glyph_count, 1);
        },
        Ok(_) => panic!("a character without a glyph entry must fail the render"),
    }
}

#[test]
fn missing_glyph_on_a_later_line() {
    let font = one_glyph_font();
    let mut r = begun_renderer();
    let res = r.render(&b"aa\nxa".to_vec(), Vec2 { x: 0, y: 0 }, &font);
    match res {
        Err(RenderError::MissingGlyph { character, .. }) => assert_eq!(character, b'x'),
        Ok(_) => panic!("a character without a glyph entry must fail the render"),
    }
}

#[test]
fn glyph_count_grows_with_entries() {
    let mut font = Font::new((128, 128), 1_000_000, 5, String::from("f.ttf"));
    assert_eq!(font.glyph_count(), 0);
    font.add_glyph(b'a', glyph_a());
    font.add_glyph(b'b', glyph_a());
    assert_eq!(font.glyph_count(), 2);
    font.add_glyph(b'b', glyph_a());
    assert_eq!(font.glyph_count(), 2);
}
