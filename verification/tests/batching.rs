use ttf_render::commands::GpuCommand;
use ttf_render::font::Font;
use ttf_render::geometry::Color3;
use ttf_render::geometry::GlyphMetrics;
use ttf_render::geometry::Vec2;
use ttf_render::geometry::Vertex;
use ttf_render::geometry::build_glyph_quad;
use ttf_render::layout::layout_line;
use ttf_render::renderer::Renderer;

const GREEN: Color3 = Color3 { r: 0, g: 1_000_000, b: 0 };

fn metrics(advance: (i128, i128), dimensions: (i128, i128), tex: (i128, i128)) -> GlyphMetrics {
    GlyphMetrics {
        advance: Vec2 { x: advance.0, y: advance.1 },
        offset: Vec2 { x: 0, y: 0 },
        dimensions: Vec2 { x: dimensions.0, y: dimensions.1 },
        tex: Vec2 { x: tex.0, y: tex.1 },
    }
}

/// The worked single-glyph font: 'A' advances 10 units, draws an 8 by 12 box
/// from atlas origin, in a 256 by 256 atlas.
fn font_with_a(height: i128) -> Font {
    let mut font = Font::new((256, 256), height, 7, String::from("data/fonts/mono.ttf"));
    font.add_glyph(b'A', metrics((10_000_000, 0), (8_000_000, 12_000_000), (0, 0)));
    font
}

fn uploads_of(cmds: &[GpuCommand]) -> Vec<&Vec<Vertex>> {
    let mut out = Vec::new();
    for cmd in cmds {
        if let GpuCommand::UploadVertices(vs) = cmd {
            out.push(vs);
        }
    }
    out
}

fn draw_counts_of(cmds: &[GpuCommand]) -> Vec<usize> {
    let mut out = Vec::new();
    for cmd in cmds {
        if let GpuCommand::DrawTriangles(n) = cmd {
            out.push(*n);
        }
    }
    out
}

fn begun_renderer() -> Renderer {
    let mut r = Renderer::new(1, 2, 3, 4);
    let _ = r.begin(640, 480);
    r
}

#[test]
fn single_glyph_worked_example() {
    let font = font_with_a(0);
    let mut r = begun_renderer();
    let cmds = r.render(&b"A".to_vec(), Vec2 { x: 0, y: 0 }, &font).unwrap();
    assert_eq!(cmds.len(), 13);
    let uploads = uploads_of(&cmds);
    assert_eq!(uploads.len(), 1);
    let vs = uploads[0];
    assert_eq!(vs.len(), 6);
    // Top-left first, at (0, 12) with uv (0, 0): y is negated before upload.
    assert_eq!(vs[0], Vertex { x: 0, y: 12_000_000, u: 0, v: 0, r: 0, g: 1_000_000, b: 0 });
    // 8/256 and 12/256 of the atlas, in subunits.
    let du = 31_250;
    let dv = 46_875;
    assert_eq!(vs[1], Vertex { x: 0, y: 0, u: 0, v: dv, r: 0, g: 1_000_000, b: 0 });
    assert_eq!(vs[2], Vertex { x: 8_000_000, y: 0, u: du, v: dv, r: 0, g: 1_000_000, b: 0 });
    assert_eq!(vs[3], vs[0]);
    assert_eq!(vs[4], vs[2]);
    assert_eq!(vs[5], Vertex { x: 8_000_000, y: 12_000_000, u: du, v: 0, r: 0, g: 1_000_000, b: 0 });
    assert_eq!(draw_counts_of(&cmds), vec![6]);
}

#[test]
fn quad_builder_emits_two_triangles_sharing_an_edge() {
    let g = metrics((10_000_000, 0), (8_000_000, 12_000_000), (0, 0));
    let vs = build_glyph_quad(Vec2 { x: 1_000_000, y: 2_000_000 }, &g, GREEN, 256, 256);
    assert_eq!(vs.len(), 6);
    assert_eq!(vs[0], Vertex { x: 1_000_000, y: 14_000_000, u: 0, v: 0, r: 0, g: 1_000_000, b: 0 });
    assert_eq!(vs[1].y, 2_000_000);
    assert_eq!(vs[3], vs[0]);
    assert_eq!(vs[4], vs[2]);
    assert_eq!(vs[5], Vertex { x: 9_000_000, y: 14_000_000, u: 31_250, v: 0, r: 0, g: 1_000_000, b: 0 });
}

#[test]
fn six_vertices_per_visible_glyph_one_draw_per_line() {
    let font = font_with_a(2_000_000);
    let mut r = begun_renderer();
    let cmds = r.render(&b"AAA".to_vec(), Vec2 { x: 0, y: 0 }, &font).unwrap();
    let uploads = uploads_of(&cmds);
    assert_eq!(uploads.len(), 1);
    assert_eq!(uploads[0].len(), 18);
    assert_eq!(draw_counts_of(&cmds), vec![18]);
    // The cursor advanced 10 units per glyph.
    assert_eq!(uploads[0][0].x, 0);
    assert_eq!(uploads[0][6].x, 10_000_000);
    assert_eq!(uploads[0][12].x, 20_000_000);
}

#[test]
fn one_upload_and_draw_per_line_each_scoped_to_it() {
    let font = font_with_a(2_000_000);
    let mut r = begun_renderer();
    let cmds = r.render(&b"AA\nA".to_vec(), Vec2 { x: 0, y: 0 }, &font).unwrap();
    assert_eq!(cmds.len(), 7 + 4 + 4);
    let uploads = uploads_of(&cmds);
    assert_eq!(uploads.len(), 2);
    assert_eq!(uploads[0].len(), 12);
    assert_eq!(uploads[1].len(), 6);
    assert_eq!(draw_counts_of(&cmds), vec![12, 6]);
}

#[test]
fn vertical_offset_is_line_index_plus_one_times_height() {
    let font = font_with_a(2_000_000);
    let mut r = begun_renderer();
    let cmds = r.render(&b"A\nA".to_vec(), Vec2 { x: 0, y: 3_000_000 }, &font).unwrap();
    let uploads = uploads_of(&cmds);
    // Top of the glyph box sits at origin.y + (i + 1) * height + box height.
    assert_eq!(uploads[0][0].y, 3_000_000 + 2_000_000 + 12_000_000);
    assert_eq!(uploads[1][0].y, 3_000_000 + 4_000_000 + 12_000_000);
}

#[test]
fn empty_lines_still_upload_and_draw_zero_vertices() {
    let font = font_with_a(2_000_000);
    let mut r = begun_renderer();
    let cmds = r.render(&b"A\n\nA".to_vec(), Vec2 { x: 0, y: 0 }, &font).unwrap();
    let uploads = uploads_of(&cmds);
    assert_eq!(uploads.len(), 3);
    assert_eq!(uploads[1].len(), 0);
    assert_eq!(draw_counts_of(&cmds), vec![6, 0, 6]);
}

#[test]
fn trailing_newline_closes_the_last_line() {
    let font = font_with_a(2_000_000);
    let mut r = begun_renderer();
    let cmds = r.render(&b"A\n".to_vec(), Vec2 { x: 0, y: 0 }, &font).unwrap();
    assert_eq!(uploads_of(&cmds).len(), 1);
    assert_eq!(draw_counts_of(&cmds), vec![6]);
}

#[test]
fn near_zero_glyph_emits_nothing_but_advances() {
    let mut font = font_with_a(2_000_000);
    font.add_glyph(b' ', metrics((10_000_000, 3_000_000), (0, 0), (0, 0)));
    let line: Vec<u8> = vec![b' '];
    let (verts, cursor) = layout_line(&font, &line, 5_000_000, 7_000_000, GREEN).unwrap();
    assert_eq!(verts.len(), 0);
    assert_eq!(cursor, Vec2 { x: 15_000_000, y: 10_000_000 });
}

#[test]
fn advance_consumed_by_invisible_glyph_shifts_the_next() {
    let mut font = font_with_a(0);
    font.add_glyph(b' ', metrics((10_000_000, 0), (0, 0), (0, 0)));
    let mut r = begun_renderer();
    let cmds = r.render(&b" A".to_vec(), Vec2 { x: 0, y: 0 }, &font).unwrap();
    let uploads = uploads_of(&cmds);
    assert_eq!(uploads[0].len(), 6);
    assert_eq!(uploads[0][0], Vertex { x: 10_000_000, y: 12_000_000, u: 0, v: 0, r: 0, g: 1_000_000, b: 0 });
}

#[test]
fn threshold_glyph_at_a_tenth_of_a_unit_is_skipped() {
    let mut font = font_with_a(0);
    // Exactly at the threshold on one axis: still skipped.
    font.add_glyph(b'.', metrics((1_000_000, 0), (100_000, 12_000_000), (0, 0)));
    let line: Vec<u8> = vec![b'.'];
    let (verts, cursor) = layout_line(&font, &line, 0, 0, GREEN).unwrap();
    assert_eq!(verts.len(), 0);
    assert_eq!(cursor.x, 1_000_000);
}

#[test]
fn texture_coordinates_stay_in_the_glyph_window() {
    let mut font = font_with_a(0);
    font.add_glyph(b'T', metrics((9_000_000, 0), (8_000_000, 12_000_000), (100_000, 200_000)));
    let line: Vec<u8> = vec![b'T'];
    let (verts, _) = layout_line(&font, &line, 0, 0, GREEN).unwrap();
    assert_eq!(verts.len(), 6);
    for v in &verts {
        assert!(100_000 <= v.u && v.u <= 100_000 + 31_250);
        assert!(200_000 <= v.v && v.v <= 200_000 + 46_875);
    }
    assert_eq!(verts[0].u, 100_000);
    assert_eq!(verts[0].v, 200_000);
    assert_eq!(verts[2].u, 131_250);
    assert_eq!(verts[2].v, 246_875);
}

#[test]
fn attribute_slots_describe_the_packed_wire_format() {
    let font = font_with_a(0);
    let mut r = begun_renderer();
    let cmds = r.render(&b"A".to_vec(), Vec2 { x: 0, y: 0 }, &font).unwrap();
    assert_eq!(cmds[0], GpuCommand::BindTexture(7));
    assert_eq!(cmds[1], GpuCommand::BindVertexArray(1));
    assert_eq!(cmds[2], GpuCommand::BindArrayBuffer(2));
    assert_eq!(cmds[3], GpuCommand::EnableAttribSlot(0));
    assert_eq!(
        cmds[4],
        GpuCommand::SetAttribPointer { slot: 0, components: 4, stride_bytes: 28, offset_bytes: 0 },
    );
    assert_eq!(cmds[5], GpuCommand::EnableAttribSlot(1));
    assert_eq!(
        cmds[6],
        GpuCommand::SetAttribPointer { slot: 1, components: 3, stride_bytes: 28, offset_bytes: 16 },
    );
    assert_eq!(cmds[9], GpuCommand::DisableAttribSlot(0));
    assert_eq!(cmds[10], GpuCommand::DisableAttribSlot(1));
    assert_eq!(cmds[11], GpuCommand::BindArrayBuffer(0));
    assert_eq!(cmds[12], GpuCommand::BindVertexArray(0));
}

#[test]
fn layout_reports_the_first_uncovered_character() {
    let font = font_with_a(0);
    let line: Vec<u8> = vec![b'?', b'A'];
    match layout_line(&font, &line, 0, 0, GREEN) {
        Err(ttf_render::layout::RenderError::MissingGlyph { character, glyph_count, .. }) => {
            assert_eq!(character, b'?');
            assert_eq!(glyph_count, 1);
        },
        Ok(_) => panic!("layout must fail on a character without a glyph entry"),
    }
}

#[test]
fn glyph_offset_shifts_the_box() {
    let mut font = font_with_a(0);
    let mut g = metrics((10_000_000, 0), (8_000_000, 12_000_000), (0, 0));
    g.offset = Vec2 { x: 1_000_000, y: 2_000_000 };
    font.add_glyph(b'g', g);
    let line: Vec<u8> = vec![b'g'];
    let (verts, _) = layout_line(&font, &line, 0, 0, GREEN).unwrap();
    // end_x = cursor + offset.x; top = cursor_y + dimensions.y - offset.y.
    assert_eq!(verts[0].x, 1_000_000);
    assert_eq!(verts[0].y, 10_000_000);
    assert_eq!(verts[1].y, -2_000_000);
}
