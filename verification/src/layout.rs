//! Line batching: splitting text into logical lines, walking a line glyph by
//! glyph while a cursor advances, and accumulating the vertex list the GPU
//! session uploads for that line.

use crate::font::Font;
use crate::geometry::Color3;
use crate::geometry::EPSILON;
use crate::geometry::MAX_METRIC;
use crate::geometry::ORIGIN_LIMIT;
use crate::geometry::Vec2;
use crate::geometry::Vertex;
use crate::geometry::VertexModel;
use crate::geometry::build_glyph_quad;
use crate::geometry::color_wf;
use crate::geometry::lemma_quad_uv_bounds;
use crate::geometry::models_of;
use crate::geometry::quad_model;
use crate::geometry::uv_in_glyph_window;
use crate::geometry::visible;
use vstd::prelude::*;

verus! {

/// The byte that separates logical lines of input text.
pub const NEWLINE: u8 = 10;

/// An unrecoverable rendering failure.
#[derive(Debug, PartialEq)]
pub enum RenderError {
    /// A character of the text has no entry in the font's glyph table: the
    /// text and the font asset do not match. Carries the offending character,
    /// the font's identifying path, and the glyph table's size for diagnosis.
    MissingGlyph { character: u8, font_path: String, glyph_count: usize },
}

/// Index of the first newline byte in `s`, or `s.len()` if there is none.
pub open spec fn first_newline(s: Seq<u8>) -> nat
    decreases s.len(),
{
    if s.len() == 0 {
        0
    } else if s[0] == NEWLINE {
        0
    } else {
        1 + first_newline(s.drop_first())
    }
}

/// The logical lines of a text: the segments between newline bytes, with a
/// trailing newline closing the last line rather than opening an empty one,
/// and an empty text holding no lines at all.
pub open spec fn lines_of(s: Seq<u8>) -> Seq<Seq<u8>>
    decreases s.len(),
{
    if s.len() == 0 {
        Seq::empty()
    } else {
        let i = first_newline(s);
        if i >= s.len() {
            seq![s]
        } else {
            seq![s.take(i as int)] + lines_of(s.skip(i as int + 1))
        }
    }
}

pub proof fn lemma_first_newline_absent(s: Seq<u8>)
    requires
        forall|i: int| 0 <= i < s.len() ==> s[i] != NEWLINE,
    ensures
        first_newline(s) == s.len(),
    decreases s.len(),
{
    if s.len() > 0 {
        assert forall|i: int| 0 <= i < s.drop_first().len() implies s.drop_first()[i] != NEWLINE by {
            assert(s.drop_first()[i] == s[i + 1]);
        }
        lemma_first_newline_absent(s.drop_first());
    }
}

/// A non-empty text without newline bytes is a single line.
pub proof fn lemma_lines_of_unbroken(s: Seq<u8>)
    requires
        s.len() > 0,
        forall|i: int| 0 <= i < s.len() ==> s[i] != NEWLINE,
    ensures
        lines_of(s) == seq![s],
{
    lemma_first_newline_absent(s);
}

pub proof fn lemma_first_newline_concat(a: Seq<u8>, b: Seq<u8>)
    requires
        forall|i: int| 0 <= i < a.len() ==> a[i] != NEWLINE,
        b.len() > 0,
        b[0] == NEWLINE,
    ensures
        first_newline(a + b) == a.len(),
    decreases a.len(),
{
    if a.len() == 0 {
        assert(a + b =~= b);
    } else {
        assert((a + b)[0] == a[0]);
        assert((a + b).drop_first() =~= a.drop_first() + b);
        assert forall|i: int| 0 <= i < a.drop_first().len() implies a.drop_first()[i] != NEWLINE by {
            assert(a.drop_first()[i] == a[i + 1]);
        }
        lemma_first_newline_concat(a.drop_first(), b);
    }
}

/// Splitting off a first line: a newline-free prefix closed by a newline is
/// one line, followed by the lines of the remainder.
pub proof fn lemma_lines_of_split(a: Seq<u8>, b: Seq<u8>)
    requires
        forall|i: int| 0 <= i < a.len() ==> a[i] != NEWLINE,
    ensures
        lines_of(a + seq![NEWLINE] + b) == seq![a] + lines_of(b),
{
    let s = a + seq![NEWLINE] + b;
    lemma_first_newline_concat(a, seq![NEWLINE] + b);
    assert(a + (seq![NEWLINE] + b) =~= s);
    assert(first_newline(s) == a.len());
    assert(s.take(a.len() as int) =~= a);
    assert(s.skip(a.len() as int + 1) =~= b);
}

/// The views of a sequence of byte vectors, element by element.
pub open spec fn line_views(s: Seq<Vec<u8>>) -> Seq<Seq<u8>> {
    Seq::new(s.len(), |i: int| s[i]@)
}

/// Splits a text into its logical lines.
pub fn split_lines(text: &Vec<u8>) -> (lines: Vec<Vec<u8>>)
    ensures
        line_views(lines@) == lines_of(text@),
{
    let ghost whole: Seq<u8> = text@;
    let mut lines: Vec<Vec<u8>> = Vec::new();
    let mut cur: Vec<u8> = Vec::new();
    let mut i: usize = 0;
    proof {
        assert(cur@ + whole.skip(0) =~= whole);
        assert(line_views(lines@) =~= Seq::<Seq<u8>>::empty());
        assert(Seq::<Seq<u8>>::empty() + lines_of(whole) =~= lines_of(whole));
    }
    while i < text.len()
        invariant
            i <= text@.len(),
            text@ == whole,
            forall|k: int| 0 <= k < cur@.len() ==> cur@[k] != NEWLINE,
            lines_of(whole) == line_views(lines@) + lines_of(cur@ + whole.skip(i as int)),
        decreases text@.len() - i,
    {
        let b = text[i];
        let ghost rest: Seq<u8> = whole.skip(i as int);
        proof {
            assert(rest[0] == whole[i as int]);
        }
        if b == NEWLINE {
            proof {
                assert(cur@ + rest =~= cur@ + seq![NEWLINE] + whole.skip(i as int + 1));
                lemma_lines_of_split(cur@, whole.skip(i as int + 1));
            }
            let ghost prev = lines@;
            let ghost cur_view = cur@;
            lines.push(cur);
            cur = Vec::new();
            proof {
                assert(line_views(lines@) =~= line_views(prev) + seq![cur_view]);
            }
        } else {
            proof {
                assert(cur@.push(b) + whole.skip(i as int + 1) =~= cur@ + rest);
            }
            cur.push(b);
        }
        i += 1;
    }
    proof {
        assert(whole.skip(whole.len() as int) =~= Seq::<u8>::empty());
    }
    if cur.len() > 0 {
        proof {
            assert(cur@ + whole.skip(i as int) =~= cur@);
            lemma_lines_of_unbroken(cur@);
        }
        let ghost prev = lines@;
        lines.push(cur);
        proof {
            assert(line_views(lines@) =~= line_views(prev) + seq![lines@[prev.len() as int]@]);
        }
    } else {
        proof {
            assert(cur@ + whole.skip(i as int) =~= Seq::<u8>::empty());
            assert(line_views(lines@) + Seq::<Seq<u8>>::empty() =~= line_views(lines@));
        }
    }
    lines
}

/// Every character of the line has an entry in the font's glyph table.
pub open spec fn line_ok(font: Font, line: Seq<u8>) -> bool {
    forall|i: int| 0 <= i < line.len() ==> font.glyphs@.contains_key(#[trigger] line[i])
}

/// Index of the first character of the line without a glyph entry.
pub open spec fn first_bad_char(font: Font, line: Seq<u8>) -> nat
    decreases line.len(),
{
    if line.len() == 0 {
        0
    } else if !font.glyphs@.contains_key(line[0]) {
        0
    } else {
        1 + first_bad_char(font, line.drop_first())
    }
}

pub proof fn lemma_first_bad_char_at(font: Font, line: Seq<u8>, j: int)
    requires
        0 <= j < line.len(),
        forall|i: int| 0 <= i < j ==> font.glyphs@.contains_key(#[trigger] line[i]),
        !font.glyphs@.contains_key(line[j]),
    ensures
        first_bad_char(font, line) == j,
    decreases j,
{
    if j > 0 {
        assert forall|i: int| 0 <= i < j - 1 implies font.glyphs@.contains_key(
            #[trigger] line.drop_first()[i],
        ) by {
            assert(line.drop_first()[i] == line[i + 1]);
        }
        assert(line.drop_first()[j - 1] == line[j]);
        lemma_first_bad_char_at(font, line.drop_first(), j - 1);
    }
}

/// Where the cursor stands after consuming the whole line from (cx, cy):
/// every glyph's advance is applied, visible or not.
pub open spec fn cursor_after(font: Font, line: Seq<u8>, cx: int, cy: int) -> (int, int)
    decreases line.len(),
{
    if line.len() == 0 {
        (cx, cy)
    } else {
        let g = font.glyphs@[line[0]];
        cursor_after(font, line.drop_first(), cx + g.advance.x, cy + g.advance.y)
    }
}

/// The vertex stream of one line laid out from (cx, cy): each visible glyph
/// contributes its two triangles at the cursor's position, and every glyph
/// moves the cursor by its advance.
pub open spec fn line_verts(font: Font, line: Seq<u8>, cx: int, cy: int, color: Color3) -> Seq<
    VertexModel,
>
    decreases line.len(),
{
    if line.len() == 0 {
        Seq::empty()
    } else {
        let g = font.glyphs@[line[0]];
        let here = if visible(g) {
            quad_model(
                cx,
                cy,
                g,
                font.atlas_dimensions.0 as int,
                font.atlas_dimensions.1 as int,
                color,
            )
        } else {
            Seq::empty()
        };
        here + line_verts(font, line.drop_first(), cx + g.advance.x, cy + g.advance.y, color)
    }
}

/// How many glyphs of the line are visible (emit geometry).
pub open spec fn visible_count(font: Font, line: Seq<u8>) -> int
    decreases line.len(),
{
    if line.len() == 0 {
        0
    } else {
        (if visible(font.glyphs@[line[0]]) {
            1int
        } else {
            0int
        }) + visible_count(font, line.drop_first())
    }
}

/// Unfolds one glyph at the end of a line: its quad (if visible) is appended
/// at the cursor reached after the prefix, and the cursor moves by its
/// advance.
pub proof fn lemma_line_snoc(font: Font, line: Seq<u8>, c: u8, cx: int, cy: int, color: Color3)
    ensures
        ({
            let g = font.glyphs@[c];
            let end = cursor_after(font, line, cx, cy);
            let here = if visible(g) {
                quad_model(
                    end.0,
                    end.1,
                    g,
                    font.atlas_dimensions.0 as int,
                    font.atlas_dimensions.1 as int,
                    color,
                )
            } else {
                Seq::<VertexModel>::empty()
            };
            &&& line_verts(font, line.push(c), cx, cy, color) == line_verts(
                font,
                line,
                cx,
                cy,
                color,
            ) + here
            &&& cursor_after(font, line.push(c), cx, cy) == (
            end.0 + g.advance.x,
            end.1 + g.advance.y,
            )
            &&& visible_count(font, line.push(c)) == visible_count(font, line) + (if visible(g) {
                1int
            } else {
                0int
            })
        }),
    decreases line.len(),
{
    let g = font.glyphs@[c];
    if line.len() == 0 {
        assert(line =~= Seq::<u8>::empty());
        assert(line.push(c)[0] == c);
        assert(line.push(c).drop_first() =~= Seq::<u8>::empty());
        let cx2 = cx + g.advance.x;
        let cy2 = cy + g.advance.y;
        assert(cursor_after(font, Seq::<u8>::empty(), cx2, cy2) == (cx2, cy2));
        assert(cursor_after(font, line.push(c), cx, cy) == cursor_after(
            font,
            line.push(c).drop_first(),
            cx2,
            cy2,
        ));
        let here = if visible(g) {
            quad_model(
                cx,
                cy,
                g,
                font.atlas_dimensions.0 as int,
                font.atlas_dimensions.1 as int,
                color,
            )
        } else {
            Seq::<VertexModel>::empty()
        };
        assert(line_verts(font, Seq::<u8>::empty(), cx2, cy2, color) == Seq::<VertexModel>::empty());
        assert(line_verts(font, line.push(c), cx, cy, color) == here + line_verts(
            font,
            line.push(c).drop_first(),
            cx2,
            cy2,
            color,
        ));
        assert(visible_count(font, Seq::<u8>::empty()) == 0);
        assert(here + Seq::<VertexModel>::empty() =~= here);
        assert(Seq::<VertexModel>::empty() + here =~= here);
    } else {
        let g0 = font.glyphs@[line[0]];
        assert(line.push(c)[0] == line[0]);
        assert(line.push(c).drop_first() =~= line.drop_first().push(c));
        lemma_line_snoc(font, line.drop_first(), c, cx + g0.advance.x, cy + g0.advance.y, color);
        let here0 = if visible(g0) {
            quad_model(
                cx,
                cy,
                g0,
                font.atlas_dimensions.0 as int,
                font.atlas_dimensions.1 as int,
                color,
            )
        } else {
            Seq::<VertexModel>::empty()
        };
        let end = cursor_after(font, line, cx, cy);
        let here = if visible(g) {
            quad_model(
                end.0,
                end.1,
                g,
                font.atlas_dimensions.0 as int,
                font.atlas_dimensions.1 as int,
                color,
            )
        } else {
            Seq::<VertexModel>::empty()
        };
        let tail = line_verts(
            font,
            line.drop_first(),
            cx + g0.advance.x,
            cy + g0.advance.y,
            color,
        );
        assert(here0 + (tail + here) =~= (here0 + tail) + here);
    }
}

/// Law: a glyph whose visible box is at or below the near-zero threshold
/// emits no geometry, but the cursor still advances by its advance vector.
pub proof fn lemma_invisible_glyph_advances_cursor(
    font: Font,
    line: Seq<u8>,
    c: u8,
    cx: int,
    cy: int,
    color: Color3,
)
    requires
        !visible(font.glyphs@[c]),
    ensures
        line_verts(font, line.push(c), cx, cy, color) == line_verts(font, line, cx, cy, color),
        cursor_after(font, line.push(c), cx, cy) == (
            cursor_after(font, line, cx, cy).0 + font.glyphs@[c].advance.x,
            cursor_after(font, line, cx, cy).1 + font.glyphs@[c].advance.y,
        ),
    decreases line.len(),
{
    lemma_line_snoc(font, line, c, cx, cy, color);
    assert(line_verts(font, line, cx, cy, color) + Seq::<VertexModel>::empty() =~= line_verts(
        font,
        line,
        cx,
        cy,
        color,
    ));
}

/// Law: a line of N visible glyphs is exactly 6 N vertices — two triangles
/// per visible glyph, nothing for the rest.
pub proof fn lemma_line_vertex_count(font: Font, line: Seq<u8>, cx: int, cy: int, color: Color3)
    ensures
        line_verts(font, line, cx, cy, color).len() == 6 * visible_count(font, line),
    decreases line.len(),
{
    if line.len() > 0 {
        let g = font.glyphs@[line[0]];
        lemma_line_vertex_count(
            font,
            line.drop_first(),
            cx + g.advance.x,
            cy + g.advance.y,
            color,
        );
    }
}

/// Law: every vertex of a line's batch carries texture coordinates within the
/// atlas window of the glyph it was emitted for — its atlas origin extended
/// by its box normalized against the atlas size.
pub proof fn lemma_line_uv_bounds(font: Font, line: Seq<u8>, cx: int, cy: int, color: Color3)
    requires
        font.wf(),
        line_ok(font, line),
    ensures
        forall|v: int|
            0 <= v < line_verts(font, line, cx, cy, color).len() ==> exists|j: int|
                0 <= j < line.len() && uv_in_glyph_window(
                    #[trigger] line_verts(font, line, cx, cy, color)[v],
                    font.glyphs@[line[j]],
                    font.atlas_dimensions.0 as int,
                    font.atlas_dimensions.1 as int,
                ),
    decreases line.len(),
{
    let aw = font.atlas_dimensions.0 as int;
    let ah = font.atlas_dimensions.1 as int;
    if line.len() > 0 {
        let g = font.glyphs@[line[0]];
        let cx2 = cx + g.advance.x;
        let cy2 = cy + g.advance.y;
        assert(font.glyphs@.contains_key(line[0]));
        assert forall|i: int| 0 <= i < line.drop_first().len() implies font.glyphs@.contains_key(
            #[trigger] line.drop_first()[i],
        ) by {
            assert(line.drop_first()[i] == line[i + 1]);
        }
        lemma_line_uv_bounds(font, line.drop_first(), cx2, cy2, color);
        lemma_quad_uv_bounds(cx, cy, g, aw, ah, color);
        let here = if visible(g) {
            quad_model(cx, cy, g, aw, ah, color)
        } else {
            Seq::<VertexModel>::empty()
        };
        let tail = line_verts(font, line.drop_first(), cx2, cy2, color);
        let whole = line_verts(font, line, cx, cy, color);
        assert(whole == here + tail);
        assert forall|v: int| 0 <= v < whole.len() implies exists|j: int|
            0 <= j < line.len() && uv_in_glyph_window(
                #[trigger] whole[v],
                font.glyphs@[line[j]],
                aw,
                ah,
            ) by {
            if v < here.len() {
                assert(whole[v] == here[v]);
                assert(uv_in_glyph_window(whole[v], font.glyphs@[line[0]], aw, ah));
            } else {
                assert(whole[v] == tail[v - here.len()]);
                let j0 = choose|j0: int|
                    0 <= j0 < line.drop_first().len() && uv_in_glyph_window(
                        tail[v - here.len()],
                        font.glyphs@[line.drop_first()[j0]],
                        aw,
                        ah,
                    );
                assert(line.drop_first()[j0] == line[j0 + 1]);
                assert(uv_in_glyph_window(whole[v], font.glyphs@[line[j0 + 1]], aw, ah));
            }
        }
    }
}

/// Lays out one logical line from the given origin: walks its characters,
/// advancing the cursor by each glyph's advance and batching two triangles
/// for each visible glyph. Fails on the first character the font does not
/// cover. Returns the vertex batch and the final cursor.
pub fn layout_line(
    font: &Font,
    line: &Vec<u8>,
    origin_x: i128,
    origin_y: i128,
    color: Color3,
) -> (res: Result<(Vec<Vertex>, Vec2), RenderError>)
    requires
        font.wf(),
        color_wf(color),
        -ORIGIN_LIMIT <= origin_x <= ORIGIN_LIMIT,
        -ORIGIN_LIMIT <= origin_y <= ORIGIN_LIMIT,
    ensures
        match res {
            Ok(out) => {
                &&& line_ok(*font, line@)
                &&& models_of(out.0@) == line_verts(
                    *font,
                    line@,
                    origin_x as int,
                    origin_y as int,
                    color,
                )
                &&& (out.1.x as int, out.1.y as int) == cursor_after(
                    *font,
                    line@,
                    origin_x as int,
                    origin_y as int,
                )
            },
            Err(e) => {
                &&& !line_ok(*font, line@)
                &&& e matches RenderError::MissingGlyph { character, font_path, glyph_count }
                    && character == line@[first_bad_char(*font, line@) as int] && font_path
                    == font.file && glyph_count == font.glyphs@.len()
            },
        },
{
    let atlas_w: u32 = font.atlas_dimensions.0;
    let atlas_h: u32 = font.atlas_dimensions.1;
    let mut verts: Vec<Vertex> = Vec::new();
    let mut cx: i128 = origin_x;
    let mut cy: i128 = origin_y;
    let mut j: usize = 0;
    while j < line.len()
        invariant
            font.wf(),
            color_wf(color),
            atlas_w == font.atlas_dimensions.0,
            atlas_h == font.atlas_dimensions.1,
            -ORIGIN_LIMIT <= origin_x <= ORIGIN_LIMIT,
            -ORIGIN_LIMIT <= origin_y <= ORIGIN_LIMIT,
            j <= line@.len(),
            forall|i: int| 0 <= i < j ==> font.glyphs@.contains_key(#[trigger] line@[i]),
            (cx as int, cy as int) == cursor_after(
                *font,
                line@.take(j as int),
                origin_x as int,
                origin_y as int,
            ),
            models_of(verts@) == line_verts(
                *font,
                line@.take(j as int),
                origin_x as int,
                origin_y as int,
                color,
            ),
            -ORIGIN_LIMIT - (j as int) * MAX_METRIC <= cx as int <= ORIGIN_LIMIT + (j as int)
                * MAX_METRIC,
            -ORIGIN_LIMIT - (j as int) * MAX_METRIC <= cy as int <= ORIGIN_LIMIT + (j as int)
                * MAX_METRIC,
        decreases line@.len() - j,
    {
        let c = line[j];
        match font.glyphs.get(&c) {
            None => {
                proof {
                    lemma_first_bad_char_at(*font, line@, j as int);
                }
                return Err(
                    RenderError::MissingGlyph {
                        character: c,
                        font_path: font.file.clone(),
                        glyph_count: font.glyphs.len(),
                    },
                );
            },
            Some(metrics) => {
                let g = *metrics;
                proof {
                    vstd::arithmetic::mul::lemma_mul_inequality(
                        j as int,
                        usize::MAX as int,
                        MAX_METRIC as int,
                    );
                    assert((j as int + 1) * MAX_METRIC == (j as int) * MAX_METRIC + MAX_METRIC)
                        by (nonlinear_arith);
                    vstd::arithmetic::mul::lemma_mul_inequality(
                        j as int + 1,
                        usize::MAX as int,
                        MAX_METRIC as int,
                    );
                }
                if g.dimensions.x > EPSILON && g.dimensions.y > EPSILON {
                    let mut quad = build_glyph_quad(Vec2 { x: cx, y: cy }, &g, color, atlas_w, atlas_h);
                    let ghost prev = verts@;
                    let ghost quad_view = quad@;
                    verts.append(&mut quad);
                    proof {
                        assert(models_of(prev + quad_view) =~= models_of(prev) + models_of(
                            quad_view,
                        ));
                    }
                }
                proof {
                    assert(line@.take(j as int + 1) =~= line@.take(j as int).push(line@[j as int]));
                    lemma_line_snoc(
                        *font,
                        line@.take(j as int),
                        c,
                        origin_x as int,
                        origin_y as int,
                        color,
                    );
                    if !visible(g) {
                        assert(line_verts(
                            *font,
                            line@.take(j as int),
                            origin_x as int,
                            origin_y as int,
                            color,
                        ) + Seq::<VertexModel>::empty() =~= line_verts(
                            *font,
                            line@.take(j as int),
                            origin_x as int,
                            origin_y as int,
                            color,
                        ));
                    }
                }
                cx = cx + g.advance.x;
                cy = cy + g.advance.y;
                j = j + 1;
            },
        }
    }
    proof {
        assert(line@.take(line@.len() as int) =~= line@);
    }
    Ok((verts, Vec2 { x: cx, y: cy }))
}

} // verus!
