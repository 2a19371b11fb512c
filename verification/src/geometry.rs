//! Fixed-point screen geometry: the vertex record uploaded per glyph and the
//! pure builder that turns one glyph at a cursor position into two triangles.

use vstd::arithmetic::div_mod::lemma_div_nonincreasing;
use vstd::arithmetic::div_mod::lemma_div_pos_is_pos;
use vstd::prelude::*;

verus! {

/// Subunits per screen/texture unit. All geometry in this crate is carried as
/// an integer count of 1/SCALE of a unit, so layout arithmetic is exact; the
/// host converts to the GPU's floating-point wire format only at upload time.
pub const SCALE: i128 = 1_000_000;

/// Near-zero threshold (a tenth of a unit, in subunits): glyphs whose width or
/// height is at or below it produce no geometry, though their advance is still
/// consumed.
pub const EPSILON: i128 = 100_000;

/// Largest magnitude allowed for a single font metric coordinate, in subunits.
pub const MAX_METRIC: i128 = 1_000_000_000_000;

/// Largest magnitude allowed for a render origin coordinate, in subunits.
pub const MAX_POSITION: i128 = 1_000_000_000_000;

/// Largest magnitude a line origin handed to the line batcher may have: a
/// render origin plus one line advance per line of the longest possible text.
pub const ORIGIN_LIMIT: i128 = 20_000_000_000_000_000_000_000_000_000_000;

/// Largest magnitude the running cursor can reach: a line origin plus one
/// glyph advance per byte of the longest possible line.
pub const CURSOR_LIMIT: i128 = 40_000_000_000_000_000_000_000_000_000_000;

/// A 2D coordinate pair in subunits.
#[derive(Clone, Copy, Debug, PartialEq, Eq, Structural)]
pub struct Vec2 {
    pub x: i128,
    pub y: i128,
}

/// A flat vertex color, red/green/blue in subunits of the unit interval.
#[derive(Clone, Copy, Debug, PartialEq, Eq, Structural)]
pub struct Color3 {
    pub r: i128,
    pub g: i128,
    pub b: i128,
}

/// Per-character layout and atlas data: cursor delta after drawing, local
/// origin shift, visible box size, and the glyph's top-left atlas coordinate.
#[derive(Clone, Copy, Debug, PartialEq, Eq, Structural)]
pub struct GlyphMetrics {
    pub advance: Vec2,
    pub offset: Vec2,
    pub dimensions: Vec2,
    pub tex: Vec2,
}

/// One vertex of the stream handed to the GPU: screen position, normalized
/// texture coordinate, and color, all in subunits. The host packs these seven
/// fields, in this order, as seven 32-bit floats (28 bytes, color at byte 16).
#[derive(Clone, Copy, Debug, PartialEq, Eq, Structural)]
pub struct Vertex {
    pub x: i128,
    pub y: i128,
    pub u: i128,
    pub v: i128,
    pub r: i128,
    pub g: i128,
    pub b: i128,
}

/// The mathematical value of a vertex, free of machine-width concerns.
pub struct VertexModel {
    pub x: int,
    pub y: int,
    pub u: int,
    pub v: int,
    pub r: int,
    pub g: int,
    pub b: int,
}

impl View for Vertex {
    type V = VertexModel;

    open spec fn view(&self) -> VertexModel {
        VertexModel {
            x: self.x as int,
            y: self.y as int,
            u: self.u as int,
            v: self.v as int,
            r: self.r as int,
            g: self.g as int,
            b: self.b as int,
        }
    }
}

/// The models of a vertex sequence, element by element.
pub open spec fn models_of(s: Seq<Vertex>) -> Seq<VertexModel> {
    Seq::new(s.len(), |i: int| s[i]@)
}

pub open spec fn coord_in_range(c: i128) -> bool {
    -MAX_METRIC <= c <= MAX_METRIC
}

pub open spec fn vec2_wf(v: Vec2) -> bool {
    coord_in_range(v.x) && coord_in_range(v.y)
}

/// Well-formed glyph metrics: every coordinate bounded, and the visible box
/// and atlas origin non-negative.
pub open spec fn metric_wf(glyph: GlyphMetrics) -> bool {
    &&& vec2_wf(glyph.advance)
    &&& vec2_wf(glyph.offset)
    &&& vec2_wf(glyph.dimensions)
    &&& vec2_wf(glyph.tex)
    &&& glyph.dimensions.x >= 0
    &&& glyph.dimensions.y >= 0
    &&& glyph.tex.x >= 0
    &&& glyph.tex.y >= 0
}

pub open spec fn color_wf(color: Color3) -> bool {
    &&& 0 <= color.r <= SCALE
    &&& 0 <= color.g <= SCALE
    &&& 0 <= color.b <= SCALE
}

/// A glyph is emitted only when both sides of its visible box exceed the
/// near-zero threshold; space-like glyphs fail this and are skipped.
pub open spec fn visible(glyph: GlyphMetrics) -> bool {
    glyph.dimensions.x > EPSILON && glyph.dimensions.y > EPSILON
}

/// The six vertices (two triangles) covering one glyph drawn with its
/// local origin at cursor position (cx, cy). Screen y grows downward and is
/// negated before upload; texture coordinates are the glyph's atlas origin
/// extended by its box normalized against the atlas size. Order: top-left,
/// bottom-left, bottom-right; top-left, bottom-right, top-right.
pub open spec fn quad_model(
    cx: int,
    cy: int,
    glyph: GlyphMetrics,
    atlas_w: int,
    atlas_h: int,
    color: Color3,
) -> Seq<VertexModel> {
    let end_x: int = cx + glyph.offset.x;
    let end_y: int = -cy - (glyph.dimensions.y - glyph.offset.y);
    let w: int = glyph.dimensions.x as int;
    let h: int = glyph.dimensions.y as int;
    let u0: int = glyph.tex.x as int;
    let v0: int = glyph.tex.y as int;
    let u1: int = u0 + w / atlas_w;
    let v1: int = v0 + h / atlas_h;
    let top: int = -end_y;
    let bottom: int = -end_y - h;
    let cr: int = color.r as int;
    let cg: int = color.g as int;
    let cb: int = color.b as int;
    seq![
        VertexModel { x: end_x, y: top, u: u0, v: v0, r: cr, g: cg, b: cb },
        VertexModel { x: end_x, y: bottom, u: u0, v: v1, r: cr, g: cg, b: cb },
        VertexModel { x: end_x + w, y: bottom, u: u1, v: v1, r: cr, g: cg, b: cb },
        VertexModel { x: end_x, y: top, u: u0, v: v0, r: cr, g: cg, b: cb },
        VertexModel { x: end_x + w, y: bottom, u: u1, v: v1, r: cr, g: cg, b: cb },
        VertexModel { x: end_x + w, y: top, u: u1, v: v0, r: cr, g: cg, b: cb },
    ]
}

/// Builds the two screen-space triangles for one glyph at the given cursor.
pub fn build_glyph_quad(
    cursor: Vec2,
    glyph: &GlyphMetrics,
    color: Color3,
    atlas_w: u32,
    atlas_h: u32,
) -> (out: Vec<Vertex>)
    requires
        metric_wf(*glyph),
        color_wf(color),
        1 <= atlas_w,
        1 <= atlas_h,
        -CURSOR_LIMIT <= cursor.x <= CURSOR_LIMIT,
        -CURSOR_LIMIT <= cursor.y <= CURSOR_LIMIT,
    ensures
        out@.len() == 6,
        models_of(out@) == quad_model(
            cursor.x as int,
            cursor.y as int,
            *glyph,
            atlas_w as int,
            atlas_h as int,
            color,
        ),
{
    let end_x: i128 = cursor.x + glyph.offset.x;
    let end_y: i128 = -cursor.y - (glyph.dimensions.y - glyph.offset.y);
    let w: i128 = glyph.dimensions.x;
    let h: i128 = glyph.dimensions.y;
    proof {
        lemma_div_pos_is_pos(w as int, atlas_w as int);
        lemma_div_nonincreasing(w as int, atlas_w as int);
        lemma_div_pos_is_pos(h as int, atlas_h as int);
        lemma_div_nonincreasing(h as int, atlas_h as int);
    }
    let du: i128 = ((w as u128) / (atlas_w as u128)) as i128;
    let dv: i128 = ((h as u128) / (atlas_h as u128)) as i128;
    let u0: i128 = glyph.tex.x;
    let v0: i128 = glyph.tex.y;
    let u1: i128 = u0 + du;
    let v1: i128 = v0 + dv;
    let top: i128 = -end_y;
    let bottom: i128 = -end_y - h;
    let mut out: Vec<Vertex> = Vec::new();
    out.push(Vertex { x: end_x, y: top, u: u0, v: v0, r: color.r, g: color.g, b: color.b });
    out.push(Vertex { x: end_x, y: bottom, u: u0, v: v1, r: color.r, g: color.g, b: color.b });
    out.push(Vertex { x: end_x + w, y: bottom, u: u1, v: v1, r: color.r, g: color.g, b: color.b });
    out.push(Vertex { x: end_x, y: top, u: u0, v: v0, r: color.r, g: color.g, b: color.b });
    out.push(Vertex { x: end_x + w, y: bottom, u: u1, v: v1, r: color.r, g: color.g, b: color.b });
    out.push(Vertex { x: end_x + w, y: top, u: u1, v: v0, r: color.r, g: color.g, b: color.b });
    proof {
        assert(models_of(out@) =~= quad_model(
            cursor.x as int,
            cursor.y as int,
            *glyph,
            atlas_w as int,
            atlas_h as int,
            color,
        ));
    }
    out
}

/// Whether a vertex's texture coordinate lies inside the atlas window of the
/// given glyph: its atlas origin extended by its box normalized against the
/// atlas size.
pub open spec fn uv_in_glyph_window(
    vm: VertexModel,
    glyph: GlyphMetrics,
    atlas_w: int,
    atlas_h: int,
) -> bool {
    &&& glyph.tex.x <= vm.u <= glyph.tex.x + (glyph.dimensions.x as int) / atlas_w
    &&& glyph.tex.y <= vm.v <= glyph.tex.y + (glyph.dimensions.y as int) / atlas_h
}

/// Law: every vertex emitted for a glyph samples within that glyph's atlas
/// window, so drawing one glyph can never bleed into a neighbouring one.
pub proof fn lemma_quad_uv_bounds(
    cx: int,
    cy: int,
    glyph: GlyphMetrics,
    atlas_w: int,
    atlas_h: int,
    color: Color3,
)
    requires
        metric_wf(glyph),
        atlas_w >= 1,
        atlas_h >= 1,
    ensures
        forall|i: int|
            0 <= i < quad_model(cx, cy, glyph, atlas_w, atlas_h, color).len()
                ==> uv_in_glyph_window(
                #[trigger] quad_model(cx, cy, glyph, atlas_w, atlas_h, color)[i],
                glyph,
                atlas_w,
                atlas_h,
            ),
{
    lemma_div_pos_is_pos(glyph.dimensions.x as int, atlas_w as int);
    lemma_div_pos_is_pos(glyph.dimensions.y as int, atlas_h as int);
}

} // verus!
