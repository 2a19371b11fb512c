//! The render orchestrator and session guard: `begin` / `render` / `end`
//! decide the exact GPU command streams of a text overlay pass; a host
//! executes each stream against the live graphics context.

use crate::commands::COLOR_COMPONENTS;
use crate::commands::COLOR_OFFSET_BYTES;
use crate::commands::COLOR_SLOT;
use crate::commands::CmdModel;
use crate::commands::GpuCommand;
use crate::commands::OrthoParams;
use crate::commands::POSITION_COMPONENTS;
use crate::commands::POSITION_SLOT;
use crate::commands::VERTEX_STRIDE_BYTES;
use crate::commands::cmd_models;
use crate::commands::ortho_params;
use crate::font::Font;
use crate::geometry::Color3;
use crate::geometry::MAX_METRIC;
use crate::geometry::MAX_POSITION;
use crate::geometry::SCALE;
use crate::geometry::Vec2;
use crate::geometry::VertexModel;
use crate::geometry::models_of;
use crate::layout::RenderError;
use crate::layout::first_bad_char;
use crate::layout::lemma_line_vertex_count;
use crate::layout::visible_count;
use crate::layout::layout_line;
use crate::layout::line_ok;
use crate::layout::line_verts;
use crate::layout::line_views;
use crate::layout::lines_of;
use crate::layout::split_lines;
use vstd::prelude::*;

verus! {

/// The flat color every glyph is drawn with: full green.
pub open spec fn text_color() -> Color3 {
    Color3 { r: 0, g: SCALE, b: 0 }
}

/// A text overlay renderer. It exclusively owns one vertex array, one
/// streaming vertex buffer and one shader for its whole lifetime; the handles
/// are allocated once by the host and never recreated.
pub struct Renderer {
    /// Handle of the renderer's vertex array object.
    pub vao: u32,
    /// Handle of the renderer's streaming vertex buffer.
    pub vbo: u32,
    /// Handle of the text shader program.
    pub shader: u32,
    /// Cached location of the shader's projection-matrix uniform.
    pub proj_loc: i32,
    /// Whether a `begin` has been issued and not yet matched by `end`.
    pub in_session: bool,
}

/// The one-time setup stream run at construction: bind the shader, point its
/// sampler at texture unit zero permanently, bind the vertex array and
/// buffer, establish the buffer as a zero-length streaming target, and enable
/// the position attribute slot.
pub open spec fn init_stream(r: Renderer, sampler_loc: i32) -> Seq<CmdModel> {
    seq![
        CmdModel::BindShader(r.shader),
        CmdModel::SetSamplerUniform { location: sampler_loc, unit: 0 },
        CmdModel::BindVertexArray(r.vao),
        CmdModel::BindArrayBuffer(r.vbo),
        CmdModel::UploadVertices(Seq::empty()),
        CmdModel::EnableAttribSlot(POSITION_SLOT),
    ]
}

/// The stream `begin` issues: depth testing off, atlas wrap clamped on both
/// axes, straight-alpha blending on, the text shader bound, and the top-left
/// orthographic projection of the current viewport uploaded.
pub open spec fn begin_stream(shader: u32, proj_loc: i32, viewport_w: u32, viewport_h: u32) -> Seq<
    CmdModel,
> {
    seq![
        CmdModel::DisableDepthTest,
        CmdModel::SetTextureWrapClampS,
        CmdModel::SetTextureWrapClampT,
        CmdModel::EnableBlend,
        CmdModel::SetBlendStraightAlpha,
        CmdModel::BindShader(shader),
        CmdModel::SetProjectionUniform {
            location: proj_loc,
            params: ortho_params(viewport_w, viewport_h),
        },
    ]
}

/// The stream `end` issues: exactly the two toggles `begin` changed, restored.
pub open spec fn end_stream() -> Seq<CmdModel> {
    seq![CmdModel::EnableDepthTest, CmdModel::DisableBlend]
}

/// The fixed commands opening a render call: bind the atlas and the
/// renderer's vertex array and buffer, and describe both attribute slots of
/// the packed wire format.
pub open spec fn render_prologue(r: Renderer, font: Font) -> Seq<CmdModel> {
    seq![
        CmdModel::BindTexture(font.texture_handle),
        CmdModel::BindVertexArray(r.vao),
        CmdModel::BindArrayBuffer(r.vbo),
        CmdModel::EnableAttribSlot(POSITION_SLOT),
        CmdModel::SetAttribPointer {
            slot: POSITION_SLOT,
            components: POSITION_COMPONENTS,
            stride_bytes: VERTEX_STRIDE_BYTES,
            offset_bytes: 0,
        },
        CmdModel::EnableAttribSlot(COLOR_SLOT),
        CmdModel::SetAttribPointer {
            slot: COLOR_SLOT,
            components: COLOR_COMPONENTS,
            stride_bytes: VERTEX_STRIDE_BYTES,
            offset_bytes: COLOR_OFFSET_BYTES,
        },
    ]
}

/// The fixed commands closing a render call: disable both attribute slots and
/// unbind the buffer and vertex array, leaving no dangling bound state.
pub open spec fn render_epilogue() -> Seq<CmdModel> {
    seq![
        CmdModel::DisableAttribSlot(POSITION_SLOT),
        CmdModel::DisableAttribSlot(COLOR_SLOT),
        CmdModel::BindArrayBuffer(0),
        CmdModel::BindVertexArray(0),
    ]
}

/// The y origin of the line with 0-based index k: the caller's origin shifted
/// down by (k + 1) line heights.
pub open spec fn line_origin_y(pos_y: int, height: int, k: int) -> int {
    pos_y + (k + 1) * height
}

/// The upload-then-draw pair of one line: the line's whole vertex batch
/// replaces the buffer's contents, and one triangle-list draw covers exactly
/// that batch.
pub open spec fn upload_and_draw(font: Font, line: Seq<u8>, pos: Vec2, k: int) -> Seq<CmdModel> {
    let vs = line_verts(
        font,
        line,
        pos.x as int,
        line_origin_y(pos.y as int, font.height as int, k),
        text_color(),
    );
    seq![CmdModel::UploadVertices(vs), CmdModel::DrawTriangles(vs.len() as int)]
}

/// The per-line portion of a render stream, for the lines `ls` starting at
/// 0-based line index k.
pub open spec fn line_batches(font: Font, ls: Seq<Seq<u8>>, pos: Vec2, k: int) -> Seq<CmdModel>
    decreases ls.len(),
{
    if ls.len() == 0 {
        Seq::empty()
    } else {
        upload_and_draw(font, ls[0], pos, k) + line_batches(font, ls.drop_first(), pos, k + 1)
    }
}

/// Every character of every line of the text has a glyph entry.
pub open spec fn text_ok(font: Font, s: Seq<u8>) -> bool {
    forall|k: int| 0 <= k < lines_of(s).len() ==> line_ok(font, #[trigger] lines_of(s)[k])
}

/// Index of the first line holding a character without a glyph entry.
pub open spec fn first_bad_line(font: Font, ls: Seq<Seq<u8>>) -> nat
    decreases ls.len(),
{
    if ls.len() == 0 {
        0
    } else if !line_ok(font, ls[0]) {
        0
    } else {
        1 + first_bad_line(font, ls.drop_first())
    }
}

pub proof fn lemma_first_bad_line_at(font: Font, ls: Seq<Seq<u8>>, k: int)
    requires
        0 <= k < ls.len(),
        forall|i: int| 0 <= i < k ==> line_ok(font, #[trigger] ls[i]),
        !line_ok(font, ls[k]),
    ensures
        first_bad_line(font, ls) == k,
    decreases k,
{
    if k > 0 {
        assert forall|i: int| 0 <= i < k - 1 implies line_ok(font, #[trigger] ls.drop_first()[i]) by {
            assert(ls.drop_first()[i] == ls[i + 1]);
        }
        assert(ls.drop_first()[k - 1] == ls[k]);
        lemma_first_bad_line_at(font, ls.drop_first(), k - 1);
    }
}

/// The full command stream of a successful render call.
pub open spec fn render_stream(r: Renderer, font: Font, s: Seq<u8>, pos: Vec2) -> Seq<CmdModel> {
    render_prologue(r, font) + line_batches(font, lines_of(s), pos, 0) + render_epilogue()
}

/// Unfolds one line at the end of a batch sequence.
pub proof fn lemma_line_batches_snoc(
    font: Font,
    ls: Seq<Seq<u8>>,
    line: Seq<u8>,
    pos: Vec2,
    k: int,
)
    ensures
        line_batches(font, ls.push(line), pos, k) == line_batches(font, ls, pos, k)
            + upload_and_draw(font, line, pos, k + ls.len()),
    decreases ls.len(),
{
    if ls.len() == 0 {
        assert(ls.push(line)[0] == line);
        assert(ls.push(line).drop_first() =~= Seq::<Seq<u8>>::empty());
        assert(line_batches(font, Seq::<Seq<u8>>::empty(), pos, k + 1) == Seq::<CmdModel>::empty());
        assert(line_batches(font, ls.push(line), pos, k) == upload_and_draw(font, line, pos, k)
            + line_batches(font, ls.push(line).drop_first(), pos, k + 1));
        assert(upload_and_draw(font, line, pos, k) + Seq::<CmdModel>::empty() =~= upload_and_draw(
            font,
            line,
            pos,
            k,
        ));
        assert(Seq::<CmdModel>::empty() + upload_and_draw(font, line, pos, k) =~= upload_and_draw(
            font,
            line,
            pos,
            k,
        ));
    } else {
        assert(ls.push(line)[0] == ls[0]);
        assert(ls.push(line).drop_first() =~= ls.drop_first().push(line));
        lemma_line_batches_snoc(font, ls.drop_first(), line, pos, k + 1);
        let head = upload_and_draw(font, ls[0], pos, k);
        let tail = line_batches(font, ls.drop_first(), pos, k + 1);
        let last = upload_and_draw(font, line, pos, k + ls.len());
        assert(head + (tail + last) =~= (head + tail) + last);
    }
}

/// Law: a K-line text issues exactly K upload/draw pairs, in line order; the
/// pair of the line with 0-based index i uploads exactly that line's vertex
/// batch, laid out from the caller's x origin at a y origin of (i + 1) line
/// heights below the caller's y origin, and draws exactly that batch's length.
pub proof fn lemma_per_line_batching(font: Font, ls: Seq<Seq<u8>>, pos: Vec2, k: int)
    ensures
        line_batches(font, ls, pos, k).len() == 2 * ls.len(),
        forall|i: int|
            #![trigger ls[i]]
            0 <= i < ls.len() ==> {
                let vs = line_verts(
                    font,
                    ls[i],
                    pos.x as int,
                    line_origin_y(pos.y as int, font.height as int, k + i),
                    text_color(),
                );
                &&& line_batches(font, ls, pos, k)[2 * i] == CmdModel::UploadVertices(vs)
                &&& line_batches(font, ls, pos, k)[2 * i + 1] == CmdModel::DrawTriangles(
                    vs.len() as int,
                )
            },
    decreases ls.len(),
{
    if ls.len() > 0 {
        lemma_per_line_batching(font, ls.drop_first(), pos, k + 1);
        let whole = line_batches(font, ls, pos, k);
        let head = upload_and_draw(font, ls[0], pos, k);
        let tail = line_batches(font, ls.drop_first(), pos, k + 1);
        assert(whole == head + tail);
        assert forall|i: int| #![trigger ls[i]] 0 <= i < ls.len() implies {
            let vs = line_verts(
                font,
                ls[i],
                pos.x as int,
                line_origin_y(pos.y as int, font.height as int, k + i),
                text_color(),
            );
            &&& whole[2 * i] == CmdModel::UploadVertices(vs)
            &&& whole[2 * i + 1] == CmdModel::DrawTriangles(vs.len() as int)
        } by {
            if i == 0 {
                assert(whole[0] == head[0]);
                assert(whole[1] == head[1]);
            } else {
                assert(ls.drop_first()[i - 1] == ls[i]);
                assert(whole[2 * i] == tail[2 * (i - 1)]);
                assert(whole[2 * i + 1] == tail[2 * (i - 1) + 1]);
            }
        }
    }
}

/// Law: a single-line text yields exactly 6 N vertices for its N visible
/// glyphs, uploaded by the stream's one upload and drawn by its one
/// triangle-list call, whose count is exactly 6 N.
pub proof fn lemma_single_line_render(r: Renderer, font: Font, s: Seq<u8>, pos: Vec2)
    requires
        lines_of(s).len() == 1,
    ensures
        ({
            let vs = line_verts(
                font,
                lines_of(s)[0],
                pos.x as int,
                line_origin_y(pos.y as int, font.height as int, 0),
                text_color(),
            );
            let stream = render_stream(r, font, s, pos);
            let p = render_prologue(r, font).len() as int;
            &&& vs.len() == 6 * visible_count(font, lines_of(s)[0])
            &&& stream.len() == p + 2 + render_epilogue().len()
            &&& stream[p] == CmdModel::UploadVertices(vs)
            &&& stream[p + 1] == CmdModel::DrawTriangles(vs.len() as int)
        }),
{
    let ls = lines_of(s);
    lemma_line_vertex_count(
        font,
        ls[0],
        pos.x as int,
        line_origin_y(pos.y as int, font.height as int, 0),
        text_color(),
    );
    lemma_per_line_batching(font, ls, pos, 0);
    let p = render_prologue(r, font).len() as int;
    let batches = line_batches(font, ls, pos, 0);
    assert(batches[0] == render_stream(r, font, s, pos)[p]);
    assert(batches[1] == render_stream(r, font, s, pos)[p + 1]);
}

/// Law: the projection `begin` uploads is a function of the renderer's cached
/// uniform location and the viewport alone; after any number of renders and a
/// closing `end`, a new `begin` with an unchanged viewport reproduces the
/// identical projection command.
pub proof fn lemma_begin_reproduces_projection(
    r1: Renderer,
    r2: Renderer,
    viewport_w: u32,
    viewport_h: u32,
)
    requires
        r1.shader == r2.shader,
        r1.proj_loc == r2.proj_loc,
    ensures
        begin_stream(r1.shader, r1.proj_loc, viewport_w, viewport_h) == begin_stream(
            r2.shader,
            r2.proj_loc,
            viewport_w,
            viewport_h,
        ),
{
}

impl Renderer {
    /// Creates a renderer over GPU resources the host has already allocated:
    /// one vertex array, one streaming vertex buffer, the loaded text shader,
    /// and the looked-up location of its projection uniform. The commands of
    /// [`Renderer::init_commands`] must be executed once before the first
    /// session.
    pub fn new(vao: u32, vbo: u32, shader: u32, proj_loc: i32) -> (r: Renderer)
        ensures
            r.vao == vao,
            r.vbo == vbo,
            r.shader == shader,
            r.proj_loc == proj_loc,
            !r.in_session,
    {
        Renderer { vao, vbo, shader, proj_loc, in_session: false }
    }

    /// The one-time construction stream, given the location of the shader's
    /// atlas sampler uniform.
    pub fn init_commands(&self, sampler_loc: i32) -> (cmds: Vec<GpuCommand>)
        ensures
            cmd_models(cmds@) == init_stream(*self, sampler_loc),
    {
        let mut cmds: Vec<GpuCommand> = Vec::new();
        cmds.push(GpuCommand::BindShader(self.shader));
        cmds.push(GpuCommand::SetSamplerUniform { location: sampler_loc, unit: 0 });
        cmds.push(GpuCommand::BindVertexArray(self.vao));
        cmds.push(GpuCommand::BindArrayBuffer(self.vbo));
        cmds.push(GpuCommand::UploadVertices(Vec::new()));
        cmds.push(GpuCommand::EnableAttribSlot(POSITION_SLOT));
        proof {
            assert(models_of(Seq::<crate::geometry::Vertex>::empty()) =~= Seq::<
                VertexModel,
            >::empty());
            assert(cmd_models(cmds@) =~= init_stream(*self, sampler_loc));
        }
        cmds
    }

    /// Opens a session: text is drawn on top (depth testing off), blended
    /// with straight alpha, through the text shader, under a fresh top-left
    /// orthographic projection of the current viewport. Not reentrant.
    pub fn begin(&mut self, viewport_w: u32, viewport_h: u32) -> (cmds: Vec<GpuCommand>)
        requires
            !old(self).in_session,
        ensures
            final(self).in_session,
            final(self).vao == old(self).vao,
            final(self).vbo == old(self).vbo,
            final(self).shader == old(self).shader,
            final(self).proj_loc == old(self).proj_loc,
            cmd_models(cmds@) == begin_stream(
                old(self).shader,
                old(self).proj_loc,
                viewport_w,
                viewport_h,
            ),
    {
        self.in_session = true;
        let right: i128 = (viewport_w as i128) * SCALE;
        let bottom: i128 = (viewport_h as i128) * SCALE;
        let params = OrthoParams { left: 0, right, bottom, top: 0, near: SCALE, far: 100 * SCALE };
        let mut cmds: Vec<GpuCommand> = Vec::new();
        cmds.push(GpuCommand::DisableDepthTest);
        cmds.push(GpuCommand::SetTextureWrapClampS);
        cmds.push(GpuCommand::SetTextureWrapClampT);
        cmds.push(GpuCommand::EnableBlend);
        cmds.push(GpuCommand::SetBlendStraightAlpha);
        cmds.push(GpuCommand::BindShader(self.shader));
        cmds.push(GpuCommand::SetProjectionUniform { location: self.proj_loc, params });
        proof {
            assert(params == ortho_params(viewport_w, viewport_h));
            assert(cmd_models(cmds@) =~= begin_stream(
                self.shader,
                self.proj_loc,
                viewport_w,
                viewport_h,
            ));
        }
        cmds
    }

    /// Closes a session, restoring the two toggles `begin` changed: depth
    /// testing back on, blending back off. Symmetric with `begin` however
    /// many renders came between.
    pub fn end(&mut self) -> (cmds: Vec<GpuCommand>)
        requires
            old(self).in_session,
        ensures
            !final(self).in_session,
            final(self).vao == old(self).vao,
            final(self).vbo == old(self).vbo,
            final(self).shader == old(self).shader,
            final(self).proj_loc == old(self).proj_loc,
            cmd_models(cmds@) == end_stream(),
    {
        self.in_session = false;
        let mut cmds: Vec<GpuCommand> = Vec::new();
        cmds.push(GpuCommand::EnableDepthTest);
        cmds.push(GpuCommand::DisableBlend);
        proof {
            assert(cmd_models(cmds@) =~= end_stream());
        }
        cmds
    }

    /// Renders a text at a screen-space origin with a borrowed font: splits
    /// it into lines, lays out and batches each line, and returns the command
    /// stream that uploads and draws each line's batch in turn. Fails, with
    /// no commands to execute, on the first character the font does not
    /// cover.
    pub fn render(&mut self, text: &Vec<u8>, pos: Vec2, font: &Font) -> (res: Result<
        Vec<GpuCommand>,
        RenderError,
    >)
        requires
            old(self).in_session,
            font.wf(),
            -MAX_POSITION <= pos.x <= MAX_POSITION,
            -MAX_POSITION <= pos.y <= MAX_POSITION,
        ensures
            *final(self) == *old(self),
            match res {
                Ok(cmds) => {
                    &&& text_ok(*font, text@)
                    &&& cmd_models(cmds@) == render_stream(*old(self), *font, text@, pos)
                },
                Err(e) => {
                    &&& !text_ok(*font, text@)
                    &&& ({
                        let ls = lines_of(text@);
                        let bad = ls[first_bad_line(*font, ls) as int];
                        e matches RenderError::MissingGlyph { character, font_path, glyph_count }
                            && character == bad[first_bad_char(*font, bad) as int] && font_path
                            == font.file && glyph_count == font.glyphs@.len()
                    })
                },
            },
    {
        let color = Color3 { r: 0, g: SCALE, b: 0 };
        proof {
            assert(color == text_color());
        }
        let mut cmds: Vec<GpuCommand> = Vec::new();
        cmds.push(GpuCommand::BindTexture(font.texture_handle));
        cmds.push(GpuCommand::BindVertexArray(self.vao));
        cmds.push(GpuCommand::BindArrayBuffer(self.vbo));
        cmds.push(GpuCommand::EnableAttribSlot(POSITION_SLOT));
        cmds.push(
            GpuCommand::SetAttribPointer {
                slot: POSITION_SLOT,
                components: POSITION_COMPONENTS,
                stride_bytes: VERTEX_STRIDE_BYTES,
                offset_bytes: 0,
            },
        );
        cmds.push(GpuCommand::EnableAttribSlot(COLOR_SLOT));
        cmds.push(
            GpuCommand::SetAttribPointer {
                slot: COLOR_SLOT,
                components: COLOR_COMPONENTS,
                stride_bytes: VERTEX_STRIDE_BYTES,
                offset_bytes: COLOR_OFFSET_BYTES,
            },
        );
        proof {
            assert(cmd_models(cmds@) =~= render_prologue(*self, *font));
            assert(line_batches(*font, lines_of(text@).take(0), pos, 0) == Seq::<
                CmdModel,
            >::empty());
            assert(cmd_models(cmds@) + Seq::<CmdModel>::empty() =~= cmd_models(cmds@));
        }
        let lines = split_lines(text);
        let ghost ls = lines_of(text@);
        proof {
            assert(ls.take(0) =~= Seq::<Seq<u8>>::empty());
        }
        let mut k: usize = 0;
        while k < lines.len()
            invariant
                old(self).in_session,
                *self == *old(self),
                font.wf(),
                color == text_color(),
                -MAX_POSITION <= pos.x <= MAX_POSITION,
                -MAX_POSITION <= pos.y <= MAX_POSITION,
                k <= lines@.len(),
                line_views(lines@) == ls,
                ls == lines_of(text@),
                forall|i: int| 0 <= i < k ==> line_ok(*font, #[trigger] ls[i]),
                cmd_models(cmds@) == render_prologue(*self, *font) + line_batches(
                    *font,
                    ls.take(k as int),
                    pos,
                    0,
                ),
            decreases lines@.len() - k,
        {
            proof {
                assert(lines@[k as int]@ == ls[k as int]);
            }
            let ky: i128 = (k as i128) + 1;
            proof {
                assert(-(18446744073709551616int * MAX_METRIC) <= ky * font.height
                    <= 18446744073709551616int * MAX_METRIC) by (nonlinear_arith)
                    requires
                        1 <= ky <= 18446744073709551616int,
                        -MAX_METRIC <= font.height <= MAX_METRIC,
                ;
            }
            let oy: i128 = pos.y + ky * font.height;
            match layout_line(font, &lines[k], pos.x, oy, color) {
                Err(e) => {
                    proof {
                        lemma_first_bad_line_at(*font, ls, k as int);
                        assert(lines_of(text@)[k as int] == ls[k as int]);
                        assert(!text_ok(*font, text@));
                    }
                    return Err(e);
                },
                Ok(pair) => {
                    let (verts, _line_end) = pair;
                    let n: usize = verts.len();
                    let ghost prev = cmds@;
                    let ghost vm = models_of(verts@);
                    cmds.push(GpuCommand::UploadVertices(verts));
                    cmds.push(GpuCommand::DrawTriangles(n));
                    proof {
                        assert(ls.take(k as int + 1) =~= ls.take(k as int).push(ls[k as int]));
                        lemma_line_batches_snoc(*font, ls.take(k as int), ls[k as int], pos, 0);
                        assert(line_origin_y(pos.y as int, font.height as int, k as int) == oy
                            as int);
                        assert(cmd_models(cmds@) =~= cmd_models(prev) + seq![
                            CmdModel::UploadVertices(vm),
                            CmdModel::DrawTriangles(n as int),
                        ]);
                        assert(cmd_models(prev) + upload_and_draw(*font, ls[k as int], pos, k as int)
                            =~= cmd_models(cmds@));
                        assert((render_prologue(*self, *font) + line_batches(
                            *font,
                            ls.take(k as int),
                            pos,
                            0,
                        )) + upload_and_draw(*font, ls[k as int], pos, k as int) =~= render_prologue(
                            *self,
                            *font,
                        ) + (line_batches(*font, ls.take(k as int), pos, 0) + upload_and_draw(
                            *font,
                            ls[k as int],
                            pos,
                            k as int,
                        )));
                    }
                    k = k + 1;
                },
            }
        }
        proof {
            assert(ls.take(ls.len() as int) =~= ls);
            assert forall|i: int| 0 <= i < lines_of(text@).len() implies line_ok(
                *font,
                #[trigger] lines_of(text@)[i],
            ) by {
                assert(lines_of(text@)[i] == ls[i]);
            }
        }
        let ghost before_epilogue = cmds@;
        cmds.push(GpuCommand::DisableAttribSlot(POSITION_SLOT));
        cmds.push(GpuCommand::DisableAttribSlot(COLOR_SLOT));
        cmds.push(GpuCommand::BindArrayBuffer(0));
        cmds.push(GpuCommand::BindVertexArray(0));
        proof {
            assert(cmd_models(cmds@) =~= cmd_models(before_epilogue) + render_epilogue());
            assert((render_prologue(*self, *font) + line_batches(*font, ls, pos, 0))
                + render_epilogue() =~= render_stream(*self, *font, text@, pos));
        }
        Ok(cmds)
    }
}

} // verus!
