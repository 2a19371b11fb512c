//! The GPU commands the renderer decides on. The library computes command
//! streams; a host executes them against the live graphics context, converting
//! subunit values to floats at that edge and nowhere else.

use crate::geometry::SCALE;
use crate::geometry::Vertex;
use crate::geometry::VertexModel;
use crate::geometry::models_of;
use vstd::prelude::*;

verus! {

/// Byte stride of one packed vertex on the wire: seven 32-bit floats.
pub const VERTEX_STRIDE_BYTES: u32 = 28;

/// Byte offset of the color fields within a packed vertex.
pub const COLOR_OFFSET_BYTES: u32 = 16;

/// Vertex attribute slot carrying position and texture coordinates.
pub const POSITION_SLOT: u32 = 0;

/// Number of floats in the position attribute: x, y, u, v.
pub const POSITION_COMPONENTS: u32 = 4;

/// Vertex attribute slot carrying the color.
pub const COLOR_SLOT: u32 = 1;

/// Number of floats in the color attribute: r, g, b.
pub const COLOR_COMPONENTS: u32 = 3;

/// The parameters of an orthographic projection, in subunits.
#[derive(Clone, Copy, Debug, PartialEq, Eq, Structural)]
pub struct OrthoParams {
    pub left: i128,
    pub right: i128,
    pub bottom: i128,
    pub top: i128,
    pub near: i128,
    pub far: i128,
}

/// The top-left-origin projection a session uses: left and top at zero, right
/// and bottom at the viewport's pixel size, near plane 1, far plane 100.
pub open spec fn ortho_params(viewport_w: u32, viewport_h: u32) -> OrthoParams {
    OrthoParams {
        left: 0,
        right: (viewport_w * SCALE) as i128,
        bottom: (viewport_h * SCALE) as i128,
        top: 0,
        near: SCALE,
        far: (100 * SCALE) as i128,
    }
}

/// One GPU call, with every operand the call needs. Commands are executed in
/// stream order by the host.
#[derive(Debug, PartialEq)]
pub enum GpuCommand {
    EnableDepthTest,
    DisableDepthTest,
    EnableBlend,
    DisableBlend,
    /// Blend with straight-alpha compositing: source alpha, one minus source alpha.
    SetBlendStraightAlpha,
    /// Clamp the bound texture's horizontal wrap mode to the edge.
    SetTextureWrapClampS,
    /// Clamp the bound texture's vertical wrap mode to the edge.
    SetTextureWrapClampT,
    BindShader(u32),
    /// Point a sampler uniform at a texture unit.
    SetSamplerUniform { location: i32, unit: i32 },
    /// Upload an orthographic projection matrix to a matrix uniform.
    SetProjectionUniform { location: i32, params: OrthoParams },
    BindTexture(u32),
    BindVertexArray(u32),
    BindArrayBuffer(u32),
    EnableAttribSlot(u32),
    DisableAttribSlot(u32),
    /// Describe one vertex attribute slot of the packed wire format.
    SetAttribPointer { slot: u32, components: u32, stride_bytes: u32, offset_bytes: u32 },
    /// Replace the bound stream buffer's entire contents with these vertices.
    UploadVertices(Vec<Vertex>),
    /// Draw this many vertices from the bound buffer as a triangle list.
    DrawTriangles(usize),
}

/// The mathematical value of one GPU command.
pub enum CmdModel {
    EnableDepthTest,
    DisableDepthTest,
    EnableBlend,
    DisableBlend,
    SetBlendStraightAlpha,
    SetTextureWrapClampS,
    SetTextureWrapClampT,
    BindShader(u32),
    SetSamplerUniform { location: i32, unit: i32 },
    SetProjectionUniform { location: i32, params: OrthoParams },
    BindTexture(u32),
    BindVertexArray(u32),
    BindArrayBuffer(u32),
    EnableAttribSlot(u32),
    DisableAttribSlot(u32),
    SetAttribPointer { slot: u32, components: u32, stride_bytes: u32, offset_bytes: u32 },
    UploadVertices(Seq<VertexModel>),
    DrawTriangles(int),
}

impl View for GpuCommand {
    type V = CmdModel;

    open spec fn view(&self) -> CmdModel {
        match *self {
            GpuCommand::EnableDepthTest => CmdModel::EnableDepthTest,
            GpuCommand::DisableDepthTest => CmdModel::DisableDepthTest,
            GpuCommand::EnableBlend => CmdModel::EnableBlend,
            GpuCommand::DisableBlend => CmdModel::DisableBlend,
            GpuCommand::SetBlendStraightAlpha => CmdModel::SetBlendStraightAlpha,
            GpuCommand::SetTextureWrapClampS => CmdModel::SetTextureWrapClampS,
            GpuCommand::SetTextureWrapClampT => CmdModel::SetTextureWrapClampT,
            GpuCommand::BindShader(handle) => CmdModel::BindShader(handle),
            GpuCommand::SetSamplerUniform { location, unit } => CmdModel::SetSamplerUniform {
                location,
                unit,
            },
            GpuCommand::SetProjectionUniform { location, params } => CmdModel::SetProjectionUniform {
                location,
                params,
            },
            GpuCommand::BindTexture(handle) => CmdModel::BindTexture(handle),
            GpuCommand::BindVertexArray(handle) => CmdModel::BindVertexArray(handle),
            GpuCommand::BindArrayBuffer(handle) => CmdModel::BindArrayBuffer(handle),
            GpuCommand::EnableAttribSlot(slot) => CmdModel::EnableAttribSlot(slot),
            GpuCommand::DisableAttribSlot(slot) => CmdModel::DisableAttribSlot(slot),
            GpuCommand::SetAttribPointer { slot, components, stride_bytes, offset_bytes } => (
            CmdModel::SetAttribPointer { slot, components, stride_bytes, offset_bytes }),
            GpuCommand::UploadVertices(ref verts) => CmdModel::UploadVertices(models_of(verts@)),
            GpuCommand::DrawTriangles(count) => CmdModel::DrawTriangles(count as int),
        }
    }
}

/// The models of a command sequence, element by element.
pub open spec fn cmd_models(s: Seq<GpuCommand>) -> Seq<CmdModel> {
    Seq::new(s.len(), |i: int| s[i]@)
}

} // verus!
