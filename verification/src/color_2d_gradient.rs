use vstd::prelude::*;

use crate::commands::BufferHandle;
use crate::commands::GlCommand;
use crate::commands::ProgramHandle;
use crate::commands::UniformHandle;
use crate::link::RenderError;
use crate::matrix::MAX_DIM;
use crate::matrix::rect_transform;
use crate::matrix::rect_transform_rows;
use crate::palette::ChannelValue;

verus! {

/// The four vertices of the gradient quad: the unit square's corners,
/// two coordinates per vertex, in the order the index topology expects.
pub open spec fn gradient_quad_vertices() -> Seq<i64> {
    seq![0, 1, 0, 0, 1, 1, 1, 0]
}

/// The fixed six-index topology of the gradient quad: two triangles
/// sharing the diagonal edge between vertices 1 and 2.
pub open spec fn gradient_quad_indices() -> Seq<u16> {
    seq![0, 1, 2, 2, 1, 3]
}

/// The gradient quad drawable: one linked program, a static four-vertex
/// buffer, a dynamic per-vertex color buffer rewritten every draw, the
/// index count of its fixed topology, and its transform uniform location.
/// The index buffer itself is uploaded at construction and stays bound.
#[derive(Clone, Copy, PartialEq, Eq, Structural, Debug)]
pub struct Color2DGradient {
    pub program: ProgramHandle,
    pub color_buffer: BufferHandle,
    pub index_count: usize,
    pub gl_vertex_buffer: BufferHandle,
    pub u_transform: UniformHandle,
}

/// The draw protocol of the gradient quad for one screen rectangle and
/// one palette: bind program and geometry, configure the position and
/// color attributes, rewrite the dynamic color buffer with the palette,
/// upload the rectangle transform, then draw the six stored indices.
pub open spec fn gradient_draw_cmds(
    d: Color2DGradient,
    cmds: Seq<GlCommand>,
    bottom: int,
    top: int,
    left: int,
    right: int,
    w: int,
    h: int,
    colors: Seq<ChannelValue>,
) -> bool {
    &&& cmds.len() == 10
    &&& cmds[0] == (GlCommand::UseProgram { program: d.program })
    &&& cmds[1] == (GlCommand::BindArrayBuffer { buffer: d.gl_vertex_buffer })
    &&& cmds[2] == (GlCommand::ConfigureAttribute { slot: 0, size: 2 })
    &&& cmds[3] == (GlCommand::EnableAttribute { slot: 0 })
    &&& cmds[4] == (GlCommand::BindArrayBuffer { buffer: d.color_buffer })
    &&& cmds[5] == (GlCommand::ConfigureAttribute { slot: 1, size: 4 })
    &&& cmds[6] == (GlCommand::EnableAttribute { slot: 1 })
    &&& cmds[7] is UploadDynamicColorData
    &&& cmds[7]->UploadDynamicColorData_colors@ == colors
    &&& cmds[8] is UploadMatrixUniform
    &&& cmds[8]->UploadMatrixUniform_location == d.u_transform
    &&& cmds[8]->UploadMatrixUniform_matrix.den == (w * h) * (w * h)
    &&& forall|k: int|
        0 <= k < 16 ==> #[trigger] cmds[8]->UploadMatrixUniform_matrix.m@[k]
            == rect_transform_rows(left, right, bottom, top, w, h)[k]
    &&& cmds[9] == (GlCommand::DrawIndexedTriangles { index_count: d.index_count })
}

impl Color2DGradient {
    /// Assemble the drawable from the outcomes of the construction-time
    /// GPU calls: the finished link protocol, the three created buffers
    /// (static vertex, static index, dynamic color), and the transform
    /// uniform lookup. `None` stands for a step the host never reached,
    /// or that the context answered with no handle.
    ///
    /// Exactly the first failed step's error comes back, in construction
    /// order: the link failure as it is, any missing buffer as a
    /// resource-creation failure, and an absent `uTransform` as
    /// `MissingUniform`.
    pub fn new(
        link_result: Result<ProgramHandle, RenderError>,
        gl_vertex_buffer: Option<BufferHandle>,
        gl_index_buffer: Option<BufferHandle>,
        color_buffer: Option<BufferHandle>,
        u_transform: Option<UniformHandle>,
    ) -> (r: Result<Color2DGradient, RenderError>)
        ensures
            link_result is Err ==> r is Err && r->Err_0 == link_result->Err_0,
            link_result is Ok && (gl_vertex_buffer is None || gl_index_buffer is None
                || color_buffer is None) ==> r == Err::<Color2DGradient, RenderError>(
                RenderError::ResourceCreation,
            ),
            link_result is Ok && gl_vertex_buffer is Some && gl_index_buffer is Some
                && color_buffer is Some && u_transform is None ==> r is Err && r->Err_0
                is MissingUniform && r->Err_0->name@ == "uTransform"@,
            link_result is Ok && gl_vertex_buffer is Some && gl_index_buffer is Some
                && color_buffer is Some && u_transform is Some ==> r is Ok && r->Ok_0 == (
            Color2DGradient {
                program: link_result->Ok_0,
                color_buffer: color_buffer->Some_0,
                index_count: 6,
                gl_vertex_buffer: gl_vertex_buffer->Some_0,
                u_transform: u_transform->Some_0,
            }),
    {
        let program = match link_result {
            Ok(p) => p,
            Err(e) => {
                return Err(e);
            },
        };
        let gl_vertex_buffer = match gl_vertex_buffer {
            Some(b) => b,
            None => {
                return Err(RenderError::ResourceCreation);
            },
        };
        if gl_index_buffer.is_none() {
            return Err(RenderError::ResourceCreation);
        }
        let color_buffer = match color_buffer {
            Some(b) => b,
            None => {
                return Err(RenderError::ResourceCreation);
            },
        };
        let u_transform = match u_transform {
            Some(u) => u,
            None => {
                return Err(RenderError::MissingUniform { name: "uTransform" });
            },
        };
        Ok(
            Color2DGradient {
                program,
                color_buffer,
                index_count: 6,
                gl_vertex_buffer,
                u_transform,
            },
        )
    }

    /// The one-time construction uploads: fill the static vertex buffer
    /// with the four-corner unit quad, then bind the index buffer — which
    /// stays bound for every later indexed draw — and fill it with the
    /// fixed six-index topology.
    pub fn setup_commands(&self, gl_index_buffer: BufferHandle) -> (cmds: Vec<GlCommand>)
        ensures
            cmds@.len() == 4,
            cmds@[0] == (GlCommand::BindArrayBuffer { buffer: self.gl_vertex_buffer }),
            cmds@[1] is UploadStaticVertexData,
            cmds@[1]->UploadStaticVertexData_coords@ == gradient_quad_vertices(),
            cmds@[2] == (GlCommand::BindIndexBuffer { buffer: gl_index_buffer }),
            cmds@[3] is UploadStaticIndexData,
            cmds@[3]->UploadStaticIndexData_indices@ == gradient_quad_indices(),
    {
        let mut coords: Vec<i64> = Vec::new();
        coords.push(0);
        coords.push(1);
        coords.push(0);
        coords.push(0);
        coords.push(1);
        coords.push(1);
        coords.push(1);
        coords.push(0);
        proof {
            assert(coords@ =~= gradient_quad_vertices());
        }
        let mut indices: Vec<u16> = Vec::new();
        indices.push(0);
        indices.push(1);
        indices.push(2);
        indices.push(2);
        indices.push(1);
        indices.push(3);
        proof {
            assert(indices@ =~= gradient_quad_indices());
        }
        let mut cmds: Vec<GlCommand> = Vec::new();
        cmds.push(GlCommand::BindArrayBuffer { buffer: self.gl_vertex_buffer });
        cmds.push(GlCommand::UploadStaticVertexData { coords });
        cmds.push(GlCommand::BindIndexBuffer { buffer: gl_index_buffer });
        cmds.push(GlCommand::UploadStaticIndexData { indices });
        cmds
    }

    /// The per-frame draw of the gradient quad over one screen rectangle:
    /// the dynamic color buffer is rewritten with the full sixteen-channel
    /// palette on every call, the transform is recomputed, and the fixed
    /// topology is drawn indexed.
    pub fn draw(
        &self,
        bottom: i64,
        top: i64,
        left: i64,
        right: i64,
        canvas_width: i64,
        canvas_height: i64,
        colors: &Vec<ChannelValue>,
    ) -> (cmds: Vec<GlCommand>)
        requires
            1 <= canvas_width <= MAX_DIM,
            1 <= canvas_height <= MAX_DIM,
            -MAX_DIM <= bottom <= MAX_DIM,
            -MAX_DIM <= top <= MAX_DIM,
            -MAX_DIM <= left <= MAX_DIM,
            -MAX_DIM <= right <= MAX_DIM,
            colors@.len() == 16,
        ensures
            gradient_draw_cmds(
                *self,
                cmds@,
                bottom as int,
                top as int,
                left as int,
                right as int,
                canvas_width as int,
                canvas_height as int,
                colors@,
            ),
    {
        let transform = rect_transform(left, right, bottom, top, canvas_width, canvas_height);
        let mut palette: Vec<ChannelValue> = Vec::new();
        let mut k: usize = 0;
        while k < colors.len()
            invariant
                k <= colors@.len(),
                palette@ =~= colors@.subrange(0, k as int),
            decreases colors@.len() - k,
        {
            palette.push(colors[k]);
            k = k + 1;
        }
        proof {
            assert(palette@ =~= colors@);
        }
        let mut cmds: Vec<GlCommand> = Vec::new();
        cmds.push(GlCommand::UseProgram { program: self.program });
        cmds.push(GlCommand::BindArrayBuffer { buffer: self.gl_vertex_buffer });
        cmds.push(GlCommand::ConfigureAttribute { slot: 0, size: 2 });
        cmds.push(GlCommand::EnableAttribute { slot: 0 });
        cmds.push(GlCommand::BindArrayBuffer { buffer: self.color_buffer });
        cmds.push(GlCommand::ConfigureAttribute { slot: 1, size: 4 });
        cmds.push(GlCommand::EnableAttribute { slot: 1 });
        cmds.push(GlCommand::UploadDynamicColorData { colors: palette });
        cmds.push(GlCommand::UploadMatrixUniform { location: self.u_transform, matrix: transform });
        cmds.push(GlCommand::DrawIndexedTriangles { index_count: self.index_count });
        cmds
    }
}

} // verus!
