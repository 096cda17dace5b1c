use vstd::prelude::*;

use crate::commands::BufferHandle;
use crate::commands::GlCommand;
use crate::commands::ProgramHandle;
use crate::commands::UniformHandle;
use crate::link::RenderError;
use crate::matrix::MAX_DIM;
use crate::matrix::rect_transform;
use crate::matrix::rect_transform_rows;
use crate::rat::Rat;

verus! {

/// The six vertices of the flat quad: two triangles covering the unit
/// square, positions only, two coordinates per vertex.
pub open spec fn flat_quad_vertices() -> Seq<i64> {
    seq![0, 1, 0, 0, 1, 1, 1, 1, 0, 0, 1, 0]
}

/// The flat-color quad drawable: one linked program, one static vertex
/// buffer holding the six-vertex unit quad, and the two uniform locations
/// its shader pair exposes.
#[derive(Clone, Copy, PartialEq, Eq, Structural, Debug)]
pub struct Color2D {
    pub program: ProgramHandle,
    pub vertex_buffer_length: usize,
    pub gl_buffer: BufferHandle,
    pub u_color: UniformHandle,
    pub u_transform: UniformHandle,
}

/// The draw protocol of the flat quad for one screen rectangle: bind
/// program and geometry, configure the position attribute, upload the
/// fixed color constant (0, 0.5, 0.25, 1) and the rectangle transform,
/// then draw the six vertices unindexed.
pub open spec fn flat_draw_cmds(
    d: Color2D,
    cmds: Seq<GlCommand>,
    bottom: int,
    top: int,
    left: int,
    right: int,
    w: int,
    h: int,
) -> bool {
    &&& cmds.len() == 7
    &&& cmds[0] == (GlCommand::UseProgram { program: d.program })
    &&& cmds[1] == (GlCommand::BindArrayBuffer { buffer: d.gl_buffer })
    &&& cmds[2] == (GlCommand::ConfigureAttribute { slot: 0, size: 2 })
    &&& cmds[3] == (GlCommand::EnableAttribute { slot: 0 })
    &&& cmds[4] == (GlCommand::UploadColorUniform {
        location: d.u_color,
        red: Rat { num: 0, den: 1 },
        green: Rat { num: 1, den: 2 },
        blue: Rat { num: 1, den: 4 },
        alpha: Rat { num: 1, den: 1 },
    })
    &&& cmds[5] is UploadMatrixUniform
    &&& cmds[5]->UploadMatrixUniform_location == d.u_transform
    &&& cmds[5]->UploadMatrixUniform_matrix.den == (w * h) * (w * h)
    &&& forall|k: int|
        0 <= k < 16 ==> #[trigger] cmds[5]->UploadMatrixUniform_matrix.m@[k]
            == rect_transform_rows(left, right, bottom, top, w, h)[k]
    &&& cmds[6] == (GlCommand::DrawTriangles { vertex_count: (d.vertex_buffer_length / 2) as usize })
}

impl Color2D {
    /// Assemble the drawable from the outcomes of the construction-time
    /// GPU calls: the finished link protocol, the created vertex buffer,
    /// and the two uniform lookups (`None` for a step the host never
    /// reached, or that the context answered with no handle).
    ///
    /// Exactly the first failed step's error comes back: a link failure
    /// as it is, a missing buffer as a resource-creation failure, and a
    /// missing uniform name — the shader pair out of sync with this
    /// drawable — as `MissingUniform`, `uColor` checked first.
    pub fn new(
        link_result: Result<ProgramHandle, RenderError>,
        gl_buffer: Option<BufferHandle>,
        u_color: Option<UniformHandle>,
        u_transform: Option<UniformHandle>,
    ) -> (r: Result<Color2D, RenderError>)
        ensures
            link_result is Err ==> r is Err && r->Err_0 == link_result->Err_0,
            link_result is Ok && gl_buffer is None ==> r == Err::<Color2D, RenderError>(
                RenderError::ResourceCreation,
            ),
            link_result is Ok && gl_buffer is Some && u_color is None ==> r is Err && r->Err_0
                is MissingUniform && r->Err_0->name@ == "uColor"@,
            link_result is Ok && gl_buffer is Some && u_color is Some && u_transform is None ==> r
                is Err && r->Err_0 is MissingUniform && r->Err_0->name@ == "uTransform"@,
            link_result is Ok && gl_buffer is Some && u_color is Some && u_transform is Some ==> r
                is Ok && r->Ok_0 == (Color2D {
                program: link_result->Ok_0,
                vertex_buffer_length: 12,
                gl_buffer: gl_buffer->Some_0,
                u_color: u_color->Some_0,
                u_transform: u_transform->Some_0,
            }),
    {
        let program = match link_result {
            Ok(p) => p,
            Err(e) => {
                return Err(e);
            },
        };
        let gl_buffer = match gl_buffer {
            Some(b) => b,
            None => {
                return Err(RenderError::ResourceCreation);
            },
        };
        let u_color = match u_color {
            Some(u) => u,
            None => {
                return Err(RenderError::MissingUniform { name: "uColor" });
            },
        };
        let u_transform = match u_transform {
            Some(u) => u,
            None => {
                return Err(RenderError::MissingUniform { name: "uTransform" });
            },
        };
        Ok(Color2D { program, vertex_buffer_length: 12, gl_buffer, u_color, u_transform })
    }

    /// The one-time construction uploads: bind the vertex buffer and fill
    /// it with the six-vertex unit quad.
    pub fn setup_commands(&self) -> (cmds: Vec<GlCommand>)
        ensures
            cmds@.len() == 2,
            cmds@[0] == (GlCommand::BindArrayBuffer { buffer: self.gl_buffer }),
            cmds@[1] is UploadStaticVertexData,
            cmds@[1]->UploadStaticVertexData_coords@ == flat_quad_vertices(),
    {
        let mut coords: Vec<i64> = Vec::new();
        coords.push(0);
        coords.push(1);
        coords.push(0);
        coords.push(0);
        coords.push(1);
        coords.push(1);
        coords.push(1);
        coords.push(1);
        coords.push(0);
        coords.push(0);
        coords.push(1);
        coords.push(0);
        proof {
            assert(coords@ =~= flat_quad_vertices());
        }
        let mut cmds: Vec<GlCommand> = Vec::new();
        cmds.push(GlCommand::BindArrayBuffer { buffer: self.gl_buffer });
        cmds.push(GlCommand::UploadStaticVertexData { coords });
        cmds
    }

    /// The per-frame draw of the flat quad over one screen rectangle: no
    /// buffer is rewritten, only the two uniforms change, and the same
    /// arguments always yield the same command list.
    pub fn draw(
        &self,
        bottom: i64,
        top: i64,
        left: i64,
        right: i64,
        canvas_width: i64,
        canvas_height: i64,
    ) -> (cmds: Vec<GlCommand>)
        requires
            1 <= canvas_width <= MAX_DIM,
            1 <= canvas_height <= MAX_DIM,
            -MAX_DIM <= bottom <= MAX_DIM,
            -MAX_DIM <= top <= MAX_DIM,
            -MAX_DIM <= left <= MAX_DIM,
            -MAX_DIM <= right <= MAX_DIM,
        ensures
            flat_draw_cmds(
                *self,
                cmds@,
                bottom as int,
                top as int,
                left as int,
                right as int,
                canvas_width as int,
                canvas_height as int,
            ),
    {
        let transform = rect_transform(left, right, bottom, top, canvas_width, canvas_height);
        let mut cmds: Vec<GlCommand> = Vec::new();
        cmds.push(GlCommand::UseProgram { program: self.program });
        cmds.push(GlCommand::BindArrayBuffer { buffer: self.gl_buffer });
        cmds.push(GlCommand::ConfigureAttribute { slot: 0, size: 2 });
        cmds.push(GlCommand::EnableAttribute { slot: 0 });
        cmds.push(
            GlCommand::UploadColorUniform {
                location: self.u_color,
                red: Rat { num: 0, den: 1 },
                green: Rat { num: 1, den: 2 },
                blue: Rat { num: 1, den: 4 },
                alpha: Rat { num: 1, den: 1 },
            },
        );
        cmds.push(GlCommand::UploadMatrixUniform { location: self.u_transform, matrix: transform });
        cmds.push(GlCommand::DrawTriangles { vertex_count: self.vertex_buffer_length / 2 });
        cmds
    }
}

} // verus!
