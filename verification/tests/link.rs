use quad_render::BufferHandle;
use quad_render::Color2D;
use quad_render::Color2DGradient;
use quad_render::LinkSession;
use quad_render::ProgramHandle;
use quad_render::RenderError;
use quad_render::ShaderStage;
use quad_render::UniformHandle;
use quad_render::link_program;

fn linked_ok(id: u32) -> Result<ProgramHandle, RenderError> {
    let session = LinkSession::begin()
        .program_created(Some(ProgramHandle(id)))
        .shader_compiled(true, String::new())
        .shader_compiled(true, String::new())
        .link_checked(true, String::new());
    assert!(session.is_complete());
    link_program(session)
}

#[test]
fn successful_protocol_yields_the_program() {
    assert_eq!(linked_ok(7), Ok(ProgramHandle(7)));
}

#[test]
fn failed_program_creation_is_resource_creation() {
    let session = LinkSession::begin().program_created(None);
    assert!(session.is_complete());
    assert_eq!(link_program(session), Err(RenderError::ResourceCreation));
}

#[test]
fn failed_vertex_compile_reports_stage_and_log() {
    let session = LinkSession::begin()
        .program_created(Some(ProgramHandle(1)))
        .shader_compiled(false, String::from("bad vertex"));
    assert!(session.is_complete());
    assert_eq!(
        link_program(session),
        Err(RenderError::ShaderCompile { stage: ShaderStage::Vertex, log: String::from("bad vertex") })
    );
}

#[test]
fn failed_fragment_compile_reports_stage_and_log() {
    let session = LinkSession::begin()
        .program_created(Some(ProgramHandle(1)))
        .shader_compiled(true, String::new())
        .shader_compiled(false, String::from("bad fragment"));
    assert!(session.is_complete());
    assert_eq!(
        link_program(session),
        Err(RenderError::ShaderCompile {
            stage: ShaderStage::Fragment,
            log: String::from("bad fragment"),
        })
    );
}

#[test]
fn failed_link_reports_log_and_no_handle() {
    let session = LinkSession::begin()
        .program_created(Some(ProgramHandle(1)))
        .shader_compiled(true, String::new())
        .shader_compiled(true, String::new())
        .link_checked(false, String::from("varying mismatch"));
    assert!(session.is_complete());
    assert_eq!(
        link_program(session),
        Err(RenderError::ProgramLink { log: String::from("varying mismatch") })
    );
}

#[test]
fn flat_quad_construction_succeeds_with_all_parts() {
    let d = Color2D::new(
        linked_ok(3),
        Some(BufferHandle(4)),
        Some(UniformHandle(5)),
        Some(UniformHandle(6)),
    )
    .unwrap();
    assert_eq!(d.program, ProgramHandle(3));
    assert_eq!(d.gl_buffer, BufferHandle(4));
    assert_eq!(d.u_color, UniformHandle(5));
    assert_eq!(d.u_transform, UniformHandle(6));
    assert_eq!(d.vertex_buffer_length, 12);
}

#[test]
fn link_tolerates_unused_uniform_but_lookup_does_not() {
    // A pair whose fragment stage declares a uniform the vertex stage
    // never mentions still links: the protocol reports success. The
    // drawable then fails only when the name it needs is absent from the
    // linked program.
    let link_result = linked_ok(9);
    assert!(link_result.is_ok());
    let d = Color2D::new(
        link_result,
        Some(BufferHandle(1)),
        None,
        Some(UniformHandle(2)),
    );
    assert_eq!(d, Err(RenderError::MissingUniform { name: "uColor" }));
}

#[test]
fn flat_quad_missing_transform_uniform() {
    let d = Color2D::new(
        linked_ok(1),
        Some(BufferHandle(1)),
        Some(UniformHandle(1)),
        None,
    );
    assert_eq!(d, Err(RenderError::MissingUniform { name: "uTransform" }));
}

#[test]
fn flat_quad_link_error_passes_through() {
    let d = Color2D::new(
        Err(RenderError::ProgramLink { log: String::from("nope") }),
        Some(BufferHandle(1)),
        Some(UniformHandle(1)),
        Some(UniformHandle(2)),
    );
    assert_eq!(d, Err(RenderError::ProgramLink { log: String::from("nope") }));
}

#[test]
fn flat_quad_missing_buffer_is_resource_creation() {
    let d = Color2D::new(linked_ok(1), None, Some(UniformHandle(1)), Some(UniformHandle(2)));
    assert_eq!(d, Err(RenderError::ResourceCreation));
}

#[test]
fn gradient_quad_construction_and_errors() {
    let d = Color2DGradient::new(
        linked_ok(2),
        Some(BufferHandle(10)),
        Some(BufferHandle(11)),
        Some(BufferHandle(12)),
        Some(UniformHandle(13)),
    )
    .unwrap();
    assert_eq!(d.program, ProgramHandle(2));
    assert_eq!(d.gl_vertex_buffer, BufferHandle(10));
    assert_eq!(d.color_buffer, BufferHandle(12));
    assert_eq!(d.index_count, 6);
    assert_eq!(d.u_transform, UniformHandle(13));

    let missing_buffer = Color2DGradient::new(
        linked_ok(2),
        Some(BufferHandle(10)),
        None,
        Some(BufferHandle(12)),
        Some(UniformHandle(13)),
    );
    assert_eq!(missing_buffer, Err(RenderError::ResourceCreation));

    let missing_uniform = Color2DGradient::new(
        linked_ok(2),
        Some(BufferHandle(10)),
        Some(BufferHandle(11)),
        Some(BufferHandle(12)),
        None,
    );
    assert_eq!(missing_uniform, Err(RenderError::MissingUniform { name: "uTransform" }));
}
