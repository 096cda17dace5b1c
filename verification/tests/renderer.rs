use quad_render::BufferHandle;
use quad_render::ChannelValue;
use quad_render::Color2D;
use quad_render::Color2DGradient;
use quad_render::GlCommand;
use quad_render::LinkSession;
use quad_render::ProgramHandle;
use quad_render::Rat;
use quad_render::RustClient;
use quad_render::UniformHandle;
use quad_render::gradient_palette;
use quad_render::link_program;

fn link(id: u32) -> Result<ProgramHandle, quad_render::RenderError> {
    link_program(
        LinkSession::begin()
            .program_created(Some(ProgramHandle(id)))
            .shader_compiled(true, String::new())
            .shader_compiled(true, String::new())
            .link_checked(true, String::new()),
    )
}

fn client() -> RustClient {
    let flat = Color2D::new(
        link(1),
        Some(BufferHandle(1)),
        Some(UniformHandle(1)),
        Some(UniformHandle(2)),
    )
    .unwrap();
    let gradient = Color2DGradient::new(
        link(2),
        Some(BufferHandle(2)),
        Some(BufferHandle(3)),
        Some(BufferHandle(4)),
        Some(UniformHandle(3)),
    )
    .unwrap();
    RustClient::new(flat, gradient)
}

fn eval(c: &ChannelValue) -> f64 {
    match c {
        ChannelValue::One => 1.0,
        ChannelValue::AbsSin { arg } => (arg.num as f64 / arg.den as f64).sin().abs(),
    }
}

#[test]
fn frame_plan_after_one_update() {
    let mut c = client();
    // One tick of the host clock stands for one second here.
    assert_eq!(c.update(1, 800, 600), Ok(()));
    let cmds = c.draw();
    assert_eq!(cmds.len(), 18);
    assert_eq!(cmds[0], GlCommand::Clear);

    // Exactly one unindexed draw of 6 vertices and one indexed draw of 6
    // indices.
    let plain: Vec<&GlCommand> =
        cmds.iter().filter(|c| matches!(c, GlCommand::DrawTriangles { .. })).collect();
    let indexed: Vec<&GlCommand> =
        cmds.iter().filter(|c| matches!(c, GlCommand::DrawIndexedTriangles { .. })).collect();
    assert_eq!(plain, vec![&GlCommand::DrawTriangles { vertex_count: 6 }]);
    assert_eq!(indexed, vec![&GlCommand::DrawIndexedTriangles { index_count: 6 }]);

    // The flat quad's color constant.
    assert_eq!(
        cmds[5],
        GlCommand::UploadColorUniform {
            location: UniformHandle(1),
            red: Rat { num: 0, den: 1 },
            green: Rat { num: 1, den: 2 },
            blue: Rat { num: 1, den: 4 },
            alpha: Rat { num: 1, den: 1 },
        }
    );

    // The flat quad's transform for [0,250]x[0,250] on an 800x600 canvas.
    let eps = 1e-9;
    match &cmds[6] {
        GlCommand::UploadMatrixUniform { location, matrix } => {
            assert_eq!(*location, UniformHandle(2));
            let den = matrix.den as f64;
            assert!((matrix.m[12] as f64 / den - (-1.0)).abs() < eps);
            assert!((matrix.m[13] as f64 / den - (-1.0)).abs() < eps);
            assert!((matrix.m[0] as f64 / den - 0.625).abs() < eps);
            assert!((matrix.m[5] as f64 / den - 2.0 * 250.0 / 600.0).abs() < eps);
        }
        other => panic!("expected matrix upload, got {:?}", other),
    }

    // The gradient quad's transform for [250,750]x[250,750].
    match &cmds[16] {
        GlCommand::UploadMatrixUniform { location, matrix } => {
            assert_eq!(*location, UniformHandle(3));
            let den = matrix.den as f64;
            assert!((matrix.m[12] as f64 / den - (2.0 * 250.0 / 800.0 - 1.0)).abs() < eps);
            assert!((matrix.m[13] as f64 / den - (2.0 * 250.0 / 600.0 - 1.0)).abs() < eps);
            assert!((matrix.m[0] as f64 / den - 2.0 * 500.0 / 800.0).abs() < eps);
            assert!((matrix.m[5] as f64 / den - 2.0 * 500.0 / 600.0).abs() < eps);
        }
        other => panic!("expected matrix upload, got {:?}", other),
    }

    // The color buffer rewrite carries the palette of animation time
    // 0.25 * 1.0: channel (i) of vertex v is |sin(0.25*k*(v+1))| for
    // k = 1, 1.15, 1.3, and alpha is one.
    match &cmds[15] {
        GlCommand::UploadDynamicColorData { colors } => {
            assert_eq!(colors.len(), 16);
            let t = 0.25;
            for v in 0..4 {
                let f = (v + 1) as f64;
                assert!((eval(&colors[4 * v]) - (t * f).sin().abs()).abs() < eps);
                assert!((eval(&colors[4 * v + 1]) - (t * 1.15 * f).sin().abs()).abs() < eps);
                assert!((eval(&colors[4 * v + 2]) - (t * 1.3 * f).sin().abs()).abs() < eps);
                assert_eq!(colors[4 * v + 3], ChannelValue::One);
            }
        }
        other => panic!("expected color data upload, got {:?}", other),
    }
}

#[test]
fn draw_on_zero_canvas_only_clears() {
    let c = client();
    let cmds = c.draw();
    assert_eq!(cmds, vec![GlCommand::Clear]);
}

#[test]
fn palette_frozen_under_zero_delta() {
    let mut c = client();
    assert_eq!(c.update(0, 100, 100), Ok(()));
    let first = match &c.draw()[15] {
        GlCommand::UploadDynamicColorData { colors } => colors.clone(),
        other => panic!("expected color data upload, got {:?}", other),
    };
    assert_eq!(c.update(0, 100, 100), Ok(()));
    let second = match &c.draw()[15] {
        GlCommand::UploadDynamicColorData { colors } => colors.clone(),
        other => panic!("expected color data upload, got {:?}", other),
    };
    assert_eq!(first, second);
    for (a, b) in first.iter().zip(second.iter()) {
        assert_eq!(eval(a), eval(b));
    }
}

#[test]
fn accumulated_time_is_quarter_of_delta_sum() {
    let mut c = client();
    let deltas: [u64; 5] = [3, 5, 7, 0, 11];
    for d in deltas {
        assert_eq!(c.update(d, 640, 480), Ok(()));
    }
    let sum: u64 = deltas.iter().sum();
    assert_eq!(c.time, sum);
    assert_eq!(c.time as f64 / 4.0, 0.25 * sum as f64);
}

#[test]
fn gradient_palette_has_exact_arguments() {
    let p = gradient_palette(4);
    assert_eq!(p.len(), 16);
    assert_eq!(p[0], ChannelValue::AbsSin { arg: Rat { num: 4, den: 4 } });
    assert_eq!(p[1], ChannelValue::AbsSin { arg: Rat { num: 92, den: 80 } });
    assert_eq!(p[2], ChannelValue::AbsSin { arg: Rat { num: 52, den: 40 } });
    assert_eq!(p[3], ChannelValue::One);
    assert_eq!(p[12], ChannelValue::AbsSin { arg: Rat { num: 16, den: 4 } });
    assert_eq!(p[13], ChannelValue::AbsSin { arg: Rat { num: 368, den: 80 } });
    assert_eq!(p[14], ChannelValue::AbsSin { arg: Rat { num: 208, den: 40 } });
    assert_eq!(p[15], ChannelValue::One);
}

#[test]
fn channels_stay_within_unit_interval() {
    for time in [0u64, 1, 2, 9, 1234, 987654] {
        let p = gradient_palette(time);
        for c in &p {
            let v = eval(c);
            assert!((0.0..=1.0).contains(&v));
        }
    }
}

#[test]
fn setup_commands_upload_static_geometry() {
    let c = client();
    let flat = c.program_color_2d.setup_commands();
    assert_eq!(flat.len(), 2);
    assert_eq!(flat[0], GlCommand::BindArrayBuffer { buffer: BufferHandle(1) });
    assert_eq!(
        flat[1],
        GlCommand::UploadStaticVertexData {
            coords: vec![0, 1, 0, 0, 1, 1, 1, 1, 0, 0, 1, 0],
        }
    );

    let grad = c.program_color_2d_gradient.setup_commands(BufferHandle(3));
    assert_eq!(grad.len(), 4);
    assert_eq!(grad[0], GlCommand::BindArrayBuffer { buffer: BufferHandle(2) });
    assert_eq!(
        grad[1],
        GlCommand::UploadStaticVertexData { coords: vec![0, 1, 0, 0, 1, 1, 1, 0] }
    );
    assert_eq!(grad[2], GlCommand::BindIndexBuffer { buffer: BufferHandle(3) });
    assert_eq!(grad[3], GlCommand::UploadStaticIndexData { indices: vec![0, 1, 2, 2, 1, 3] });
}

#[test]
fn frame_plan_at_largest_canvas() {
    let mut c = client();
    assert_eq!(c.update(1, 16384, 16384), Ok(()));
    let cmds = c.draw();
    assert_eq!(cmds.len(), 18);
    match &cmds[6] {
        GlCommand::UploadMatrixUniform { matrix, .. } => {
            let den = matrix.den as f64;
            let eps = 1e-9;
            assert!((matrix.m[12] as f64 / den - (-1.0)).abs() < eps);
            assert!((matrix.m[0] as f64 / den - 2.0 * 250.0 / 16384.0).abs() < eps);
        }
        other => panic!("expected matrix upload, got {:?}", other),
    }
}

#[test]
fn palette_at_the_time_limit() {
    let p = gradient_palette(quad_render::TIME_LIMIT);
    assert_eq!(p.len(), 16);
    for v in 0..4 {
        assert_eq!(p[4 * v + 3], ChannelValue::One);
        let val = eval(&p[4 * v]);
        assert!((0.0..=1.0).contains(&val));
    }
}
