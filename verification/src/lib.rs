//! A verified core for a small immediate-mode 2D quad renderer.
//!
//! The crate models the CPU side of a GPU rendering pipeline exactly: the
//! coordinate-transform matrices, the per-frame shared state, the program
//! link protocol, the gradient color animation, and the per-frame draw
//! command plan. All quantities are exact integers or rationals; the host
//! that owns the GPU context converts them to floating point when it
//! replays the command plan.

use vstd::prelude::*;

mod app_state;
mod color_2d;
mod color_2d_gradient;
mod commands;
mod link;
mod matrix;
mod palette;
mod rat;
mod shaders;

pub use app_state::AppState;
pub use app_state::StateStore;
pub use app_state::get_current_state;
pub use app_state::update_dynamic_data;
pub use color_2d::Color2D;
pub use color_2d::flat_draw_cmds;
pub use color_2d::flat_quad_vertices;
pub use color_2d_gradient::Color2DGradient;
pub use color_2d_gradient::gradient_draw_cmds;
pub use color_2d_gradient::gradient_quad_indices;
pub use color_2d_gradient::gradient_quad_vertices;
pub use commands::BufferHandle;
pub use commands::GlCommand;
pub use commands::ProgramHandle;
pub use commands::UniformHandle;
pub use link::LinkSession;
pub use link::RenderError;
pub use link::ShaderStage;
pub use link::link_program;
pub use matrix::ENTRY_LIMIT;
pub use matrix::MAX_DIM;
pub use matrix::Mat4;
pub use matrix::identity_matrix;
pub use matrix::lemma_multiply_identity;
pub use matrix::lemma_transform_maps_unit_quad;
pub use matrix::mul_entry;
pub use matrix::multiply_matrix4;
pub use matrix::rect_transform;
pub use matrix::rect_transform_rows;
pub use matrix::scale_matrix;
pub use matrix::translation_matrix;
pub use palette::ChannelValue;
pub use palette::TIME_LIMIT;
pub use palette::gradient_palette;
pub use palette::lemma_palette_deterministic;
pub use palette::palette_matches;
pub use palette::vertex_matches;
pub use rat::Rat;
pub use shaders::COLOR_2D_FRAGMENT_SHADER;
pub use shaders::COLOR_2D_GRADIENT_FRAGMENT_SHADER;
pub use shaders::COLOR_2D_GRADIENT_VERTEX_SHADER;
pub use shaders::COLOR_2D_VERTEX_SHADER;

verus! {

/// The renderer: it owns the frame-state store and the two drawables,
/// publishes the shared state and advances the animation on `update`, and
/// plans the frame's GPU commands on `draw`.
///
/// `time` is the accumulated animation time in quarter units: each update
/// adds its whole delta here, and the denoted animation time is a quarter
/// of the counter, so the `0.25 * delta` advance of the animation law is
/// exact. `colors` is the gradient palette for that accumulated time,
/// recomputed by every update.
pub struct RustClient {
    pub state: StateStore,
    pub program_color_2d: Color2D,
    pub program_color_2d_gradient: Color2DGradient,
    pub colors: Vec<ChannelValue>,
    pub time: u64,
}

impl RustClient {
    /// Well-formed: the palette is the one the animation law gives for
    /// the accumulated time, the time counter leaves the palette's
    /// arguments room inside `i64`, and the published canvas fits the
    /// transform's coordinate range.
    pub open spec fn wf(self) -> bool {
        &&& palette_matches(self.colors@, self.time as int)
        &&& self.time <= TIME_LIMIT
        &&& self.state.current.canvas_width as int <= MAX_DIM as int
        &&& self.state.current.canvas_height as int <= MAX_DIM as int
    }

    /// A fresh renderer over two constructed drawables: zero state, zero
    /// accumulated time, and the palette of time zero.
    pub fn new(program_color_2d: Color2D, program_color_2d_gradient: Color2DGradient) -> (c:
        RustClient)
        ensures
            c.wf(),
            c.time == 0,
            c.state.current == AppState::zeroed(),
            c.program_color_2d == program_color_2d,
            c.program_color_2d_gradient == program_color_2d_gradient,
    {
        RustClient {
            state: StateStore::new(),
            program_color_2d,
            program_color_2d_gradient,
            colors: gradient_palette(0),
            time: 0,
        }
    }

    /// Advance the accumulated animation time by the delta and recompute
    /// the gradient palette for the new time.
    fn update_colors(&mut self, time: u64)
        requires
            old(self).time + time <= TIME_LIMIT,
        ensures
            final(self).time == old(self).time + time,
            palette_matches(final(self).colors@, final(self).time as int),
            final(self).state == old(self).state,
            final(self).program_color_2d == old(self).program_color_2d,
            final(self).program_color_2d_gradient == old(self).program_color_2d_gradient,
    {
        self.time = self.time + time;
        self.colors = gradient_palette(self.time);
    }

    /// One per-frame update: publish a whole new frame-state snapshot
    /// carrying this call's time and canvas size (every unrelated field
    /// carried forward), add the delta to the accumulated animation time,
    /// and recompute the gradient palette. Always succeeds; the bounds
    /// required of the inputs are what keeps the exact arithmetic inside
    /// `i64`.
    pub fn update(&mut self, time: u64, width: u32, height: u32) -> (r: Result<(), RenderError>)
        requires
            old(self).wf(),
            old(self).time + time <= TIME_LIMIT,
            width as int <= MAX_DIM as int,
            height as int <= MAX_DIM as int,
        ensures
            r is Ok,
            final(self).wf(),
            final(self).time == old(self).time + time,
            palette_matches(final(self).colors@, final(self).time as int),
            final(self).state.current == (AppState {
                canvas_width: width,
                canvas_height: height,
                time,
                ..old(self).state.current
            }),
            final(self).program_color_2d == old(self).program_color_2d,
            final(self).program_color_2d_gradient == old(self).program_color_2d_gradient,
    {
        update_dynamic_data(&mut self.state, time, width, height);
        self.update_colors(time);
        Ok(())
    }

    /// Plan one frame: clear, then draw the flat quad over [0,250]x[0,250]
    /// and the gradient quad over [250,750]x[250,750], both against the
    /// published canvas size and the gradient against this frame's
    /// palette. A canvas with a zero dimension admits no transform
    /// (nothing may divide by zero), so the plan is then the clear alone.
    pub fn draw(&self) -> (cmds: Vec<GlCommand>)
        requires
            self.wf(),
        ensures
            cmds@.len() >= 1,
            cmds@[0] == GlCommand::Clear,
            self.state.current.canvas_width >= 1 && self.state.current.canvas_height >= 1 ==> {
                &&& cmds@.len() == 18
                &&& flat_draw_cmds(
                    self.program_color_2d,
                    cmds@.subrange(1, 8),
                    0,
                    250,
                    0,
                    250,
                    self.state.current.canvas_width as int,
                    self.state.current.canvas_height as int,
                )
                &&& gradient_draw_cmds(
                    self.program_color_2d_gradient,
                    cmds@.subrange(8, 18),
                    250,
                    750,
                    250,
                    750,
                    self.state.current.canvas_width as int,
                    self.state.current.canvas_height as int,
                    self.colors@,
                )
            },
            self.state.current.canvas_width == 0 || self.state.current.canvas_height == 0
                ==> cmds@.len() == 1,
    {
        let mut cmds: Vec<GlCommand> = Vec::new();
        cmds.push(GlCommand::Clear);
        let curr_state = get_current_state(&self.state);
        if curr_state.canvas_width >= 1 && curr_state.canvas_height >= 1 {
            let w = curr_state.canvas_width as i64;
            let h = curr_state.canvas_height as i64;
            let ghost clear_view = cmds@;
            let mut flat = self.program_color_2d.draw(0, 250, 0, 250, w, h);
            let ghost flat_view = flat@;
            cmds.append(&mut flat);
            let mut gradient = self.program_color_2d_gradient.draw(
                250,
                750,
                250,
                750,
                w,
                h,
                &self.colors,
            );
            let ghost gradient_view = gradient@;
            cmds.append(&mut gradient);
            proof {
                assert(cmds@ =~= clear_view + flat_view + gradient_view);
                assert(cmds@.subrange(1, 8) =~= flat_view);
                assert(cmds@.subrange(8, 18) =~= gradient_view);
            }
        }
        cmds
    }
}

/// The plain sum of a sequence of per-update deltas.
pub open spec fn sum_deltas(ds: Seq<u64>) -> int
    decreases ds.len(),
{
    if ds.len() == 0 {
        0
    } else {
        ds[0] + sum_deltas(ds.drop_first())
    }
}

/// The accumulated quarter-unit time counter after feeding the deltas
/// `ds`, one update at a time, to a renderer whose counter starts at
/// `t0` — each update adds its whole delta, exactly as the contract of
/// `RustClient::update` states.
pub open spec fn time_after_updates(t0: int, ds: Seq<u64>) -> int
    decreases ds.len(),
{
    if ds.len() == 0 {
        t0
    } else {
        time_after_updates(t0 + ds[0], ds.drop_first())
    }
}

/// Law of the animation clock: after any run of updates with per-call
/// deltas `d_1 .. d_N`, the quarter-unit counter stands at its start plus
/// the plain sum of the deltas. Started from zero it is exactly
/// `d_1 + ... + d_N`, and since the counter denotes quarters, the
/// accumulated animation time is exactly `0.25 * (d_1 + ... + d_N)`.
pub proof fn lemma_time_accumulation(t0: int, ds: Seq<u64>)
    ensures
        time_after_updates(t0, ds) == t0 + sum_deltas(ds),
    decreases ds.len(),
{
    if ds.len() == 0 {
    } else {
        lemma_time_accumulation(t0 + ds[0], ds.drop_first());
    }
}

} // verus!
