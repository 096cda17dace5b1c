use vstd::prelude::*;

verus! {

/// One frame's shared state: the canvas size, the host time of the last
/// publish, and a separately configured control-viewport rectangle.
///
/// A snapshot is a plain copyable value: once a reader holds one, no later
/// publish can change it, so a draw phase never observes a torn mix of old
/// and new fields.
#[derive(Clone, Copy, PartialEq, Eq, Structural, Debug)]
pub struct AppState {
    pub canvas_width: u32,
    pub canvas_height: u32,
    pub control_bottom: i64,
    pub control_top: i64,
    pub control_left: i64,
    pub control_right: i64,
    pub time: u64,
}

impl AppState {
    /// The state at process start: everything zero.
    pub fn new() -> (s: AppState)
        ensures
            s == (AppState {
                canvas_width: 0,
                canvas_height: 0,
                control_bottom: 0,
                control_top: 0,
                control_left: 0,
                control_right: 0,
                time: 0,
            }),
    {
        AppState {
            canvas_width: 0,
            canvas_height: 0,
            control_bottom: 0,
            control_top: 0,
            control_left: 0,
            control_right: 0,
            time: 0,
        }
    }
}

/// The single-slot store of the latest published `AppState`.
///
/// The renderer owns one and threads it into every draw; a publish replaces
/// the whole snapshot at once, never one field at a time.
#[derive(Clone, Copy, PartialEq, Eq, Structural, Debug)]
pub struct StateStore {
    pub current: AppState,
}

impl StateStore {
    /// A store holding the all-zero starting state.
    pub fn new() -> (s: StateStore)
        ensures
            s.current == AppState::zeroed(),
    {
        StateStore { current: AppState::new() }
    }
}

impl AppState {
    /// The all-zero starting state, for specifications.
    pub open spec fn zeroed() -> AppState {
        AppState {
            canvas_width: 0,
            canvas_height: 0,
            control_bottom: 0,
            control_top: 0,
            control_left: 0,
            control_right: 0,
            time: 0,
        }
    }
}

/// Publish a new snapshot carrying the given time and canvas size.
///
/// The whole value is replaced at once, and every field unrelated to this
/// call — the control-viewport rectangle — is carried forward unchanged
/// from the prior snapshot.
pub fn update_dynamic_data(store: &mut StateStore, time: u64, canvas_width: u32, canvas_height: u32)
    ensures
        final(store).current == (AppState {
            canvas_width,
            canvas_height,
            time,
            ..old(store).current
        }),
        final(store).current.control_bottom == old(store).current.control_bottom,
        final(store).current.control_top == old(store).current.control_top,
        final(store).current.control_left == old(store).current.control_left,
        final(store).current.control_right == old(store).current.control_right,
{
    store.current = AppState { canvas_width, canvas_height, time, ..store.current };
}

/// The latest published snapshot, as an independent copy: later publishes
/// cannot change what the caller received.
pub fn get_current_state(store: &StateStore) -> (s: AppState)
    ensures
        s == store.current,
{
    store.current
}

} // verus!
