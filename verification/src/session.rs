//! The main loop's phase machine and per-iteration plan.
//!
//! The loop's driver owns the window and the GPU; each iteration it polls
//! events, calls `begin_iteration` for the plan of the frame — the uniform
//! values for the compute pass, the dispatch geometry, and the pass order —
//! performs the passes and the present, and calls `finish_iteration`. The
//! decisions (when to stop, what to pass to the shaders, how many
//! workgroups to dispatch) all live here.
use vstd::prelude::*;

use crate::binding::AccessMode;
use crate::binding::PixelFormat;
use crate::frame::Event;
use crate::frame::PointerPos;
use crate::frame::State;
use crate::frame::UpdateOutcome;
use crate::frame::any_close;
use crate::frame::apply_events;
use crate::frame::last_resize;

verus! {

/// Cells per workgroup along each of the X and Y axes.
pub const WORKGROUP_SIZE: u32 = 8;

/// The interaction radius around the pointer, in cells.
pub const MOUSE_RADIUS: u32 = 5;

/// Where the loop stands. `Running` iterates; a close request or escape
/// press moves it to `Closing` during that iteration's update; after that
/// iteration's present it is `Terminated` and no further iteration runs.
#[derive(Clone, Copy, PartialEq, Eq, Structural, Debug)]
pub enum LoopPhase {
    Running,
    Closing,
    Terminated,
}

/// The uniform values the compute pass reads this frame.
#[derive(Clone, Copy, PartialEq, Eq, Structural, Debug)]
pub struct ComputeUniforms {
    /// Elapsed milliseconds since the session's start.
    pub time_ms: u64,
    /// Normalized pointer position, bottom-left origin.
    pub pointer: PointerPos,
    /// Whether the primary mouse button is pressed.
    pub pointer_pressed: bool,
    /// The fixed interaction radius, in cells.
    pub mouse_radius: u32,
}

/// One pass of an iteration, in the order the driver must issue them.
#[derive(Clone, Copy, PartialEq, Eq, Structural, Debug)]
pub enum PassKind {
    /// Advance the rule: read `current`, write `next`, then barrier.
    Compute,
    /// Clear and draw the full-screen quad sampling `current`.
    Render,
    /// Commit `next` into `current`, then barrier.
    Copy,
    /// Swap the display buffer.
    Present,
}

/// Everything the driver needs to run one iteration's passes.
pub struct IterationPlan {
    /// Uniforms for the compute pass, snapshotted after the update.
    pub uniforms: ComputeUniforms,
    /// Workgroup counts for the compute and copy dispatches.
    pub groups: (u32, u32, u32),
    /// The viewport to set, if a resize arrived.
    pub viewport: Option<(i32, i32)>,
    /// The passes of this iteration, in issue order.
    pub passes: Vec<PassKind>,
}

/// Which of the two generation images a pass binding refers to.
#[derive(Clone, Copy, PartialEq, Eq, Structural, Debug)]
pub enum TextureRole {
    CurrentGeneration,
    NextGeneration,
}

/// One image-unit binding a pass establishes before its dispatch.
#[derive(Clone, Copy, PartialEq, Eq, Structural, Debug)]
pub struct PassImageBinding {
    pub unit: u32,
    pub role: TextureRole,
    pub access: AccessMode,
    pub format: PixelFormat,
}

/// The compute pass's image bindings: the current generation on unit 0,
/// the next on unit 1, both single-channel and read-write.
pub fn compute_pass_bindings() -> (r: Vec<PassImageBinding>)
    ensures
        r@ == seq![
            PassImageBinding {
                unit: 0u32,
                role: TextureRole::CurrentGeneration,
                access: AccessMode::ReadWrite,
                format: PixelFormat::R8,
            },
            PassImageBinding {
                unit: 1u32,
                role: TextureRole::NextGeneration,
                access: AccessMode::ReadWrite,
                format: PixelFormat::R8,
            },
        ],
{
    let mut r: Vec<PassImageBinding> = Vec::new();
    r.push(
        PassImageBinding {
            unit: 0,
            role: TextureRole::CurrentGeneration,
            access: AccessMode::ReadWrite,
            format: PixelFormat::R8,
        },
    );
    r.push(
        PassImageBinding {
            unit: 1,
            role: TextureRole::NextGeneration,
            access: AccessMode::ReadWrite,
            format: PixelFormat::R8,
        },
    );
    proof {
        assert(r@ =~= seq![
            PassImageBinding {
                unit: 0u32,
                role: TextureRole::CurrentGeneration,
                access: AccessMode::ReadWrite,
                format: PixelFormat::R8,
            },
            PassImageBinding {
                unit: 1u32,
                role: TextureRole::NextGeneration,
                access: AccessMode::ReadWrite,
                format: PixelFormat::R8,
            },
        ]);
    }
    r
}

/// The copy pass's image bindings: it reads the next generation from unit
/// 0 and overwrites the current generation on unit 1, committing the
/// frame's computation.
pub fn copy_pass_bindings() -> (r: Vec<PassImageBinding>)
    ensures
        r@ == seq![
            PassImageBinding {
                unit: 0u32,
                role: TextureRole::NextGeneration,
                access: AccessMode::ReadWrite,
                format: PixelFormat::R8,
            },
            PassImageBinding {
                unit: 1u32,
                role: TextureRole::CurrentGeneration,
                access: AccessMode::ReadWrite,
                format: PixelFormat::R8,
            },
        ],
{
    let mut r: Vec<PassImageBinding> = Vec::new();
    r.push(
        PassImageBinding {
            unit: 0,
            role: TextureRole::NextGeneration,
            access: AccessMode::ReadWrite,
            format: PixelFormat::R8,
        },
    );
    r.push(
        PassImageBinding {
            unit: 1,
            role: TextureRole::CurrentGeneration,
            access: AccessMode::ReadWrite,
            format: PixelFormat::R8,
        },
    );
    proof {
        assert(r@ =~= seq![
            PassImageBinding {
                unit: 0u32,
                role: TextureRole::NextGeneration,
                access: AccessMode::ReadWrite,
                format: PixelFormat::R8,
            },
            PassImageBinding {
                unit: 1u32,
                role: TextureRole::CurrentGeneration,
                access: AccessMode::ReadWrite,
                format: PixelFormat::R8,
            },
        ]);
    }
    r
}

/// The render pass samples exactly one texture — the current generation —
/// at this fixed texture unit, established once at startup.
pub fn render_sample_unit() -> (r: (u32, TextureRole))
    ensures
        r == (0u32, TextureRole::CurrentGeneration),
{
    (0, TextureRole::CurrentGeneration)
}

/// Workgroup counts that cover a `width` by `height` cell grid: the
/// dimensions divided by the workgroup size, rounded up, and one layer
/// deep.
pub open spec fn spec_dispatch_groups(width: u32, height: u32) -> (u32, u32, u32) {
    (
        (((width + WORKGROUP_SIZE - 1) / (WORKGROUP_SIZE as int)) as u32),
        (((height + WORKGROUP_SIZE - 1) / (WORKGROUP_SIZE as int)) as u32),
        1u32,
    )
}

/// Computes the workgroup counts covering a `width` by `height` grid.
pub fn dispatch_groups(width: u32, height: u32) -> (r: (u32, u32, u32))
    ensures
        r == spec_dispatch_groups(width, height),
        r.0 * WORKGROUP_SIZE >= width,
        r.1 * WORKGROUP_SIZE >= height,
{
    let gx: u32 = ((width as u64 + (WORKGROUP_SIZE as u64 - 1)) / WORKGROUP_SIZE as u64) as u32;
    let gy: u32 = ((height as u64 + (WORKGROUP_SIZE as u64 - 1)) / WORKGROUP_SIZE as u64) as u32;
    (gx, gy, 1)
}

/// The session's loop state: the phase and the per-frame snapshot, plus
/// the fixed dimensions of the generation grid it drives.
pub struct MainLoop {
    pub phase: LoopPhase,
    pub state: State,
    pub grid_width: u32,
    pub grid_height: u32,
}

/// What `begin_iteration` does to the loop: events are applied in order,
/// the elapsed time is refreshed, and a close-shaped event moves the phase
/// to `Closing` within that same iteration.
pub open spec fn spec_begin(m: MainLoop, events: Seq<Event>, now_ms: u64) -> MainLoop {
    MainLoop {
        phase: if any_close(events) {
            LoopPhase::Closing
        } else {
            m.phase
        },
        state: State { time_ms: now_ms, ..apply_events(m.state, events) },
        ..m
    }
}

/// What `finish_iteration` does to the loop: the frame index counts the
/// completed iteration, and a closing loop is terminated once its frame
/// was presented.
pub open spec fn spec_finish(m: MainLoop) -> MainLoop {
    MainLoop {
        phase: if m.phase is Closing {
            LoopPhase::Terminated
        } else {
            m.phase
        },
        state: State { frame_index: (m.state.frame_index + 1) as u64, ..m.state },
        ..m
    }
}

/// One whole iteration: update, passes, present, bookkeeping.
pub open spec fn spec_iteration(m: MainLoop, events: Seq<Event>, now_ms: u64) -> MainLoop {
    spec_finish(spec_begin(m, events, now_ms))
}

/// The polled events and clock reading an iteration consumes.
pub struct IterationInput {
    pub events: Seq<Event>,
    pub now_ms: u64,
}

/// The loop after a run of iterations, applied in order to a running loop;
/// once the loop stops running, later inputs change nothing.
pub open spec fn run_iterations(m: MainLoop, inputs: Seq<IterationInput>) -> MainLoop
    decreases inputs.len(),
{
    if inputs.len() == 0 {
        m
    } else {
        let prev = run_iterations(m, inputs.drop_last());
        if prev.phase is Running {
            spec_iteration(prev, inputs.last().events, inputs.last().now_ms)
        } else {
            prev
        }
    }
}

impl MainLoop {
    /// A fresh session: running, with the given initial snapshot, driving
    /// a generation grid of the given dimensions.
    pub fn new(state: State, grid_width: u32, grid_height: u32) -> (r: MainLoop)
        ensures
            r.phase is Running,
            r.state == state,
            r.grid_width == grid_width,
            r.grid_height == grid_height,
    {
        MainLoop { phase: LoopPhase::Running, state, grid_width, grid_height }
    }

    /// Whether the driver may run another iteration.
    pub fn should_continue(&self) -> (r: bool)
        ensures
            r == (self.phase is Running),
    {
        matches!(self.phase, LoopPhase::Running)
    }

    /// Starts an iteration: applies the polled events and the clock
    /// reading, moves to `Closing` if a close-shaped event arrived, and
    /// returns the frame's plan. The uniforms are the snapshot the update
    /// produced; the passes come in their fixed issue order.
    pub fn begin_iteration(&mut self, events: &Vec<Event>, now_ms: u64) -> (plan: IterationPlan)
        requires
            old(self).phase is Running,
        ensures
            *final(self) == spec_begin(*old(self), events@, now_ms),
            plan.uniforms == (ComputeUniforms {
                time_ms: now_ms,
                pointer: final(self).state.pointer,
                pointer_pressed: final(self).state.pointer_pressed,
                mouse_radius: MOUSE_RADIUS,
            }),
            plan.groups == spec_dispatch_groups(old(self).grid_width, old(self).grid_height),
            plan.viewport == last_resize(events@),
            plan.passes@ == seq![
                PassKind::Compute,
                PassKind::Render,
                PassKind::Copy,
                PassKind::Present,
            ],
    {
        let outcome: UpdateOutcome = self.state.process_events(events);
        self.state.update_time(now_ms);
        if outcome.close_requested {
            self.phase = LoopPhase::Closing;
        }
        let groups = dispatch_groups(self.grid_width, self.grid_height);
        let mut passes: Vec<PassKind> = Vec::new();
        passes.push(PassKind::Compute);
        passes.push(PassKind::Render);
        passes.push(PassKind::Copy);
        passes.push(PassKind::Present);
        proof {
            assert(passes@ =~= seq![
                PassKind::Compute,
                PassKind::Render,
                PassKind::Copy,
                PassKind::Present,
            ]);
        }
        let uniforms = ComputeUniforms {
            time_ms: now_ms,
            pointer: self.state.pointer,
            pointer_pressed: self.state.pointer_pressed,
            mouse_radius: MOUSE_RADIUS,
        };
        IterationPlan { uniforms, groups, viewport: outcome.viewport, passes }
    }

    /// Ends an iteration after its present: counts the completed frame,
    /// and terminates the loop if this frame was the closing one.
    pub fn finish_iteration(&mut self)
        requires
            !(old(self).phase is Terminated),
            old(self).state.frame_index < u64::MAX,
        ensures
            *final(self) == spec_finish(*old(self)),
    {
        self.state.frame_index = self.state.frame_index + 1;
        if matches!(self.phase, LoopPhase::Closing) {
            self.phase = LoopPhase::Terminated;
        }
    }
}

/// The frame index counts completed iterations: starting from a running
/// loop, a run of close-free iterations leaves the loop running and adds
/// exactly one to the frame index per iteration.
pub proof fn lemma_frame_index_counts_iterations(m: MainLoop, inputs: Seq<IterationInput>)
    requires
        m.phase is Running,
        m.state.frame_index + inputs.len() <= u64::MAX,
        forall|i: int| 0 <= i < inputs.len() ==> !any_close(#[trigger] inputs[i].events),
    ensures
        run_iterations(m, inputs).phase is Running,
        run_iterations(m, inputs).state.frame_index == m.state.frame_index + inputs.len(),
    decreases inputs.len(),
{
    if inputs.len() > 0 {
        let dl = inputs.drop_last();
        assert forall|i: int| 0 <= i < dl.len() implies !any_close(#[trigger] dl[i].events) by {
            assert(dl[i] == inputs[i]);
            assert(!any_close(inputs[i].events));
        }
        lemma_frame_index_counts_iterations(m, dl);
        assert(!any_close(inputs[inputs.len() - 1].events));
        assert(inputs.last() == inputs[inputs.len() - 1]);
        crate::frame::lemma_apply_events_keeps_counters(
            run_iterations(m, dl).state,
            inputs.last().events,
        );
    }
}

/// A close request or escape press delivered during an iteration's update
/// moves the loop to `Closing` before that iteration ends, and after the
/// frame is presented the loop is terminated: it runs no further
/// iteration.
pub proof fn lemma_close_event_terminates(m: MainLoop, events: Seq<Event>, now_ms: u64)
    requires
        m.phase is Running,
        any_close(events),
    ensures
        spec_begin(m, events, now_ms).phase is Closing,
        spec_iteration(m, events, now_ms).phase is Terminated,
{
}

/// A loop that is no longer running ignores every further input: nothing
/// changes, however many iterations are offered.
pub proof fn lemma_stopped_loop_stays(m: MainLoop, inputs: Seq<IterationInput>)
    requires
        !(m.phase is Running),
    ensures
        run_iterations(m, inputs) == m,
    decreases inputs.len(),
{
    if inputs.len() > 0 {
        lemma_stopped_loop_stays(m, inputs.drop_last());
    }
}

} // verus!
