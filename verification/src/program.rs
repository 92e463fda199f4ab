//! The shader program build pipeline and program activation.
//!
//! Compiling and linking happen in the GPU driver; the driver's verdicts
//! come back as plain `StageOutcome` and `LinkOutcome` values, and the
//! functions here decide what a build returns: the first failing stage's
//! index and diagnostic, the linker's diagnostic, or the usable program
//! handle — and that every attached stage handle is released whichever way
//! the link went.
use vstd::prelude::*;

verus! {

/// The kind of one shader stage; it decides how the driver compiles the
/// stage's source text.
#[derive(Clone, Copy, PartialEq, Eq, Structural, Debug)]
pub enum StageKind {
    Compute,
    Vertex,
    Fragment,
}

/// The driver's verdict on compiling one stage.
#[derive(PartialEq, Eq, Debug)]
pub enum StageOutcome {
    /// The stage compiled into this stage handle.
    Compiled { handle: u32 },
    /// The stage was rejected with the compiler's diagnostic text.
    Rejected { log: String },
}

/// The driver's verdict on linking the attached stages.
#[derive(PartialEq, Eq, Debug)]
pub enum LinkOutcome {
    Linked,
    Refused { log: String },
}

/// Why a program build failed.
#[derive(PartialEq, Eq, Debug)]
pub enum BuildError {
    /// Stage `stage_index` failed to compile; `log` is the compiler's
    /// diagnostic. No partial program is returned.
    Compile { stage_index: usize, log: String },
    /// Linking failed; `log` is the linker's diagnostic.
    Link { log: String },
}

/// The stage kinds a render program loads, in order: one vertex stage,
/// then one fragment stage.
pub fn render_stage_kinds() -> (r: Vec<StageKind>)
    ensures
        r@ == seq![StageKind::Vertex, StageKind::Fragment],
{
    let mut r: Vec<StageKind> = Vec::new();
    r.push(StageKind::Vertex);
    r.push(StageKind::Fragment);
    proof {
        assert(r@ =~= seq![StageKind::Vertex, StageKind::Fragment]);
    }
    r
}

/// The single compute stage a compute program loads.
pub fn compute_stage_kinds() -> (r: Vec<StageKind>)
    ensures
        r@ == seq![StageKind::Compute],
{
    let mut r: Vec<StageKind> = Vec::new();
    r.push(StageKind::Compute);
    proof {
        assert(r@ =~= seq![StageKind::Compute]);
    }
    r
}

/// Whether a stage compiled.
pub open spec fn stage_ok(o: StageOutcome) -> bool {
    o is Compiled
}

/// Whether every stage of the batch compiled.
pub open spec fn all_compiled(outcomes: Seq<StageOutcome>) -> bool {
    forall|i: int| 0 <= i < outcomes.len() ==> stage_ok(#[trigger] outcomes[i])
}

/// The handle a compiled stage produced.
pub open spec fn stage_handle(o: StageOutcome) -> u32 {
    o->Compiled_handle
}

/// Gathers the stage handles of a fully compiled batch, or reports the
/// first rejected stage by its index together with the compiler's
/// diagnostic; a rejection is fatal and yields no partial program.
pub fn collect_stages(outcomes: &Vec<StageOutcome>) -> (r: Result<Vec<u32>, BuildError>)
    ensures
        all_compiled(outcomes@) ==> (r matches Ok(handles) && handles@.len() == outcomes@.len()
            && (forall|i: int|
            0 <= i < outcomes@.len() ==> #[trigger] handles@[i] == stage_handle(outcomes@[i]))),
        !all_compiled(outcomes@) ==> (r matches Err(e) && e matches BuildError::Compile {
            stage_index,
            log,
        } && stage_index < outcomes@.len() && outcomes@[stage_index as int] == (
        StageOutcome::Rejected { log }) && (forall|j: int|
            0 <= j < stage_index ==> stage_ok(#[trigger] outcomes@[j]))),
{
    let mut handles: Vec<u32> = Vec::new();
    let mut i: usize = 0;
    while i < outcomes.len()
        invariant
            i <= outcomes@.len(),
            handles@.len() == i,
            forall|j: int| 0 <= j < i ==> stage_ok(#[trigger] outcomes@[j]),
            forall|j: int| 0 <= j < i ==> #[trigger] handles@[j] == stage_handle(outcomes@[j]),
        decreases outcomes@.len() - i,
    {
        match &outcomes[i] {
            StageOutcome::Compiled { handle } => {
                handles.push(*handle);
            },
            StageOutcome::Rejected { log } => {
                return Err(BuildError::Compile { stage_index: i, log: log.clone() });
            },
        }
        i = i + 1;
    }
    Ok(handles)
}

/// Resolves the link step: the program handle on success, the linker's
/// diagnostic on failure. Either way the second component lists every
/// attached stage handle for release, so no stage handle leaks on the
/// failure path.
pub fn resolve_link(program: u32, attached: Vec<u32>, outcome: &LinkOutcome) -> (r: (
    Result<u32, BuildError>,
    Vec<u32>,
))
    ensures
        r.1@ == attached@,
        *outcome is Linked ==> r.0 == Ok::<u32, BuildError>(program),
        (*outcome matches LinkOutcome::Refused { log } ==> r.0 == Err::<u32, BuildError>(
            BuildError::Link { log },
        )),
{
    match outcome {
        LinkOutcome::Linked => (Ok(program), attached),
        LinkOutcome::Refused { log } => (Err(BuildError::Link { log: log.clone() }), attached),
    }
}

/// Classifies a uniform location the driver handed back: a non-negative
/// location addresses the uniform, a negative one means the name was not
/// found. Not finding it is non-fatal — the caller skips the corresponding
/// uniform write, which can silently leave a parameter unset.
pub fn classify_uniform_location(loc: i32) -> (r: Option<i32>)
    ensures
        loc >= 0 ==> r == Some(loc),
        loc < 0 ==> r is None,
{
    if loc >= 0 {
        Some(loc)
    } else {
        None
    }
}

/// A compute program: dispatches a 3-D grid of workgroups over the
/// generation images and fences its image writes with a memory barrier.
#[derive(Clone, Copy, Debug)]
pub struct ComputeShader {
    /// The linked program's handle.
    pub program: u32,
    /// Workgroup counts for the next dispatch, per axis.
    pub compute_group: (u32, u32, u32),
}

/// A render program: clears the target and draws the full-screen quad
/// sampling the current generation.
#[derive(Clone, Copy, PartialEq, Eq, Structural, Debug)]
pub struct RenderShader {
    /// The linked program's handle.
    pub program: u32,
}

/// How many vertices the full-screen quad draw issues: two triangles.
pub const QUAD_VERTEX_COUNT: u32 = 6;

impl ComputeShader {
    /// Wraps a linked program handle with no dispatch geometry chosen yet.
    pub fn new(program: u32) -> (r: ComputeShader)
        ensures
            r.program == program,
            r.compute_group == (0u32, 0u32, 0u32),
    {
        ComputeShader { program, compute_group: (0, 0, 0) }
    }
}

impl RenderShader {
    /// Wraps a linked program handle.
    pub fn new(program: u32) -> (r: RenderShader)
        ensures
            r.program == program,
    {
        RenderShader { program }
    }
}

/// Which program is active on the GPU context. At most one is active at a
/// time: activating a program implicitly deactivates the previous one.
#[derive(Clone, Copy, PartialEq, Eq, Structural, Debug)]
pub struct ContextState {
    pub active_program: Option<u32>,
}

impl ContextState {
    /// A fresh context with no program active.
    pub fn new() -> (r: ContextState)
        ensures
            r.active_program is None,
    {
        ContextState { active_program: None }
    }

    /// Makes `program` the active program, deactivating whatever was.
    pub fn activate(&mut self, program: u32)
        ensures
            final(self).active_program == Some(program),
    {
        self.active_program = Some(program);
    }

    /// Deactivates the active program.
    pub fn deactivate(&mut self)
        ensures
            final(self).active_program is None,
    {
        self.active_program = None;
    }
}

} // verus!
