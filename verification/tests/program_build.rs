use gpu_life::binding::{AccessMode, ImageBinding, ImageBindingTable, PixelFormat};
use gpu_life::program::{
    classify_uniform_location, collect_stages, compute_stage_kinds, render_stage_kinds,
    resolve_link, BuildError, ComputeShader, ContextState, LinkOutcome, RenderShader, StageKind,
    StageOutcome, QUAD_VERTEX_COUNT,
};

#[test]
fn fully_compiled_stages_link_into_a_program() {
    let outcomes = vec![
        StageOutcome::Compiled { handle: 11 },
        StageOutcome::Compiled { handle: 12 },
    ];
    let handles = collect_stages(&outcomes).unwrap();
    assert_eq!(handles, vec![11, 12]);
    let (result, release) = resolve_link(7, handles, &LinkOutcome::Linked);
    assert_eq!(result, Ok(7));
    assert_eq!(release, vec![11, 12]);
}

#[test]
fn first_rejected_stage_is_named() {
    let outcomes = vec![
        StageOutcome::Compiled { handle: 11 },
        StageOutcome::Rejected { log: String::from("syntax error") },
        StageOutcome::Rejected { log: String::from("later") },
    ];
    let err = collect_stages(&outcomes).unwrap_err();
    assert_eq!(
        err,
        BuildError::Compile { stage_index: 1, log: String::from("syntax error") }
    );
}

#[test]
fn link_failure_reports_log_and_still_releases_stages() {
    let (result, release) =
        resolve_link(7, vec![11, 12], &LinkOutcome::Refused { log: String::from("mismatch") });
    assert_eq!(result, Err(BuildError::Link { log: String::from("mismatch") }));
    assert_eq!(release, vec![11, 12]);
}

#[test]
fn each_program_kind_loads_its_stage_kinds() {
    assert_eq!(render_stage_kinds(), vec![StageKind::Vertex, StageKind::Fragment]);
    assert_eq!(compute_stage_kinds(), vec![StageKind::Compute]);
}

#[test]
fn missing_uniform_location_is_non_fatal() {
    assert_eq!(classify_uniform_location(-1), None);
    assert_eq!(classify_uniform_location(0), Some(0));
    assert_eq!(classify_uniform_location(3), Some(3));
}

#[test]
fn activation_keeps_at_most_one_program() {
    let mut ctx = ContextState::new();
    assert_eq!(ctx.active_program, None);
    ctx.activate(5);
    assert_eq!(ctx.active_program, Some(5));
    ctx.activate(9);
    assert_eq!(ctx.active_program, Some(9));
    ctx.deactivate();
    assert_eq!(ctx.active_program, None);
}

#[test]
fn shader_wrappers_hold_their_program() {
    let c = ComputeShader::new(3);
    assert_eq!(c.program, 3);
    assert_eq!(c.compute_group, (0, 0, 0));
    let r = RenderShader::new(4);
    assert_eq!(r.program, 4);
    assert_eq!(QUAD_VERTEX_COUNT, 6);
}

#[test]
fn image_binding_persists_until_rebound() {
    let mut table = ImageBindingTable::new(2, 2);
    table.bind_image(0, 77, AccessMode::ReadWrite, PixelFormat::R8);
    assert_eq!(
        table.image_units[0],
        Some(ImageBinding { texture: 77, access: AccessMode::ReadWrite, format: PixelFormat::R8 })
    );
    assert_eq!(table.image_units[1], None);
    table.bind_image(1, 78, AccessMode::ReadOnly, PixelFormat::R8);
    assert_eq!(
        table.image_units[0],
        Some(ImageBinding { texture: 77, access: AccessMode::ReadWrite, format: PixelFormat::R8 })
    );
    table.bind_image(0, 79, AccessMode::WriteOnly, PixelFormat::R8);
    assert_eq!(
        table.image_units[0],
        Some(ImageBinding { texture: 79, access: AccessMode::WriteOnly, format: PixelFormat::R8 })
    );
}

#[test]
fn texture_binding_is_separate_from_image_binding() {
    let mut table = ImageBindingTable::new(1, 2);
    table.bind_texture(0, 42);
    assert_eq!(table.texture_units[0], Some(42));
    assert_eq!(table.texture_units[1], None);
    assert_eq!(table.image_units[0], None);
}
