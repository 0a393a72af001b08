use terrain_scene::fixed::UNIT;
use terrain_scene::gl::{GlCmd, GlRecorder};
use terrain_scene::helpers::RendererControl;
use terrain_scene::scene::{Scene, FLOOR_SIDE};
use terrain_scene::terrain_builder::terrain_builder;

fn built_scene(rec: &mut GlRecorder) -> Scene {
    let hf = terrain_builder(123, 4);
    let samples: Vec<i64> = vec![0; FLOOR_SIDE * FLOOR_SIDE];
    Scene::build(
        rec,
        hf,
        &samples,
        None,
        None,
        Vec::new(),
        Vec::new(),
        Vec::new(),
        800,
        600,
    )
}

#[test]
fn build_initializes_every_entity() {
    let mut rec = GlRecorder::new();
    let scene = built_scene(&mut rec);
    let cmds = rec.drain();
    // One program per entity and the sun.
    let programs = cmds
        .iter()
        .filter(|c| matches!(c, GlCmd::BuildProgram { .. }))
        .count();
    assert_eq!(programs, 6);
    assert!(matches!(cmds[0], GlCmd::EnableDepthTest));
    assert_eq!(scene.entities.len(), 5);
    // The camera stands on the middle column, one unit above the basis.
    assert_eq!(scene.camera.pos.x, 25 * UNIT);
    assert_eq!(scene.camera.pos.y, 5 * UNIT);
    assert_eq!(scene.camera.pos.z, 25 * UNIT);
}

#[test]
fn frame_clears_then_draws_and_drains_the_queue() {
    let mut rec = GlRecorder::new();
    let mut scene = built_scene(&mut rec);
    rec.drain();

    scene.queue_control(RendererControl::DisableLight);
    assert_eq!(scene.next_frame_entities_uniforms.len(), 1);
    scene.queue_control(RendererControl::EnableFog);
    assert_eq!(scene.next_frame_entities_uniforms.len(), 1);

    scene.advance_frame(&mut rec, 16, 16);
    let cmds = rec.drain();
    assert!(matches!(cmds[0], GlCmd::ClearColor { .. }));
    assert!(matches!(cmds[1], GlCmd::Clear));
    // The sun's pass comes before every other entity's.
    let first_use = cmds
        .iter()
        .position(|c| matches!(c, GlCmd::UseProgram { .. }))
        .expect("some entity is drawn");
    assert!(first_use >= 2);
    assert_eq!(scene.next_frame_entities_uniforms.len(), 0);

    // A second frame still draws: the queue refills and drains each frame.
    scene.advance_frame(&mut rec, 16, 32);
    let cmds = rec.drain();
    assert!(matches!(cmds[0], GlCmd::ClearColor { .. }));
    assert_eq!(scene.next_frame_entities_uniforms.len(), 0);
}
