use std::collections::HashMap;
use terrain_scene::fixed::{Vec3, UNIT};
use terrain_scene::gl::{GlCmd, GlRecorder, UniformValue};
use terrain_scene::helpers::{FpsCounter, Mat3DUpdate, RendererControl};
use terrain_scene::hello_triangle::HelloTriangle;
use terrain_scene::mat4::Mat4;
use terrain_scene::renderer::Renderer;
use terrain_scene::shader::GlslPass;
use terrain_scene::sun::Sun;
use terrain_scene::tex_square::{Square, TexSquare};
use terrain_scene::uniform::{
    EnabledLighting, EyePos, Fog, LightPos, Lighting, Uniform, UniformKind,
};
use terrain_scene::utah_teapot::{MeshModel, UtahTeapot};

/// Replays only the uniform writes of a command list, last write wins.
fn replay_uniforms(cmds: &[GlCmd]) -> HashMap<(u32, &'static str), UniformValue> {
    let mut store = HashMap::new();
    for c in cmds {
        if let GlCmd::SetUniform {
            program,
            name,
            value,
        } = c
        {
            store.insert((*program, *name), *value);
        }
    }
    store
}

#[test]
fn as_init_fills_unset_fields_with_identity() {
    let empty = Mat3DUpdate {
        model: None,
        view: None,
        projection: None,
    };
    let filled = empty.as_init();
    assert_eq!(filled.model, Some(Mat4::identity()));
    assert_eq!(filled.view, Some(Mat4::identity()));
    assert_eq!(filled.projection, Some(Mat4::identity()));

    let t = Mat4::from_translation(Vec3::new(1, 2, 3));
    let partial = Mat3DUpdate {
        model: Some(t),
        view: None,
        projection: None,
    };
    let filled = partial.as_init();
    assert_eq!(filled.model, Some(t));
    assert_eq!(filled.view, Some(Mat4::identity()));
    assert_eq!(filled.projection, Some(Mat4::identity()));
}

#[test]
fn set_uniforms_skips_unset_fields() {
    let mut rec = GlRecorder::new();
    let only_view = Mat3DUpdate {
        model: None,
        view: Some(Mat4::identity()),
        projection: None,
    };
    only_view.set_uniforms(&mut rec, 7);
    let cmds = rec.drain();
    assert_eq!(cmds.len(), 1);
    match &cmds[0] {
        GlCmd::SetUniform { program, name, .. } => {
            assert_eq!(*program, 7);
            assert_eq!(*name, "view");
        }
        other => panic!("unexpected command {:?}", other),
    }
}

#[test]
fn uninitialized_entity_records_no_commands() {
    let spots = vec![(Vec3::new(0, 0, 0), UNIT)];
    let mut e = HelloTriangle::new(spots);
    let mut rec = GlRecorder::new();
    let bundle = Mat3DUpdate {
        model: None,
        view: None,
        projection: None,
    };
    let uniforms: Vec<UniformKind> = Vec::new();
    e.update_draw(&mut rec, bundle, &uniforms, 0);
    assert_eq!(rec.drain().len(), 0);

    let mut sq = TexSquare::new(Vec::new(), None);
    sq.update_draw(&mut rec, bundle, &uniforms, 0);
    assert_eq!(rec.drain().len(), 0);
}

#[test]
fn applying_a_uniform_twice_equals_applying_it_once() {
    let fog = Fog::new(Vec3::new(100_000, 100_000, 100_000));
    let mut once = GlRecorder::new();
    fog.set(&mut once, 3);
    let mut twice = GlRecorder::new();
    fog.set(&mut twice, 3);
    fog.set(&mut twice, 3);
    assert_eq!(
        replay_uniforms(&once.drain()),
        replay_uniforms(&twice.drain())
    );
}

#[test]
fn uniform_values_and_names() {
    let l = Lighting::new();
    assert_eq!(l.ambient_strenght, 100_000);
    assert_eq!(l.specular_strenght, 500_000);

    let mut rec = GlRecorder::new();
    LightPos::new(Vec3::new(1, 2, 3)).set(&mut rec, 9);
    EyePos::new(Vec3::new(4, 5, 6)).set(&mut rec, 9);
    EnabledLighting::enabled().set(&mut rec, 9);
    let store = replay_uniforms(&rec.drain());
    assert_eq!(
        store.get(&(9, "uLightPos")),
        Some(&UniformValue::V3(Vec3::new(1, 2, 3)))
    );
    assert_eq!(
        store.get(&(9, "uEyePos")),
        Some(&UniformValue::V3(Vec3::new(4, 5, 6)))
    );
    assert_eq!(
        store.get(&(9, "uEnabledLighting")),
        Some(&UniformValue::F(UNIT))
    );
}

#[test]
fn renderer_records_setup_clear_and_resize() {
    let mut rec = GlRecorder::new();
    let mut renderer = Renderer::new(&mut rec, (800, 600), Vec3::new(1, 2, 3));
    renderer.clear(&mut rec);
    renderer.resize(&mut rec, 1024, 768);
    assert_eq!(renderer.get_window_dimensions(), (1024, 768));
    let cmds = rec.drain();
    assert_eq!(cmds.len(), 4);
    assert!(matches!(cmds[0], GlCmd::EnableDepthTest));
    assert!(matches!(
        cmds[1],
        GlCmd::ClearColor {
            color: Vec3 { x: 1, y: 2, z: 3 }
        }
    ));
    assert!(matches!(cmds[2], GlCmd::Clear));
    assert!(matches!(
        cmds[3],
        GlCmd::Viewport {
            width: 1024,
            height: 768
        }
    ));
}

#[test]
fn triangle_rotates_colors_once_per_second() {
    let spots = vec![(Vec3::new(0, 0, 0), UNIT)];
    let mut e = HelloTriangle::new(spots);
    let mut rec = GlRecorder::new();
    let bundle = Mat3DUpdate {
        model: None,
        view: None,
        projection: None,
    };
    let uniforms: Vec<UniformKind> = Vec::new();
    e.init(&mut rec, bundle, &uniforms);
    let init_cmds = rec.drain();
    let initial: Vec<i64> = init_cmds
        .iter()
        .find_map(|c| match c {
            GlCmd::BufferData { data, .. } => Some(data.clone()),
            _ => None,
        })
        .expect("init uploads vertex data");
    // Corner colors start red, green, blue.
    assert_eq!(&initial[3..6], &[UNIT, 0, 0]);
    assert_eq!(&initial[9..12], &[0, UNIT, 0]);
    assert_eq!(&initial[15..18], &[0, 0, UNIT]);

    e.update(&mut rec, bundle, &uniforms, 1001);
    let cmds = rec.drain();
    let reuploaded: Vec<i64> = cmds
        .iter()
        .find_map(|c| match c {
            GlCmd::BufferSubData { data, .. } => Some(data.clone()),
            _ => None,
        })
        .expect("a whole second rotates the colors and re-uploads");
    // One rotation left: green, blue, red.
    assert_eq!(&reuploaded[3..6], &[0, UNIT, 0]);
    assert_eq!(&reuploaded[9..12], &[0, 0, UNIT]);
    assert_eq!(&reuploaded[15..18], &[UNIT, 0, 0]);

    // Within the same second nothing is re-uploaded.
    e.update(&mut rec, bundle, &uniforms, 1500);
    assert!(rec
        .drain()
        .iter()
        .all(|c| !matches!(c, GlCmd::BufferSubData { .. })));
}

#[test]
fn sun_orbit_offsets_position() {
    let start = Vec3::new(25 * UNIT, 14 * UNIT, 25 * UNIT);
    let mut sun = Sun::new(start, None);
    assert_eq!(sun.get_pos(), start);
    let mut rec = GlRecorder::new();
    let bundle = Mat3DUpdate {
        model: None,
        view: None,
        projection: None,
    };
    let uniforms: Vec<UniformKind> = Vec::new();
    sun.init(&mut rec, bundle, &uniforms);
    // At a period boundary the orbit angle is zero: ten units along +x.
    sun.update(&mut rec, bundle, &uniforms, 0);
    assert_eq!(
        sun.get_pos(),
        Vec3::new(25 * UNIT + 10 * UNIT, 14 * UNIT, 25 * UNIT)
    );
    // A quarter period earlier in the cycle: ten units along +z.
    sun.update(&mut rec, bundle, &uniforms, 7_500);
    assert_eq!(
        sun.get_pos(),
        Vec3::new(25 * UNIT, 14 * UNIT, 25 * UNIT + 10 * UNIT)
    );
}

#[test]
fn square_strip_draws_per_instance() {
    let faces = vec![
        Square {
            bottom_left: Vec3::new(0, 0, 0),
            top_right: Vec3::new(UNIT, 0, UNIT),
        },
        Square {
            bottom_left: Vec3::new(0, UNIT, 0),
            top_right: Vec3::new(UNIT, UNIT, UNIT),
        },
    ];
    let mut sq = TexSquare::new(faces, None);
    let mut rec = GlRecorder::new();
    let bundle = Mat3DUpdate {
        model: None,
        view: None,
        projection: None,
    };
    let uniforms: Vec<UniformKind> = Vec::new();
    sq.init(&mut rec, bundle, &uniforms);
    rec.drain();
    sq.update_draw(&mut rec, bundle, &uniforms, 0);
    let cmds = rec.drain();
    let strips: Vec<(usize, usize)> = cmds
        .iter()
        .filter_map(|c| match c {
            GlCmd::DrawArraysStrip { first, count } => Some((*first, *count)),
            _ => None,
        })
        .collect();
    assert_eq!(strips, vec![(0, 4), (4, 4)]);
}

#[test]
fn teapot_gathers_indexed_vertices() {
    let model = MeshModel {
        positions: vec![10, 11, 12, 20, 21, 22],
        normals: vec![30, 31, 32],
        position_indices: vec![1, 0],
        normal_indices: vec![0, 0],
    };
    let mut pot = UtahTeapot::new(Vec3::new(0, 0, 0), Vec3::new(UNIT, 0, 0), vec![model]);
    let mut rec = GlRecorder::new();
    let bundle = Mat3DUpdate {
        model: None,
        view: None,
        projection: None,
    };
    let uniforms: Vec<UniformKind> = vec![UniformKind::Lighting(Lighting::new())];
    pot.init(&mut rec, bundle, &uniforms);
    let cmds = rec.drain();
    let data: Vec<i64> = cmds
        .iter()
        .find_map(|c| match c {
            GlCmd::BufferData { data, .. } => Some(data.clone()),
            _ => None,
        })
        .expect("init uploads gathered vertex data");
    assert_eq!(data, vec![20, 21, 22, 30, 31, 32, 10, 11, 12, 30, 31, 32]);
    let store = replay_uniforms(&cmds);
    assert_eq!(
        store.get(&(1, "uColor")),
        Some(&UniformValue::V3(Vec3::new(UNIT, 0, 0)))
    );
    // Unset transform fields resolve to identity and are uploaded once...
    assert_eq!(
        store.get(&(1, "view")),
        Some(&UniformValue::M4(Mat4::identity()))
    );
    assert_eq!(
        store.get(&(1, "projection")),
        Some(&UniformValue::M4(Mat4::identity()))
    );
    // ...the model slot carries the scaled placement instead of identity...
    match store.get(&(1, "model")) {
        Some(UniformValue::M4(m)) => {
            assert_eq!(m.x_axis.x, UNIT / 2);
            assert_eq!(m.y_axis.y, UNIT / 2);
            assert_eq!(m.z_axis.z, UNIT / 2);
            assert_eq!(m.w_axis.w, UNIT);
        }
        other => panic!("model transform missing: {:?}", other),
    }
    // ...and the initial uniforms are applied once.
    assert_eq!(
        store.get(&(1, "uAmbientStrenght")),
        Some(&UniformValue::F(UNIT / 10))
    );
}

#[test]
fn fps_counter_reports_once_a_second() {
    let mut fps = FpsCounter::default();
    assert_eq!(fps.tick(500), None);
    assert_eq!(fps.tick(600), Some(2 * 1_000_000 / 1100));
    // The window restarts after a report.
    assert_eq!(fps.tick(400), None);
}

#[test]
fn control_keys_map_to_lighting_toggles() {
    assert_eq!(
        RendererControl::EnableLight.to_uniform(),
        Some(UniformKind::EnabledLighting(EnabledLighting {
            enabled: true
        }))
    );
    assert_eq!(
        RendererControl::DisableLight.to_uniform(),
        Some(UniformKind::EnabledLighting(EnabledLighting {
            enabled: false
        }))
    );
    assert_eq!(RendererControl::EnableFog.to_uniform(), None);
    assert_eq!(RendererControl::DisableFog.to_uniform(), None);
}

#[test]
fn has_some_reports_presence_of_any_field() {
    let none = Mat3DUpdate {
        model: None,
        view: None,
        projection: None,
    };
    assert!(!none.has_some());
    let with_view = Mat3DUpdate {
        view: Some(Mat4::identity()),
        ..none
    };
    assert!(with_view.has_some());
}

#[test]
fn shader_bundle_activates_and_releases_its_objects() {
    let mut sq = TexSquare::new(
        vec![Square {
            bottom_left: Vec3::new(0, 0, 0),
            top_right: Vec3::new(UNIT, 0, UNIT),
        }],
        None,
    );
    let mut rec = GlRecorder::new();
    let bundle = Mat3DUpdate {
        model: None,
        view: None,
        projection: None,
    };
    let uniforms: Vec<UniformKind> = Vec::new();
    sq.init(&mut rec, bundle, &uniforms);
    rec.drain();
    let shader = sq.get_shader().expect("initialized").clone();
    shader.use_program(&mut rec);
    shader.delete_gl(&mut rec);
    let cmds = rec.drain();
    assert!(matches!(cmds[0], GlCmd::UseProgram { .. }));
    assert!(matches!(cmds[1], GlCmd::DeleteProgram { .. }));
    assert!(cmds
        .iter()
        .any(|c| matches!(c, GlCmd::DeleteVertexArray { .. })));
}
