use geo_render::geo_gen::Surface;
use geo_render::model::{Material, MaterialUniform, Mesh, Model};
use geo_render::shadow::ShadowPass;
use geo_render::world_space::{InstanceTransform, Quat, Vec3};
use geo_render::{
    loop_action, LoopAction, LoopEvent, PipelineKind, RenderGroup, State, WindowInput,
};

#[test]
fn scene_builds_and_draws_every_group_in_order() {
    let mut state = State::new(800, 600, Vec::new());
    assert_eq!(state.light_render_group.light_uniforms.len(), 2);
    assert_eq!(state.static_groups.len(), 2);
    let plan = state.render();
    assert_eq!(state.frame_count, 1);
    // skybox, the one drawn light marker, square, floor, sphere
    let pipelines: Vec<PipelineKind> = plan.iter().map(|c| c.pipeline).collect();
    assert_eq!(
        pipelines,
        vec![
            PipelineKind::Sky,
            PipelineKind::Light,
            PipelineKind::Geo,
            PipelineKind::Geo,
            PipelineKind::Geo,
        ]
    );
    // the square's one draw covers its whole quad
    assert_eq!(plan[2].elements.end, 6);
    // the animated sphere starts at 3 by 2 subdivisions: 36 indices
    assert_eq!(plan[4].elements.end, 36);
}

#[test]
fn second_frame_draws_the_same_plan() {
    let mut state = State::new(320, 200, Vec::new());
    let first = state.render();
    let second = state.render();
    assert_eq!(state.frame_count, 2);
    assert_eq!(first, second);
}

#[test]
fn update_retessellates_the_sphere() {
    let mut state = State::new(800, 600, Vec::new());
    state.update(5500);
    assert_eq!(state.total_millis, 5500);
    // 5 elapsed seconds: 3 + 5 % 15 = 8 azimuth steps, 7 polar steps
    assert_eq!(
        state.render_group_sphere.entity.obj.surface,
        Surface::Sphere { radius: 10, azim_div: 8, polar_div: 7 }
    );
    assert_eq!(state.render_group_sphere.entity.obj.index_data.len(), 6 * 8 * 7);
    // a full cycle later the counts wrap around
    state.update(15000 - 5500 + 500);
    assert_eq!(
        state.render_group_sphere.entity.obj.surface,
        Surface::Sphere { radius: 10, azim_div: 3, polar_div: 2 }
    );
}

#[test]
fn resize_ignores_degenerate_sizes() {
    let mut state = State::new(800, 600, Vec::new());
    state.resize(0, 400);
    assert_eq!((state.config_width, state.config_height), (800, 600));
    state.resize(1024, 768);
    assert_eq!((state.config_width, state.config_height), (1024, 768));
    assert_eq!((state.size_width, state.size_height), (1024, 768));
}

#[test]
fn shadow_pass_redraws_casters_per_light() {
    let state = State::new(800, 600, Vec::new());
    let shadow = ShadowPass::new(&state.light_render_group);
    assert_eq!(shadow.light_count, 2);
    let passes = shadow.render_pass(&state);
    assert_eq!(passes.len(), 2);
    for pass in &passes {
        // the skybox and the light markers record nothing depth-only;
        // square, floor and sphere each bake depth
        assert_eq!(pass.len(), 3);
        for call in pass {
            assert_eq!(call.pipeline, PipelineKind::Shadow);
        }
    }
}

#[test]
fn scene_registers_models_after_the_floor() {
    let model = Model::new(
        vec![Mesh { name: "girl".to_string(), num_elements: 1200, material: 0 }],
        vec![Material {
            name: "skin".to_string(),
            diffuse_texture: 7,
            uniform_bind_group: MaterialUniform::default().create_buffer_and_bindgroup(),
        }],
    );
    let transform = InstanceTransform {
        position: Vec3 { x: -60, y: -11, z: 0 },
        rotation: Quat::one(),
    };
    let mut state = State::new(800, 600, vec![(model, transform)]);
    assert_eq!(state.static_groups.len(), 3);
    match &state.static_groups[2] {
        RenderGroup::Model(group) => {
            assert_eq!(group.model.meshes[0].num_elements, 1200);
            assert_eq!(group.instances.instance_transforms[0].position.x, -60);
        }
        _ => panic!("the model group follows the floor"),
    }
    let plan = state.render();
    // skybox, light marker, square, floor, the model's one mesh, sphere
    assert_eq!(plan.len(), 6);
    assert_eq!(plan[4].pipeline, PipelineKind::Model);
    assert_eq!(plan[4].elements.end, 1200);
    assert_eq!(plan[4].material, Some(0));
}

#[test]
fn input_consumption_and_mouse_grab() {
    let mut state = State::new(800, 600, Vec::new());
    assert!(!state.mouse_pressed);
    assert!(!state.input(&WindowInput::Keyboard { camera_handled: false }));
    assert!(state.input(&WindowInput::Keyboard { camera_handled: true }));
    assert!(state.input(&WindowInput::MouseWheel));
    assert!(!state.input(&WindowInput::Other));
    assert!(!state.mouse_pressed);
    assert!(state.input(&WindowInput::MouseLeftPressed));
    assert!(state.mouse_pressed);
    state.release_cursor();
    assert!(!state.mouse_pressed);
}

#[test]
fn loop_policy() {
    assert_eq!(loop_action(false, LoopEvent::MainEventsCleared), LoopAction::RequestRedraw);
    assert_eq!(loop_action(true, LoopEvent::MouseMotion), LoopAction::DragCamera);
    assert_eq!(loop_action(false, LoopEvent::MouseMotion), LoopAction::Ignore);
    assert_eq!(loop_action(false, LoopEvent::CloseRequested), LoopAction::Exit);
    assert_eq!(loop_action(true, LoopEvent::EscapePressed), LoopAction::ReleaseCursor);
    assert_eq!(
        loop_action(false, LoopEvent::Resized { width: 640, height: 480 }),
        LoopAction::Resize { width: 640, height: 480 }
    );
    assert_eq!(loop_action(false, LoopEvent::RedrawRequested), LoopAction::Redraw);
    assert_eq!(loop_action(true, LoopEvent::Other), LoopAction::Ignore);
}
