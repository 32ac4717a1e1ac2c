use geo_render::geo_gen::{create_cube, create_square, Entity, GeoRenderGroup};
use geo_render::light::{cal_cutoff, LightMotion, LightRenderGroup, LightUniform, Vec4};
use geo_render::model::{Material, MaterialUniform, Mesh, Model, ModelRenderGroup};
use geo_render::skybox;
use geo_render::world_space::{InstanceTransform, Instances, Quat, Vec3};
use geo_render::{light, PassKind, PipelineKind, UNIT_SCALE};

fn still_instance() -> InstanceTransform {
    InstanceTransform {
        position: Vec3 { x: 0, y: 0, z: 0 },
        rotation: Quat::one(),
    }
}

#[test]
fn geo_group_draws_whole_ranges() {
    let entity = Entity::new(create_square(4, 4), 0);
    let instances = Instances::new(vec![still_instance(), still_instance()]);
    let group = GeoRenderGroup::new(entity, instances);
    let calls = group.render(PassKind::Color);
    assert_eq!(calls.len(), 1);
    assert_eq!(calls[0].pipeline, PipelineKind::Geo);
    assert_eq!((calls[0].elements.start, calls[0].elements.end), (0, 6));
    assert_eq!((calls[0].instances.start, calls[0].instances.end), (0, 2));
    assert_eq!(calls[0].material, None);
    // depth-only in the shadow pass, same ranges
    let shadow_calls = group.render(PassKind::Shadow);
    assert_eq!(shadow_calls.len(), 1);
    assert_eq!(shadow_calls[0].pipeline, PipelineKind::Shadow);
    assert_eq!(shadow_calls[0].elements.end, 6);
}

#[test]
fn light_markers_skip_undrawn_and_shadow() {
    let mut drawn = LightUniform::default();
    drawn.color = Vec4 { x: UNIT_SCALE, y: UNIT_SCALE, z: UNIT_SCALE, w: UNIT_SCALE };
    let undrawn = LightUniform::default();
    assert_eq!(undrawn.color.w, 0);
    let group = LightRenderGroup::new(vec![
        (drawn, create_cube(10)),
        (undrawn, create_cube(6)),
    ]);
    let calls = group.render(PassKind::Color);
    assert_eq!(calls.len(), 1, "only the drawn marker renders");
    assert_eq!(calls[0].pipeline, PipelineKind::Light);
    assert_eq!(calls[0].elements.end, 36);
    assert_eq!((calls[0].instances.start, calls[0].instances.end), (0, 1));
    assert!(group.render(PassKind::Shadow).is_empty());
}

#[test]
fn light_defaults_and_cutoff() {
    let light = LightUniform::default();
    assert_eq!(
        (light.position.x, light.position.y, light.position.z),
        (40, 20, -40)
    );
    assert_eq!(light.diffuse_strength, UNIT_SCALE);
    assert_eq!(light.ambient_strength, UNIT_SCALE / 10);
    assert_eq!(light.specular_strength, 3 * UNIT_SCALE / 10);
    assert_eq!(
        (light.point_clq.x, light.point_clq.y, light.point_clq.z, light.point_clq.w),
        (UNIT_SCALE, 450, 75, UNIT_SCALE)
    );
    assert_eq!(light.cutoff_inner_outer_eps.w, 0);

    let cutoff = cal_cutoff(9976, 8660);
    assert_eq!((cutoff.x, cutoff.y, cutoff.z, cutoff.w), (9976, 8660, 1316, UNIT_SCALE));
}

#[test]
fn light_motion_rule() {
    assert_eq!(light::light_motion(0), LightMotion::RotateAroundY);
    assert_eq!(light::light_motion(1), LightMotion::FollowCamera);
    assert_eq!(light::light_motion(2), LightMotion::Still);
    assert_eq!(light::light_motion(7), LightMotion::Still);
}

#[test]
fn skybox_draws_one_triangle_in_color_only() {
    let sky = skybox::create(3);
    let calls = sky.render(PassKind::Color);
    assert_eq!(calls.len(), 1);
    assert_eq!(calls[0].pipeline, PipelineKind::Sky);
    assert_eq!((calls[0].elements.start, calls[0].elements.end), (0, 3));
    assert_eq!((calls[0].instances.start, calls[0].instances.end), (0, 1));
    assert!(sky.render(PassKind::Shadow).is_empty());
}

fn two_mesh_model() -> Model {
    let material = |name: &str| Material {
        name: name.to_string(),
        diffuse_texture: 0,
        uniform_bind_group: MaterialUniform::default().create_buffer_and_bindgroup(),
    };
    Model::new(
        vec![
            Mesh { name: "hull".to_string(), num_elements: 300, material: 1 },
            Mesh { name: "sail".to_string(), num_elements: 60, material: 0 },
        ],
        vec![material("cloth"), material("wood")],
    )
}

#[test]
fn model_group_draws_each_mesh_with_its_material() {
    let group = ModelRenderGroup::new(
        two_mesh_model(),
        Instances::new(vec![still_instance()]),
    );
    let calls = group.render(PassKind::Color);
    assert_eq!(calls.len(), 2);
    assert_eq!(calls[0].pipeline, PipelineKind::Model);
    assert_eq!(calls[0].elements.end, 300);
    assert_eq!(calls[0].material, Some(1));
    assert_eq!(calls[1].elements.end, 60);
    assert_eq!(calls[1].material, Some(0));
    for call in &calls {
        assert_eq!((call.instances.start, call.instances.end), (0, 1));
    }
    // in the shadow pass the same meshes bake depth
    let shadow_calls = group.render(PassKind::Shadow);
    assert_eq!(shadow_calls.len(), 2);
    assert_eq!(shadow_calls[0].pipeline, PipelineKind::Shadow);
}

#[test]
fn material_uniform_values() {
    let uniform = MaterialUniform::default();
    assert_eq!(uniform.ambient, Vec3 { x: UNIT_SCALE, y: UNIT_SCALE, z: UNIT_SCALE });
    assert_eq!(uniform.shininess, 32 * UNIT_SCALE);
    let custom = MaterialUniform::new(
        Vec3 { x: 1, y: 2, z: 3 },
        Vec3 { x: 4, y: 5, z: 6 },
        Vec3 { x: 7, y: 8, z: 9 },
        100,
    );
    let group = custom.create_buffer_and_bindgroup();
    assert_eq!(group.uniform.diffuse, Vec3 { x: 4, y: 5, z: 6 });
    assert_eq!(group.uniform.shininess, 100);
}
