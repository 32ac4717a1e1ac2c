use cgmath::{Deg, Matrix4, Rotation3, Vector3};
use geo_render::world_space::{
    InstanceTransform, Instances, Quat, Vec3, ROT_SCALE,
};

const SS: i64 = ROT_SCALE * ROT_SCALE;

#[test]
fn identity_rotation_gives_translation_matrix() {
    let t = InstanceTransform {
        position: Vec3 { x: 1, y: 2, z: 3 },
        rotation: Quat::one(),
    };
    let raw = t.to_raw();
    // rotation block: the identity, scaled
    assert_eq!(raw.model.c0r0, SS);
    assert_eq!(raw.model.c1r1, SS);
    assert_eq!(raw.model.c2r2, SS);
    assert_eq!(raw.model.c0r1, 0);
    assert_eq!(raw.model.c0r2, 0);
    assert_eq!(raw.model.c1r0, 0);
    assert_eq!(raw.model.c1r2, 0);
    assert_eq!(raw.model.c2r0, 0);
    assert_eq!(raw.model.c2r1, 0);
    // translation column: the position, scaled like the rest
    assert_eq!(raw.model.c3r0, SS);
    assert_eq!(raw.model.c3r1, 2 * SS);
    assert_eq!(raw.model.c3r2, 3 * SS);
    assert_eq!(raw.model.c3r3, SS);
    // homogeneous row
    assert_eq!(raw.model.c0r3, 0);
    assert_eq!(raw.model.c1r3, 0);
    assert_eq!(raw.model.c2r3, 0);
    // normal matrix: the identity, scaled
    assert_eq!(raw.normal.c0r0, SS);
    assert_eq!(raw.normal.c1r1, SS);
    assert_eq!(raw.normal.c2r2, SS);
    assert_eq!(raw.normal.c0r1, 0);
}

/// Quantizes a cgmath quaternion into the library's fixed-point form.
fn quantize(q: cgmath::Quaternion<f32>) -> Quat {
    Quat {
        s: (q.s * ROT_SCALE as f32).round() as i64,
        x: (q.v.x * ROT_SCALE as f32).round() as i64,
        y: (q.v.y * ROT_SCALE as f32).round() as i64,
        z: (q.v.z * ROT_SCALE as f32).round() as i64,
    }
}

#[test]
fn raw_form_matches_cgmath_product() {
    let rotation = cgmath::Quaternion::from_axis_angle(Vector3::unit_y(), Deg(90.0));
    let position = Vector3::new(5.0f32, -7.0, 11.0);
    let expected: [[f32; 4]; 4] =
        (Matrix4::from_translation(position) * Matrix4::from(rotation)).into();

    let t = InstanceTransform {
        position: Vec3 { x: 5, y: -7, z: 11 },
        rotation: quantize(rotation),
    };
    let raw = t.to_raw();
    let got: [[f32; 4]; 4] = [
        [
            raw.model.c0r0 as f32 / SS as f32,
            raw.model.c0r1 as f32 / SS as f32,
            raw.model.c0r2 as f32 / SS as f32,
            raw.model.c0r3 as f32 / SS as f32,
        ],
        [
            raw.model.c1r0 as f32 / SS as f32,
            raw.model.c1r1 as f32 / SS as f32,
            raw.model.c1r2 as f32 / SS as f32,
            raw.model.c1r3 as f32 / SS as f32,
        ],
        [
            raw.model.c2r0 as f32 / SS as f32,
            raw.model.c2r1 as f32 / SS as f32,
            raw.model.c2r2 as f32 / SS as f32,
            raw.model.c2r3 as f32 / SS as f32,
        ],
        [
            raw.model.c3r0 as f32 / SS as f32,
            raw.model.c3r1 as f32 / SS as f32,
            raw.model.c3r2 as f32 / SS as f32,
            raw.model.c3r3 as f32 / SS as f32,
        ],
    ];
    for c in 0..4 {
        for r in 0..4 {
            assert!(
                (got[c][r] - expected[c][r]).abs() < 0.01,
                "entry ({}, {}): {} vs {}",
                c,
                r,
                got[c][r],
                expected[c][r]
            );
        }
    }
}

#[test]
fn instances_flatten_in_order() {
    let t0 = InstanceTransform {
        position: Vec3 { x: 0, y: 0, z: 0 },
        rotation: Quat::one(),
    };
    let t1 = InstanceTransform {
        position: Vec3 { x: 9, y: 0, z: 0 },
        rotation: Quat::one(),
    };
    let instances = Instances::new(vec![t0, t1]);
    let raws = instances.get_raw();
    assert_eq!(raws.len(), 2);
    assert_eq!(raws[0].model.c3r0, 0);
    assert_eq!(raws[1].model.c3r0, 9 * SS);
    let span = instances.get_instance_range();
    assert_eq!(span.start, 0);
    assert_eq!(span.end, 2);
}
