//! Point and spot lights: the per-light uniform block, the cutoff helper,
//! the per-frame motion rule, and the light markers' draw calls.
//!
//! Coefficients are fixed-point, scaled by [`UNIT_SCALE`]; the
//! floating-point work a light takes — its shadow view-projection matrix
//! and the trigonometric motion updates — is a function of these plain
//! values and is evaluated at the GPU edge.
use vstd::prelude::*;

use crate::geo_gen::GeoObj;
use crate::{DrawCall, PassKind, PipelineKind, Span, UNIT_SCALE};

verus! {

/// Four fixed-point coefficients, as a light uniform packs them.
#[derive(Clone, Copy, PartialEq, Eq, Structural, Debug)]
pub struct Vec4 {
    pub x: i64,
    pub y: i64,
    pub z: i64,
    pub w: i64,
}

/// A world-space position or direction with integer coordinates.
pub use crate::world_space::Vec3;

/// The uniform block of one light.
///
/// Conventions shared with the shader: a light is a point light when
/// its homogeneous position coordinate is 1 and directional otherwise;
/// `point_clq.w == 0` means no attenuation and `cutoff_inner_outer_eps.w
/// == 0` means no spotlight cutoff; `color.w == 0` means the light's
/// marker mesh is not drawn. The shadow view-projection matrix that the
/// GPU form appends is recomputed every frame from this block at the GPU
/// edge.
#[derive(Clone, Copy, PartialEq, Eq, Structural, Debug)]
pub struct LightUniform {
    pub position: Vec3,
    pub direction: Vec3,
    pub color: Vec4,
    pub diffuse_strength: i64,
    pub ambient_strength: i64,
    pub specular_strength: i64,
    /// Constant, linear and quadratic attenuation, and the attenuation flag.
    pub point_clq: Vec4,
    /// Cosine of the inner and outer cutoff angles, their difference, and
    /// the cutoff flag.
    pub cutoff_inner_outer_eps: Vec4,
}

/// The default light: a white point light standing at `(40, 20, -40)` with
/// full diffuse, a tenth ambient, and three tenths specular strength, the
/// standard attenuation coefficients, no cutoff, and an undrawn marker.
pub open spec fn light_default() -> LightUniform {
    LightUniform {
        position: Vec3 { x: 40, y: 20, z: (-40) as i64 },
        direction: Vec3 { x: 0, y: 0, z: 0 },
        color: Vec4 { x: UNIT_SCALE, y: UNIT_SCALE, z: UNIT_SCALE, w: 0 },
        diffuse_strength: UNIT_SCALE,
        ambient_strength: (UNIT_SCALE / 10) as i64,
        specular_strength: (3 * UNIT_SCALE / 10) as i64,
        point_clq: Vec4 { x: UNIT_SCALE, y: 450, z: 75, w: UNIT_SCALE },
        cutoff_inner_outer_eps: Vec4 { x: 0, y: 0, z: 0, w: 0 },
    }
}

impl Default for LightUniform {
    fn default() -> (r: Self)
        ensures
            r == light_default(),
    {
        LightUniform {
            position: Vec3 { x: 40, y: 20, z: -40 },
            direction: Vec3 { x: 0, y: 0, z: 0 },
            color: Vec4 { x: UNIT_SCALE, y: UNIT_SCALE, z: UNIT_SCALE, w: 0 },
            diffuse_strength: UNIT_SCALE,
            ambient_strength: UNIT_SCALE / 10,
            specular_strength: 3 * UNIT_SCALE / 10,
            point_clq: Vec4 { x: UNIT_SCALE, y: 450, z: 75, w: UNIT_SCALE },
            cutoff_inner_outer_eps: Vec4 { x: 0, y: 0, z: 0, w: 0 },
        }
    }
}

/// Packs a spotlight cutoff from the cosines of its inner and outer
/// angles (fixed-point): the two cosines, their difference, and the
/// enabled flag. The inner angle is the narrower one, so its cosine must
/// be the larger.
pub fn cal_cutoff(inner: i64, outer: i64) -> (r: Vec4)
    requires
        -UNIT_SCALE <= outer < inner <= UNIT_SCALE,
    ensures
        r == (Vec4 { x: inner, y: outer, z: (inner - outer) as i64, w: UNIT_SCALE }),
{
    Vec4 { x: inner, y: outer, z: inner - outer, w: UNIT_SCALE }
}

/// What a light does each frame.
#[derive(Clone, Copy, PartialEq, Eq, Structural, Debug)]
pub enum LightMotion {
    /// Orbit the world Y axis at the fixed angular rate.
    RotateAroundY,
    /// Stand in front of the camera and face where it faces.
    FollowCamera,
    /// Hold still.
    Still,
}

/// The per-frame motion rule of each light, by its place in the list: the
/// first light orbits the world Y axis, the second tracks the camera, any
/// further light holds still. The trigonometry these motions take is
/// evaluated at the GPU edge, driven by this rule.
pub fn light_motion(i: usize) -> (r: LightMotion)
    ensures
        i == 0 ==> r == LightMotion::RotateAroundY,
        i == 1 ==> r == LightMotion::FollowCamera,
        i >= 2 ==> r == LightMotion::Still,
{
    if i == 0 {
        LightMotion::RotateAroundY
    } else if i == 1 {
        LightMotion::FollowCamera
    } else {
        LightMotion::Still
    }
}

/// The draw calls the first `n` lights record in the color pass: one
/// indexed call per light whose marker is drawn (`color.w != 0`), over the
/// whole index range of that light's marker mesh, one instance each, in
/// list order.
pub open spec fn light_draws_upto(
    lights: Seq<LightUniform>,
    objs: Seq<GeoObj>,
    n: int,
) -> Seq<DrawCall>
    decreases n,
{
    if n <= 0 {
        Seq::empty()
    } else {
        light_draws_upto(lights, objs, n - 1) + (if lights[n - 1].color.w != 0 {
            seq![
                DrawCall {
                    pipeline: PipelineKind::Light,
                    elements: Span { start: 0, end: objs[n - 1].index_data@.len() as u32 },
                    instances: Span { start: 0, end: 1 },
                    material: None,
                },
            ]
        } else {
            Seq::empty()
        })
    }
}

/// What the light group records in a pass: nothing in the shadow pass
/// (light markers cast no shadows), and one call per drawn marker in the
/// color pass.
pub open spec fn light_draws(g: LightRenderGroup, pass: PassKind) -> Seq<DrawCall> {
    if pass is Shadow {
        Seq::empty()
    } else {
        light_draws_upto(g.light_uniforms@, g.light_objs@, g.light_uniforms@.len() as int)
    }
}

/// The light subsystem: the uniform block of every light and, for each,
/// the marker mesh drawn at the light's position.
pub struct LightRenderGroup {
    pub light_uniforms: Vec<LightUniform>,
    pub light_objs: Vec<GeoObj>,
}

impl LightRenderGroup {
    pub open spec fn wf(self) -> bool {
        &&& self.light_uniforms@.len() == self.light_objs@.len()
        &&& forall|k: int| 0 <= k < self.light_objs@.len() ==> (#[trigger] self.light_objs@[k]).wf()
    }

    /// Builds the light group from each light's uniform block and marker
    /// mesh, keeping list order.
    pub fn new(light_uniforms_and_objs: Vec<(LightUniform, GeoObj)>) -> (r: Self)
        requires
            forall|k: int|
                0 <= k < light_uniforms_and_objs@.len() ==> (
                #[trigger] light_uniforms_and_objs@[k].1).wf(),
        ensures
            r.wf(),
            r.light_uniforms@.len() == light_uniforms_and_objs@.len(),
            forall|k: int|
                0 <= k < light_uniforms_and_objs@.len() ==> r.light_uniforms@[k]
                    == (#[trigger] light_uniforms_and_objs@[k]).0 && r.light_objs@[k]
                    == light_uniforms_and_objs@[k].1,
    {
        let ghost orig = light_uniforms_and_objs@;
        let mut rest = light_uniforms_and_objs;
        let mut light_uniforms: Vec<LightUniform> = Vec::new();
        let mut light_objs: Vec<GeoObj> = Vec::new();
        while rest.len() > 0
            invariant
                light_uniforms@.len() == light_objs@.len(),
                light_uniforms@.len() + rest@.len() == orig.len(),
                rest@ == orig.subrange(light_uniforms@.len() as int, orig.len() as int),
                forall|k: int|
                    0 <= k < light_uniforms@.len() ==> light_uniforms@[k] == (
                    #[trigger] orig[k]).0 && light_objs@[k] == orig[k].1,
            decreases rest@.len(),
        {
            let pair = rest.remove(0);
            light_uniforms.push(pair.0);
            light_objs.push(pair.1);
            proof {
                assert(rest@ =~= orig.subrange(light_uniforms@.len() as int, orig.len() as int));
            }
        }
        proof {
            assert forall|k: int| 0 <= k < light_objs@.len() implies (
            #[trigger] light_objs@[k]).wf() by {
                assert(light_objs@[k] == orig[k].1);
            }
        }
        LightRenderGroup { light_uniforms, light_objs }
    }

    /// Records the light markers' draw calls for one pass: none in the
    /// shadow pass, one full-range call per drawn marker in the color
    /// pass, in list order.
    pub fn render(&self, pass: PassKind) -> (r: Vec<DrawCall>)
        requires
            self.wf(),
        ensures
            r@ == light_draws(*self, pass),
    {
        let mut calls: Vec<DrawCall> = Vec::new();
        if let PassKind::Shadow = pass {
            proof {
                assert(calls@ =~= light_draws(*self, pass));
            }
            return calls;
        }
        let n = self.light_uniforms.len();
        let mut k: usize = 0;
        while k < n
            invariant
                k <= n,
                n == self.light_uniforms@.len(),
                self.wf(),
                calls@ == light_draws_upto(self.light_uniforms@, self.light_objs@, k as int),
            decreases n - k,
        {
            if self.light_uniforms[k].color.w != 0 {
                let call = DrawCall {
                    pipeline: PipelineKind::Light,
                    elements: self.light_objs[k].get_index_range(),
                    instances: Span { start: 0, end: 1 },
                    material: None,
                };
                calls.push(call);
            }
            proof {
                assert(calls@ =~= light_draws_upto(
                    self.light_uniforms@,
                    self.light_objs@,
                    k as int + 1,
                ));
            }
            k += 1;
        }
        calls
    }
}

} // verus!
