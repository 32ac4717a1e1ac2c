//! Loaded models: meshes, materials, and the render group that draws one
//! instanced call per mesh with that mesh's material bound.
//!
//! The vertex and index buffers of a loaded mesh live at the GPU edge; the
//! library keeps what the draw calls depend on — each mesh's element count
//! and material slot — and guarantees that every mesh names a material the
//! model actually owns.
use vstd::prelude::*;

use crate::world_space::{Instances, Vec3};
use crate::{DrawCall, PassKind, PipelineKind, Span, UNIT_SCALE};

verus! {

/// The material coefficients of one mesh, fixed-point scaled by
/// [`UNIT_SCALE`].
#[derive(Clone, Copy, PartialEq, Eq, Structural, Debug)]
pub struct MaterialUniform {
    pub ambient: Vec3,
    pub diffuse: Vec3,
    pub specular: Vec3,
    pub shininess: i64,
}

/// The default material: white ambient, diffuse and specular, shininess 32.
pub open spec fn material_default() -> MaterialUniform {
    MaterialUniform {
        ambient: Vec3 { x: UNIT_SCALE, y: UNIT_SCALE, z: UNIT_SCALE },
        diffuse: Vec3 { x: UNIT_SCALE, y: UNIT_SCALE, z: UNIT_SCALE },
        specular: Vec3 { x: UNIT_SCALE, y: UNIT_SCALE, z: UNIT_SCALE },
        shininess: (32 * UNIT_SCALE) as i64,
    }
}

impl Default for MaterialUniform {
    fn default() -> (r: Self)
        ensures
            r == material_default(),
    {
        MaterialUniform {
            ambient: Vec3 { x: UNIT_SCALE, y: UNIT_SCALE, z: UNIT_SCALE },
            diffuse: Vec3 { x: UNIT_SCALE, y: UNIT_SCALE, z: UNIT_SCALE },
            specular: Vec3 { x: UNIT_SCALE, y: UNIT_SCALE, z: UNIT_SCALE },
            shininess: 32 * UNIT_SCALE,
        }
    }
}

impl MaterialUniform {
    pub fn new(ambient: Vec3, diffuse: Vec3, specular: Vec3, shininess: i64) -> (r: Self)
        ensures
            r == (MaterialUniform { ambient, diffuse, specular, shininess }),
    {
        MaterialUniform { ambient, diffuse, specular, shininess }
    }

    /// Wraps the uniform as the bindable group a pipeline takes; the
    /// uniform buffer itself is allocated at the GPU edge.
    pub fn create_buffer_and_bindgroup(self) -> (r: MaterialGroup)
        ensures
            r.uniform == self,
    {
        MaterialGroup { uniform: self }
    }
}

/// A material's bindable uniform block.
pub struct MaterialGroup {
    pub uniform: MaterialUniform,
}

/// One material of a model: its name, the slot of its diffuse texture, and
/// its uniform block.
pub struct Material {
    pub name: String,
    pub diffuse_texture: u32,
    pub uniform_bind_group: MaterialGroup,
}

/// One mesh of a model: its name, how many indices its buffer holds, and
/// which of the model's materials it is drawn with.
pub struct Mesh {
    pub name: String,
    pub num_elements: u32,
    pub material: usize,
}

/// A loaded model: its meshes and the materials they reference.
pub struct Model {
    pub meshes: Vec<Mesh>,
    pub materials: Vec<Material>,
}

impl Model {
    /// Every mesh's material slot names a material the model owns.
    pub open spec fn wf(self) -> bool {
        forall|k: int|
            0 <= k < self.meshes@.len() ==> (#[trigger] self.meshes@[k].material)
                < self.materials@.len()
    }

    pub fn new(meshes: Vec<Mesh>, materials: Vec<Material>) -> (r: Self)
        requires
            forall|k: int|
                0 <= k < meshes@.len() ==> (#[trigger] meshes@[k].material) < materials@.len(),
        ensures
            r.meshes == meshes,
            r.materials == materials,
            r.wf(),
    {
        Model { meshes, materials }
    }
}

/// The draw calls of the first `n` meshes in a pass: one indexed,
/// instanced call per mesh over its whole element range and the group's
/// whole instance range, with the mesh's material bound — on the model
/// pipeline in the color pass, the depth-only pipeline in the shadow pass.
pub open spec fn model_draws_upto(g: ModelRenderGroup, pass: PassKind, n: int) -> Seq<DrawCall>
    decreases n,
{
    if n <= 0 {
        Seq::empty()
    } else {
        model_draws_upto(g, pass, n - 1) + seq![
            DrawCall {
                pipeline: if pass is Shadow {
                    PipelineKind::Shadow
                } else {
                    PipelineKind::Model
                },
                elements: Span { start: 0, end: g.model.meshes@[n - 1].num_elements },
                instances: Span {
                    start: 0,
                    end: g.instances.instance_transforms@.len() as u32,
                },
                material: Some(g.model.meshes@[n - 1].material),
            },
        ]
    }
}

/// What the model group records in a pass: every mesh, in model order.
pub open spec fn model_draws(g: ModelRenderGroup, pass: PassKind) -> Seq<DrawCall> {
    model_draws_upto(g, pass, g.model.meshes@.len() as int)
}

/// A renderable unit for a loaded model: the model, its instance set, and
/// the configured model pipeline.
pub struct ModelRenderGroup {
    pub model: Model,
    pub instances: Instances,
}

impl ModelRenderGroup {
    pub open spec fn wf(self) -> bool {
        &&& self.model.wf()
        &&& self.instances.wf()
    }

    pub fn new(model: Model, instances: Instances) -> (r: Self)
        requires
            model.wf(),
            instances.wf(),
        ensures
            r.model == model,
            r.instances == instances,
            r.wf(),
    {
        ModelRenderGroup { model, instances }
    }

    /// The one draw call of a mesh: its whole element range, the given
    /// instance range, and its material slot.
    fn draw_mesh_instanced(mesh: &Mesh, pipeline: PipelineKind, instances: Span) -> (r: DrawCall)
        ensures
            r == (DrawCall {
                pipeline,
                elements: Span { start: 0, end: mesh.num_elements },
                instances,
                material: Some(mesh.material),
            }),
    {
        DrawCall {
            pipeline,
            elements: Span { start: 0, end: mesh.num_elements },
            instances,
            material: Some(mesh.material),
        }
    }

    /// Records this group's draw calls for one pass: one full-range,
    /// instanced call per mesh with that mesh's material bound, in model
    /// order, in both passes (models cast shadows).
    pub fn render(&self, pass: PassKind) -> (r: Vec<DrawCall>)
        requires
            self.wf(),
        ensures
            r@ == model_draws(*self, pass),
            forall|k: int|
                0 <= k < r@.len() ==> ((#[trigger] r@[k].material) matches Some(m) && m
                    < self.model.materials@.len()),
    {
        let pipeline = match pass {
            PassKind::Color => PipelineKind::Model,
            PassKind::Shadow => PipelineKind::Shadow,
        };
        let mut calls: Vec<DrawCall> = Vec::new();
        let n = self.model.meshes.len();
        let mut k: usize = 0;
        while k < n
            invariant
                k <= n,
                n == self.model.meshes@.len(),
                self.wf(),
                pipeline == (if pass is Shadow {
                    PipelineKind::Shadow
                } else {
                    PipelineKind::Model
                }),
                calls@ == model_draws_upto(*self, pass, k as int),
                forall|m: int|
                    0 <= m < calls@.len() ==> ((#[trigger] calls@[m].material) matches Some(mi)
                        && mi < self.model.materials@.len()),
            decreases n - k,
        {
            let call = Self::draw_mesh_instanced(
                &self.model.meshes[k],
                pipeline,
                self.instances.get_instance_range(),
            );
            calls.push(call);
            proof {
                assert(calls@ =~= model_draws_upto(*self, pass, k as int + 1));
            }
            k += 1;
        }
        calls
    }
}

} // verus!
