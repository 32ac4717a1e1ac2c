//! Scene core of a small real-time renderer: procedural geometry (planes,
//! cubes, UV spheres with shared-vertex deduplication), instance transforms,
//! light state, and the per-frame render-group dispatch that turns the
//! registered groups into an ordered list of draw calls.
//!
//! Everything is kept exact so that it can be verified: planar geometry
//! stores coordinates in half-units (twice the real coordinate), sphere
//! vertices store their grid angles, and transforms use fixed-point
//! quaternion components. The floating-point evaluation of these exact
//! descriptions happens outside the library, at the GPU edge.
use vstd::prelude::*;

pub mod geo_gen;
pub mod light;
pub mod model;
pub mod shadow;
pub mod skybox;
pub mod world_space;

use crate::geo_gen::{
    create_cube, create_floor, create_sphere, create_square, cube_indices, cube_verts, geo_draws,
    quad_verts, Entity, GeoObj, GeoRenderGroup, Surface,
};
use crate::light::{
    cal_cutoff, light_default, light_draws, LightRenderGroup, LightUniform, Vec4,
};
use crate::model::{model_draws, Model, ModelRenderGroup};
use crate::skybox::{skybox_draws, SkyboxRenderGroup};
use crate::world_space::{InstanceTransform, Instances, Quat, Vec3, ROT_SCALE};

verus! {

/// Fixed-point scale of light and material coefficients: a real
/// coefficient `c` (a strength, a color channel, an attenuation term, a
/// cutoff cosine) is stored as `c * UNIT_SCALE`.
pub const UNIT_SCALE: i64 = 10000;

/// A contiguous range handed to a draw call, covering `start..end`.
#[derive(Clone, Copy, PartialEq, Eq, Structural, Debug)]
pub struct Span {
    pub start: u32,
    pub end: u32,
}

impl Span {
    /// The full range `0..len`, as used by every draw call: no partial draws,
    /// no culling.
    pub fn full(len: u32) -> (r: Span)
        ensures
            r == (Span { start: 0, end: len }),
    {
        Span { start: 0, end: len }
    }
}

/// The two render passes of a frame: the color pass draws every group to the
/// surface; the shadow pass re-draws the casters depth-only, once per light.
#[derive(Clone, Copy, PartialEq, Eq, Structural, Debug)]
pub enum PassKind {
    Color,
    Shadow,
}

/// Which configured pipeline a draw call runs on.
#[derive(Clone, Copy, PartialEq, Eq, Structural, Debug)]
pub enum PipelineKind {
    /// Textured geometry (squares, floors, spheres).
    Geo,
    /// Emissive light markers.
    Light,
    /// Loaded models with materials.
    Model,
    /// Fullscreen skybox triangle.
    Sky,
    /// Depth-only shadow baking.
    Shadow,
}

/// One recorded draw call. `elements` is the index range for indexed draws
/// and the vertex range for the skybox's direct draw; `material` is the
/// material slot bound for model draws.
#[derive(Clone, Copy, PartialEq, Eq, Structural, Debug)]
pub struct DrawCall {
    pub pipeline: PipelineKind,
    pub elements: Span,
    pub instances: Span,
    pub material: Option<usize>,
}


/// Texture binding slots of the built-in scene, in the order the GPU edge
/// uploads them: the square's picture, the floor's tiled albedo, the test
/// texture of the animated sphere, and the skybox cubemap.
pub const TEX_SQUARE: u32 = 0;

pub const TEX_FLOOR: u32 = 1;

pub const TEX_SPHERE: u32 = 2;

pub const TEX_SKY_CUBEMAP: u32 = 3;

/// World height of the floor plane.
pub const FLOOR_HEIGHT: i64 = -10;

/// Fixed-point cosines (scale [`UNIT_SCALE`]) of the spotlight's 4° inner
/// and 30° outer cutoff angles.
pub const COS_CUTOFF_INNER: i64 = 9976;

pub const COS_CUTOFF_OUTER: i64 = 8660;

/// The quaternion component of a quarter turn about an axis:
/// `cos(45°) * ROT_SCALE`, which also is `sin(45°) * ROT_SCALE`. The floor
/// quad is tilted flat with it.
pub const FLOOR_TILT_COMPONENT: i64 = 724;

/// One registered renderable: the tagged-variant list the frame loop
/// dispatches over, in insertion order.
pub enum RenderGroup {
    Geo(GeoRenderGroup),
    Model(ModelRenderGroup),
}

/// What one registered group records in a pass.
pub open spec fn group_draws(g: RenderGroup, pass: PassKind) -> Seq<DrawCall> {
    match g {
        RenderGroup::Geo(gg) => geo_draws(gg, pass),
        RenderGroup::Model(mg) => model_draws(mg, pass),
    }
}

/// What the first `n` registered groups record in a pass, in insertion
/// order.
pub open spec fn groups_draws_upto(items: Seq<RenderGroup>, pass: PassKind, n: int) -> Seq<
    DrawCall,
>
    decreases n,
{
    if n <= 0 {
        Seq::empty()
    } else {
        groups_draws_upto(items, pass, n - 1) + group_draws(items[n - 1], pass)
    }
}

impl RenderGroup {
    pub open spec fn wf(self) -> bool {
        match self {
            RenderGroup::Geo(gg) => gg.wf(),
            RenderGroup::Model(mg) => mg.wf(),
        }
    }

    /// Records this group's draw calls for one pass.
    pub fn render(&self, pass: PassKind) -> (r: Vec<DrawCall>)
        requires
            self.wf(),
        ensures
            r@ == group_draws(*self, pass),
    {
        match self {
            RenderGroup::Geo(gg) => gg.render(pass),
            RenderGroup::Model(mg) => mg.render(pass),
        }
    }
}

/// Everything a pass records, in draw order: the skybox, the light
/// markers, every registered group, and the animated sphere last. Every
/// group records in every frame, unconditionally — there is no culling —
/// and order is insertion order.
pub open spec fn frame_plan(s: State, pass: PassKind) -> Seq<DrawCall> {
    skybox_draws(s.skybox, pass) + light_draws(s.light_render_group, pass) + groups_draws_upto(
        s.static_groups@,
        pass,
        s.static_groups@.len() as int,
    ) + geo_draws(s.render_group_sphere, pass)
}

/// How many subdivisions the animated sphere gets after the given total
/// elapsed time: the azimuth count cycles through `3..=17` once a second,
/// and the polar count stays one below it.
pub open spec fn sphere_subdivisions(total_millis: u64) -> int {
    3 + ((total_millis as int / 1000) % 15)
}

/// A window input the scene reacts to directly, reduced to what the
/// reaction depends on. A keyboard event carries whether the camera
/// controller consumed the key, since the controller runs at the GPU edge.
#[derive(Clone, Copy, PartialEq, Eq, Structural, Debug)]
pub enum WindowInput {
    Keyboard { camera_handled: bool },
    MouseWheel,
    MouseLeftPressed,
    Other,
}

/// A window or device event of the frame loop.
#[derive(Clone, Copy, PartialEq, Eq, Structural, Debug)]
pub enum LoopEvent {
    MainEventsCleared,
    MouseMotion,
    CloseRequested,
    EscapePressed,
    Resized { width: u32, height: u32 },
    RedrawRequested,
    Other,
}

/// What the frame loop does with one event.
#[derive(Clone, Copy, PartialEq, Eq, Structural, Debug)]
pub enum LoopAction {
    /// Ask the window for a redraw.
    RequestRedraw,
    /// Feed the mouse delta to the camera.
    DragCamera,
    /// Leave the event loop.
    Exit,
    /// Release the cursor grab and stop dragging.
    ReleaseCursor,
    /// Reconfigure the surface to the new size.
    Resize { width: u32, height: u32 },
    /// Advance the scene and draw a frame.
    Redraw,
    Ignore,
}

/// The frame loop's policy for the events the scene does not consume
/// itself: mouse motion drags the camera only while the mouse is held,
/// closing exits, escape releases the cursor, a resize reconfigures, and a
/// redraw request draws the next frame.
pub fn loop_action(mouse_pressed: bool, event: LoopEvent) -> (r: LoopAction)
    ensures
        r == (match event {
            LoopEvent::MainEventsCleared => LoopAction::RequestRedraw,
            LoopEvent::MouseMotion => if mouse_pressed {
                LoopAction::DragCamera
            } else {
                LoopAction::Ignore
            },
            LoopEvent::CloseRequested => LoopAction::Exit,
            LoopEvent::EscapePressed => LoopAction::ReleaseCursor,
            LoopEvent::Resized { width, height } => LoopAction::Resize { width, height },
            LoopEvent::RedrawRequested => LoopAction::Redraw,
            LoopEvent::Other => LoopAction::Ignore,
        }),
{
    match event {
        LoopEvent::MainEventsCleared => LoopAction::RequestRedraw,
        LoopEvent::MouseMotion => {
            if mouse_pressed {
                LoopAction::DragCamera
            } else {
                LoopAction::Ignore
            }
        },
        LoopEvent::CloseRequested => LoopAction::Exit,
        LoopEvent::EscapePressed => LoopAction::ReleaseCursor,
        LoopEvent::Resized { width, height } => LoopAction::Resize { width, height },
        LoopEvent::RedrawRequested => LoopAction::Redraw,
        LoopEvent::Other => LoopAction::Ignore,
    }
}

/// The whole scene: the surface configuration, the frame and time
/// counters, and every render group, owned.
pub struct State {
    pub config_width: u32,
    pub config_height: u32,
    pub size_width: u32,
    pub size_height: u32,
    pub frame_count: u64,
    pub total_millis: u64,
    pub mouse_pressed: bool,
    pub skybox: SkyboxRenderGroup,
    pub light_render_group: LightRenderGroup,
    pub static_groups: Vec<RenderGroup>,
    pub render_group_sphere: GeoRenderGroup,
}

impl State {
    pub open spec fn wf(self) -> bool {
        &&& self.light_render_group.wf()
        &&& forall|k: int|
            0 <= k < self.static_groups@.len() ==> (#[trigger] self.static_groups@[k]).wf()
        &&& self.render_group_sphere.wf()
    }

    /// Builds the scene: two lights (a white point light marked by a cube,
    /// and a camera-tracking spotlight marked by a dense sphere), the
    /// picture square, the tiled floor, the loaded models handed in, and
    /// the animated sphere.
    pub fn new(width: u32, height: u32, models_with_transforms: Vec<(Model, InstanceTransform)>) -> (r: State)
        requires
            models_with_transforms@.len() + 2 <= u32::MAX,
            forall|k: int|
                0 <= k < models_with_transforms@.len() ==> (
                #[trigger] models_with_transforms@[k]).0.wf()
                    && models_with_transforms@[k].1.wf(),
        ensures
            r.wf(),
            r.config_width == width,
            r.config_height == height,
            r.size_width == width,
            r.size_height == height,
            r.frame_count == 0,
            r.total_millis == 0,
            !r.mouse_pressed,
            r.skybox.cubemap_texture_id == TEX_SKY_CUBEMAP,
            // the two lights: one drawn white point light with a cube
            // marker, one undrawn camera spotlight with a sphere marker
            r.light_render_group.light_uniforms@.len() == 2,
            r.light_render_group.light_uniforms@[0] == (LightUniform {
                color: Vec4 { x: UNIT_SCALE, y: UNIT_SCALE, z: UNIT_SCALE, w: UNIT_SCALE },
                ..light_default()
            }),
            r.light_render_group.light_objs@[0].vertex_data@ == cube_verts(10),
            r.light_render_group.light_objs@[0].index_data@ == cube_indices(),
            r.light_render_group.light_uniforms@[1] == (LightUniform {
                cutoff_inner_outer_eps: Vec4 {
                    x: COS_CUTOFF_INNER,
                    y: COS_CUTOFF_OUTER,
                    z: (COS_CUTOFF_INNER - COS_CUTOFF_OUTER) as i64,
                    w: UNIT_SCALE,
                },
                ambient_strength: (UNIT_SCALE / 100) as i64,
                ..light_default()
            }),
            r.light_render_group.light_objs@[1].surface == (Surface::Sphere {
                radius: 10,
                azim_div: 20,
                polar_div: 20,
            }),
            // the registered groups: the picture square, the tiled floor,
            // then one group per handed-in model, in order
            r.static_groups@.len() == 2 + models_with_transforms@.len(),
            r.static_groups@[0] matches RenderGroup::Geo(g) && g.entity.obj.vertex_data@
                == quad_verts(40, 26, 1) && g.entity.texture_id == TEX_SQUARE
                && g.instances.instance_transforms@ == seq![
                InstanceTransform {
                    position: Vec3 { x: 0, y: 3, z: (-40) as i64 },
                    rotation: Quat { s: ROT_SCALE, x: 0, y: 0, z: 0 },
                },
            ],
            r.static_groups@[1] matches RenderGroup::Geo(g) && g.entity.obj.vertex_data@
                == quad_verts(2800, 2800, geo_gen::FLOOR_TEX_TILING) && g.entity.texture_id
                == TEX_FLOOR && g.instances.instance_transforms@ == seq![
                InstanceTransform {
                    position: Vec3 { x: 0, y: FLOOR_HEIGHT, z: 0 },
                    rotation: Quat {
                        s: FLOOR_TILT_COMPONENT,
                        x: (-FLOOR_TILT_COMPONENT) as i64,
                        y: 0,
                        z: 0,
                    },
                },
            ],
            forall|k: int|
                0 <= k < models_with_transforms@.len() ==> (#[trigger] r.static_groups@[k + 2]
                    matches RenderGroup::Model(m) && m.model == models_with_transforms@[k].0
                    && m.instances.instance_transforms@ == seq![models_with_transforms@[k].1]),
            // the animated sphere, regenerated every frame
            r.render_group_sphere.entity.obj.surface == (Surface::Sphere {
                radius: 10,
                azim_div: 3,
                polar_div: 2,
            }),
            r.render_group_sphere.entity.texture_id == TEX_SPHERE,
            r.render_group_sphere.instances.instance_transforms@ == seq![
                InstanceTransform {
                    position: Vec3 { x: 60, y: 5, z: (-15) as i64 },
                    rotation: Quat { s: ROT_SCALE, x: 0, y: 0, z: 0 },
                },
            ],
    {
        // the two lights
        let mut first_light = LightUniform::default();
        first_light.color = Vec4 { x: UNIT_SCALE, y: UNIT_SCALE, z: UNIT_SCALE, w: UNIT_SCALE };
        let mut second_light = LightUniform::default();
        second_light.cutoff_inner_outer_eps = cal_cutoff(COS_CUTOFF_INNER, COS_CUTOFF_OUTER);
        second_light.ambient_strength = UNIT_SCALE / 100;
        let cube_marker = create_cube(10);
        let sphere_marker = create_sphere(10, 20, 20);
        let mut lights: Vec<(LightUniform, GeoObj)> = Vec::new();
        lights.push((first_light, cube_marker));
        lights.push((second_light, sphere_marker));
        let ghost lights_snapshot = lights@;
        let light_render_group = LightRenderGroup::new(lights);
        proof {
            assert(light_render_group.light_uniforms@[0] == lights_snapshot[0].0);
            assert(light_render_group.light_objs@[0] == lights_snapshot[0].1);
            assert(light_render_group.light_uniforms@[1] == lights_snapshot[1].0);
            assert(light_render_group.light_objs@[1] == lights_snapshot[1].1);
        }
        // the picture square
        let square_group = {
            let obj = create_square(26, 40);
            let entity = Entity::new(obj, TEX_SQUARE);
            let mut transforms: Vec<InstanceTransform> = Vec::new();
            transforms.push(
                InstanceTransform {
                    position: Vec3 { x: 0, y: 3, z: -40 },
                    rotation: Quat::one(),
                },
            );
            GeoRenderGroup::new(entity, Instances::new(transforms))
        };
        // the tiled floor, tilted flat (a quarter turn about X)
        let floor_group = {
            let obj = create_floor(2800, 2800);
            let entity = Entity::new(obj, TEX_FLOOR);
            let mut transforms: Vec<InstanceTransform> = Vec::new();
            transforms.push(
                InstanceTransform {
                    position: Vec3 { x: 0, y: FLOOR_HEIGHT, z: 0 },
                    rotation: Quat {
                        s: FLOOR_TILT_COMPONENT,
                        x: -FLOOR_TILT_COMPONENT,
                        y: 0,
                        z: 0,
                    },
                },
            );
            GeoRenderGroup::new(entity, Instances::new(transforms))
        };
        let mut static_groups: Vec<RenderGroup> = Vec::new();
        static_groups.push(RenderGroup::Geo(square_group));
        static_groups.push(RenderGroup::Geo(floor_group));
        let ghost models = models_with_transforms@;
        let mut rest = models_with_transforms;
        while rest.len() > 0
            invariant
                static_groups@.len() + rest@.len() == 2 + models.len(),
                static_groups@.len() >= 2,
                rest@ == models.subrange(
                    static_groups@.len() - 2,
                    models.len() as int,
                ),
                forall|k: int|
                    0 <= k < models.len() ==> (#[trigger] models[k]).0.wf() && models[k].1.wf(),
                static_groups@[0] == (RenderGroup::Geo(square_group)),
                static_groups@[1] == (RenderGroup::Geo(floor_group)),
                forall|k: int|
                    0 <= k < static_groups@.len() - 2 ==> (#[trigger] static_groups@[k + 2]
                        matches RenderGroup::Model(m) && m.model == models[k].0
                        && m.instances.instance_transforms@ == seq![models[k].1]),
                forall|k: int|
                    0 <= k < static_groups@.len() ==> (#[trigger] static_groups@[k]).wf(),
            decreases rest@.len(),
        {
            let pair = rest.remove(0);
            let mut transforms: Vec<InstanceTransform> = Vec::new();
            transforms.push(pair.1);
            let group = ModelRenderGroup::new(pair.0, Instances::new(transforms));
            static_groups.push(RenderGroup::Model(group));
            proof {
                assert(rest@ =~= models.subrange(
                    static_groups@.len() - 2,
                    models.len() as int,
                ));
            }
        }
        // the animated sphere
        let render_group_sphere = {
            let obj = create_sphere(10, 3, 2);
            let entity = Entity::new(obj, TEX_SPHERE);
            let mut transforms: Vec<InstanceTransform> = Vec::new();
            transforms.push(
                InstanceTransform {
                    position: Vec3 { x: 60, y: 5, z: -15 },
                    rotation: Quat::one(),
                },
            );
            GeoRenderGroup::new(entity, Instances::new(transforms))
        };
        State {
            config_width: width,
            config_height: height,
            size_width: width,
            size_height: height,
            frame_count: 0,
            total_millis: 0,
            mouse_pressed: false,
            skybox: skybox::create(TEX_SKY_CUBEMAP),
            light_render_group,
            static_groups,
            render_group_sphere,
        }
    }

    /// Consumes one window input, as the frame loop offers it before its
    /// own dispatch: camera keys go to the camera controller (whose answer
    /// the event carries), the mouse wheel zooms, and pressing the left
    /// button starts dragging the camera and grabs the cursor.
    pub fn input(&mut self, event: &WindowInput) -> (consumed: bool)
        ensures
            *final(self) == (State {
                mouse_pressed: old(self).mouse_pressed || (*event is MouseLeftPressed),
                ..*old(self)
            }),
            consumed == (match *event {
                WindowInput::Keyboard { camera_handled } => camera_handled,
                WindowInput::MouseWheel => true,
                WindowInput::MouseLeftPressed => true,
                WindowInput::Other => false,
            }),
    {
        match event {
            WindowInput::Keyboard { camera_handled } => *camera_handled,
            WindowInput::MouseWheel => true,
            WindowInput::MouseLeftPressed => {
                self.mouse_pressed = true;
                true
            },
            WindowInput::Other => false,
        }
    }

    /// Stops dragging the camera, when escape releases the cursor grab.
    pub fn release_cursor(&mut self)
        ensures
            *final(self) == (State { mouse_pressed: false, ..*old(self) }),
    {
        self.mouse_pressed = false;
    }

    /// Takes a resize notification: a degenerate size is ignored, any
    /// other updates the remembered window size and the surface
    /// configuration (the GPU edge then reconfigures the surface and
    /// rebuilds the depth and multisample attachments from it).
    pub fn resize(&mut self, new_width: u32, new_height: u32)
        ensures
            new_width > 0 && new_height > 0 ==> *final(self) == (State {
                config_width: new_width,
                config_height: new_height,
                size_width: new_width,
                size_height: new_height,
                ..*old(self)
            }),
            !(new_width > 0 && new_height > 0) ==> *final(self) == *old(self),
    {
        if new_width > 0 && new_height > 0 {
            self.size_width = new_width;
            self.size_height = new_height;
            self.config_width = new_width;
            self.config_height = new_height;
        }
    }

    /// Advances the scene by `dt_millis`: the elapsed total grows, and the
    /// animated sphere's mesh is regenerated at the subdivision counts the
    /// new total dictates ([`sphere_subdivisions`] azimuth steps, one
    /// fewer polar steps). The camera and light motion that accompany this
    /// step are floating-point work of the GPU edge, driven by
    /// [`light::light_motion`].
    pub fn update(&mut self, dt_millis: u64)
        requires
            old(self).wf(),
            old(self).total_millis + dt_millis <= u64::MAX,
        ensures
            final(self).wf(),
            final(self).total_millis == old(self).total_millis + dt_millis,
            final(self).render_group_sphere.entity.obj.surface == (Surface::Sphere {
                radius: 10,
                azim_div: sphere_subdivisions(final(self).total_millis) as usize,
                polar_div: (sphere_subdivisions(final(self).total_millis) - 1) as usize,
            }),
            final(self).render_group_sphere.entity.obj.index_data@.len() == 6
                * sphere_subdivisions(final(self).total_millis) * (sphere_subdivisions(
                final(self).total_millis,
            ) - 1),
            final(self).render_group_sphere.entity.obj.vertex_data@.len() == (
            sphere_subdivisions(final(self).total_millis) + 1) * sphere_subdivisions(
                final(self).total_millis,
            ),
            final(self).render_group_sphere.entity.texture_id == old(
                self,
            ).render_group_sphere.entity.texture_id,
            final(self).render_group_sphere.instances == old(self).render_group_sphere.instances,
            final(self).config_width == old(self).config_width,
            final(self).config_height == old(self).config_height,
            final(self).size_width == old(self).size_width,
            final(self).size_height == old(self).size_height,
            final(self).frame_count == old(self).frame_count,
            final(self).mouse_pressed == old(self).mouse_pressed,
            final(self).skybox == old(self).skybox,
            final(self).light_render_group == old(self).light_render_group,
            final(self).static_groups == old(self).static_groups,
    {
        self.total_millis = self.total_millis + dt_millis;
        let count = (3 + (self.total_millis / 1000) % 15) as usize;
        proof {
            assert(3 <= count <= 17);
            assert((count + 1) * (count - 1 + 1) <= 0xFFFF) by (nonlinear_arith)
                requires
                    3 <= count <= 17,
            ;
        }
        let obj = create_sphere(10, count, count - 1);
        self.render_group_sphere.entity.obj = obj;
    }

    /// Records one pass over the whole scene: the skybox, the light
    /// markers, every registered group, and the animated sphere, in that
    /// order.
    pub fn record_pass(&self, pass: PassKind) -> (r: Vec<DrawCall>)
        requires
            self.wf(),
        ensures
            r@ == frame_plan(*self, pass),
    {
        let mut plan = self.skybox.render(pass);
        let mut light_calls = self.light_render_group.render(pass);
        plan.append(&mut light_calls);
        let n = self.static_groups.len();
        let mut k: usize = 0;
        while k < n
            invariant
                k <= n,
                n == self.static_groups@.len(),
                self.wf(),
                plan@ == skybox_draws(self.skybox, pass) + light_draws(
                    self.light_render_group,
                    pass,
                ) + groups_draws_upto(self.static_groups@, pass, k as int),
            decreases n - k,
        {
            let mut group_calls = self.static_groups[k].render(pass);
            plan.append(&mut group_calls);
            k += 1;
        }
        let mut sphere_calls = self.render_group_sphere.render(pass);
        plan.append(&mut sphere_calls);
        plan
    }

    /// Records one frame's color pass and counts the frame. Every
    /// registered group draws, unconditionally, in insertion order.
    pub fn render(&mut self) -> (r: Vec<DrawCall>)
        requires
            old(self).wf(),
            old(self).frame_count < u64::MAX,
        ensures
            *final(self) == (State { frame_count: (old(self).frame_count + 1) as u64, ..*old(self) }),
            r@ == frame_plan(*old(self), PassKind::Color),
    {
        self.frame_count = self.frame_count + 1;
        self.record_pass(PassKind::Color)
    }
}

} // verus!
