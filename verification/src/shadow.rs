//! The shadow pass: for each light, the scene's casters are re-drawn
//! depth-only into that light's layer of the shadow map. The layered
//! depth texture, its sampler and the bake pipeline live at the GPU edge;
//! the library records which draw calls each per-light pass makes.
use vstd::prelude::*;

use crate::light::LightRenderGroup;
use crate::{frame_plan, DrawCall, PassKind, State};

verus! {

/// The shadow pass over the scene: one depth-only target layer per light.
pub struct ShadowPass {
    pub light_count: usize,
}

impl ShadowPass {
    /// Sizes the pass to the light group: one shadow-map layer per light.
    pub fn new(light_render_group: &LightRenderGroup) -> (r: Self)
        ensures
            r.light_count == light_render_group.light_objs@.len(),
    {
        ShadowPass { light_count: light_render_group.light_objs.len() }
    }

    /// Records the whole shadow pass: for every light, in list order, one
    /// depth-only pass over the scene. Each per-light pass re-draws every
    /// caster (the skybox and the light markers record nothing depth-only),
    /// so all the inner plans are the same shadow-pass plan.
    pub fn render_pass(&self, state: &State) -> (r: Vec<Vec<DrawCall>>)
        requires
            state.wf(),
        ensures
            r@.len() == self.light_count,
            forall|k: int|
                0 <= k < r@.len() ==> (#[trigger] r@[k])@ == frame_plan(*state, PassKind::Shadow),
    {
        let mut passes: Vec<Vec<DrawCall>> = Vec::new();
        let mut k: usize = 0;
        while k < self.light_count
            invariant
                k <= self.light_count,
                state.wf(),
                passes@.len() == k,
                forall|m: int|
                    0 <= m < k ==> (#[trigger] passes@[m])@ == frame_plan(
                        *state,
                        PassKind::Shadow,
                    ),
            decreases self.light_count - k,
        {
            let pass_calls = state.record_pass(PassKind::Shadow);
            passes.push(pass_calls);
            k += 1;
        }
        passes
    }
}

} // verus!
