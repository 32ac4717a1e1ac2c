//! The skybox: one fullscreen triangle drawn behind everything, sampled
//! from a cubemap. The cubemap's six face images are decoded and uploaded
//! at the GPU edge; the library keeps the slot the cubemap is bound under.
use vstd::prelude::*;

use crate::{DrawCall, PassKind, PipelineKind, Span};

verus! {

/// The skybox render group: the configured sky pipeline and its cubemap
/// binding.
pub struct SkyboxRenderGroup {
    pub cubemap_texture_id: u32,
}

/// What the skybox records in a pass: nothing in the shadow pass (the sky
/// casts no shadow), and one direct three-vertex, one-instance draw — the
/// fullscreen triangle — in the color pass.
pub open spec fn skybox_draws(g: SkyboxRenderGroup, pass: PassKind) -> Seq<DrawCall> {
    if pass is Shadow {
        Seq::empty()
    } else {
        seq![
            DrawCall {
                pipeline: PipelineKind::Sky,
                elements: Span { start: 0, end: 3 },
                instances: Span { start: 0, end: 1 },
                material: None,
            },
        ]
    }
}

impl SkyboxRenderGroup {
    /// Records the skybox's draw calls for one pass.
    pub fn render(&self, pass: PassKind) -> (r: Vec<DrawCall>)
        ensures
            r@ == skybox_draws(*self, pass),
    {
        let mut calls: Vec<DrawCall> = Vec::new();
        if let PassKind::Color = pass {
            calls.push(
                DrawCall {
                    pipeline: PipelineKind::Sky,
                    elements: Span { start: 0, end: 3 },
                    instances: Span { start: 0, end: 1 },
                    material: None,
                },
            );
        }
        proof {
            assert(calls@ =~= skybox_draws(*self, pass));
        }
        calls
    }
}

/// Builds the skybox group over an already-uploaded cubemap binding.
pub fn create(cubemap_texture_id: u32) -> (r: SkyboxRenderGroup)
    ensures
        r.cubemap_texture_id == cubemap_texture_id,
{
    SkyboxRenderGroup { cubemap_texture_id }
}

} // verus!
