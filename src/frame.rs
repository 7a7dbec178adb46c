use vstd::prelude::*;
use crate::lighting::MAX_LIGHTS;

verus! {

/// Bind-group slot of the camera uniforms in the main and marker passes.
pub const CAMERA_SLOT: u32 = 0;

/// Bind-group slot of the light count and the packed light array.
pub const LIGHTS_SLOT: u32 = 1;

/// Bind-group slot of the shadow depth-array texture and its sampler.
pub const SHADOW_SLOT: u32 = 2;

/// Bind-group slot of a mesh's material texture and sampler.
pub const MATERIAL_SLOT: u32 = 3;

/// Bind-group slot of the scratch light record in a shadow pass.
pub const SCRATCH_SLOT: u32 = 0;

/// What the draw orchestration needs to know of one mesh.
#[derive(Clone, Copy, Debug, PartialEq, Eq, Structural)]
pub struct MeshShape {
    pub index_count: u32,
    pub material: usize,
}

/// What the draw orchestration needs to know of one model: its meshes in
/// order, and how many instances of it are drawn.
pub struct ModelShape {
    pub meshes: Vec<MeshShape>,
    pub instance_count: u32,
}

/// One instanced indexed draw: indices `0..index_count` of mesh `mesh` of
/// model `model`, over instances `0..instance_count`.
#[derive(Clone, Copy, Debug, PartialEq, Eq, Structural)]
pub struct Draw {
    pub model: usize,
    pub mesh: usize,
    pub material: usize,
    pub index_count: u32,
    pub instance_count: u32,
}

/// The draw of mesh `j` of model `m`.
pub open spec fn draw_of(models: Seq<ModelShape>, m: int, j: int) -> Draw {
    Draw {
        model: m as usize,
        mesh: j as usize,
        material: models[m].meshes@[j].material,
        index_count: models[m].meshes@[j].index_count,
        instance_count: models[m].instance_count,
    }
}

/// The draws of the meshes of model `m`, in mesh order.
pub open spec fn model_draws(models: Seq<ModelShape>, m: int) -> Seq<Draw> {
    Seq::new(models[m].meshes@.len(), |j: int| draw_of(models, m, j))
}

/// The draws of every mesh of the first `k` models, model by model.
pub open spec fn draws_upto(models: Seq<ModelShape>, k: int) -> Seq<Draw>
    decreases k,
{
    if k <= 0 {
        Seq::empty()
    } else {
        draws_upto(models, k - 1) + model_draws(models, k - 1)
    }
}

/// The draws of every mesh of every model, model by model.
pub open spec fn scene_draws_spec(models: Seq<ModelShape>) -> Seq<Draw> {
    draws_upto(models, models.len() as int)
}

/// The draws that a pass over the scene issues: for every model, for every
/// mesh, one draw over all instances of the model.
pub fn scene_draws(models: &Vec<ModelShape>) -> (r: Vec<Draw>)
    ensures
        r@ == scene_draws_spec(models@),
{
    let mut r: Vec<Draw> = Vec::new();
    let mut m: usize = 0;
    while m < models.len()
        invariant
            m <= models@.len(),
            r@ == draws_upto(models@, m as int),
        decreases models@.len() - m,
    {
        let model = &models[m];
        let mut j: usize = 0;
        while j < model.meshes.len()
            invariant
                m < models@.len(),
                *model == models@[m as int],
                j <= model.meshes@.len(),
                r@ == draws_upto(models@, m as int) + model_draws(models@, m as int).take(j as int),
            decreases model.meshes@.len() - j,
        {
            let mesh = model.meshes[j];
            r.push(
                Draw {
                    model: m,
                    mesh: j,
                    material: mesh.material,
                    index_count: mesh.index_count,
                    instance_count: model.instance_count,
                },
            );
            assert(model_draws(models@, m as int).take(j + 1) == model_draws(
                models@,
                m as int,
            ).take(j as int).push(draw_of(models@, m as int, j as int)));
            j = j + 1;
        }
        assert(model_draws(models@, m as int).take(j as int) == model_draws(models@, m as int));
        m = m + 1;
    }
    r
}

/// One step of a frame, in the order in which the steps run.
#[derive(Clone, Copy, Debug, PartialEq, Eq, Structural)]
pub enum Pass {
    /// Copy the record of light `light` into the scratch buffer, then draw
    /// the scene depth-only into layer `layer` of the shadow texture, with
    /// depth cleared to the far plane and stencil to zero.
    Shadow { light: usize, layer: u32 },
    /// Submit the work recorded so far, so that the shadow maps are written
    /// before they are sampled.
    SubmitBake,
    /// Draw the scene lit and shadowed into the frame.
    Main,
    /// Draw a marker at each light.
    LightMarkers,
}

/// The shadow passes of a frame with `light_count` lights: one per light, in
/// registry order, light `i` into layer `i`.
pub open spec fn shadow_passes(light_count: int) -> Seq<Pass> {
    Seq::new(light_count as nat, |i: int| Pass::Shadow { light: i as usize, layer: i as u32 })
}

/// The steps of a frame: every shadow pass, the submission of the bake, the
/// main pass, and the marker pass when markers are shown.
pub open spec fn frame_spec(light_count: int, show_lights: bool) -> Seq<Pass> {
    shadow_passes(light_count) + seq![Pass::SubmitBake, Pass::Main] + if show_lights {
        seq![Pass::LightMarkers]
    } else {
        Seq::empty()
    }
}

/// The steps of a frame with `light_count` lights; the shadow texture has a
/// layer for each of at most `MAX_LIGHTS` lights.
pub fn frame_plan(light_count: usize, show_lights: bool) -> (r: Vec<Pass>)
    requires
        light_count <= MAX_LIGHTS,
    ensures
        r@ == frame_spec(light_count as int, show_lights),
{
    let mut r: Vec<Pass> = Vec::new();
    let mut i: usize = 0;
    while i < light_count
        invariant
            i <= light_count <= MAX_LIGHTS,
            r@ == shadow_passes(i as int),
        decreases light_count - i,
    {
        r.push(Pass::Shadow { light: i, layer: i as u32 });
        assert(r@ =~= shadow_passes(i + 1));
        i = i + 1;
    }
    r.push(Pass::SubmitBake);
    r.push(Pass::Main);
    if show_lights {
        r.push(Pass::LightMarkers);
    }
    assert(r@ =~= frame_spec(light_count as int, show_lights));
    r
}

} // verus!
