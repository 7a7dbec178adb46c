use vstd::prelude::*;

verus! {

/// The compiled SPIR-V words of one pipeline's shader stages. A depth-only
/// pipeline has no fragment stage.
pub struct ShaderData {
    pub fragment: Option<Vec<u32>>,
    pub vertex: Vec<u32>,
}

/// The shaders of every pipeline, compiled once at start-up.
pub struct ShaderSet {
    pub model: ShaderData,
    pub light: ShaderData,
    pub shadow: ShaderData,
}

} // verus!
