//! The two stages of a shader program.

use vstd::prelude::*;

verus! {

/// One half of a shader program.
#[derive(Clone, Copy, Debug, PartialEq, Eq, Structural)]
pub enum Stage {
    Vertex,
    Fragment,
}

/// The enumerant that WebGL uses for a vertex shader object.
pub const VERTEX_SHADER: u32 = 35633;

/// The enumerant that WebGL uses for a fragment shader object.
pub const FRAGMENT_SHADER: u32 = 35632;

impl Stage {
    /// The WebGL enumerant of this stage, as a mathematical value.
    pub open spec fn spec_kind(self) -> u32 {
        match self {
            Stage::Vertex => VERTEX_SHADER,
            Stage::Fragment => FRAGMENT_SHADER,
        }
    }

    /// The WebGL enumerant to create a shader object of this stage with.
    pub fn kind(self) -> (k: u32)
        ensures
            k == self.spec_kind(),
    {
        match self {
            Stage::Vertex => VERTEX_SHADER,
            Stage::Fragment => FRAGMENT_SHADER,
        }
    }
}

} // verus!
