//! The two shader sources of the animation, and the names they declare.

use vstd::prelude::*;

verus! {

/// The vertex stage: rotates `position` about the origin by `angle`, in the
/// plane, and passes `position.z` through.
pub const VERTEX_SOURCE: &'static str = "attribute vec3 position;
uniform float angle;
void main() {
    float s = sin(angle);
    float c = cos(angle);
    gl_Position = vec4(
        position.x * c - position.y * s,
        position.x * s + position.y * c,
        position.z,
        1.0
    );
}
";

/// The fragment stage: one opaque colour for every fragment.
pub const FRAGMENT_SOURCE: &'static str = "void main() {
    gl_FragColor = vec4(0.8, 0.3, 0.4, 1.0);
}
";

/// The name of the uniform that the vertex stage rotates by.
pub const ANGLE_UNIFORM: &'static str = "angle";

/// The name of the attribute that the vertex stage reads each vertex from.
pub const POSITION_ATTRIBUTE: &'static str = "position";

/// The source of the vertex stage, known not to be empty.
pub fn vertex_source() -> (s: &'static str)
    ensures
        s@ == VERTEX_SOURCE@,
        s@.len() > 0,
{
    proof {
        reveal_strlit("attribute vec3 position;
uniform float angle;
void main() {
    float s = sin(angle);
    float c = cos(angle);
    gl_Position = vec4(
        position.x * c - position.y * s,
        position.x * s + position.y * c,
        position.z,
        1.0
    );
}
");
    }
    VERTEX_SOURCE
}

/// The source of the fragment stage, known not to be empty.
pub fn fragment_source() -> (s: &'static str)
    ensures
        s@ == FRAGMENT_SOURCE@,
        s@.len() > 0,
{
    proof {
        reveal_strlit("void main() {
    gl_FragColor = vec4(0.8, 0.3, 0.4, 1.0);
}
");
    }
    FRAGMENT_SOURCE
}

} // verus!
