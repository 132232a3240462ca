//! Carrying out the steps of a frame.
//!
//! The library issues the steps that are calls into the context. The two
//! that are not, writing the time into the uniform as a fraction of seconds
//! and registering the callback with the host, are handed back to the host
//! loop.

use vstd::prelude::*;
use web_sys::WebGlRenderingContext;
use crate::gl;
use crate::scheduler::Step;

verus! {

/// The bit by which WebGL names the colour buffer.
pub const COLOR_BUFFER_BIT: u32 = 16384;

/// The enumerant by which WebGL names a list of triangles.
pub const TRIANGLES: u32 = 4;

/// A step that only the host loop can carry out.
#[derive(Clone, Copy, Debug, PartialEq, Eq, Structural)]
pub enum HostWork {
    /// Write `millis` milliseconds, as seconds, into the angle uniform.
    WriteAngle { millis: u64 },
    /// Register the redraw callback again.
    Rearm,
}

/// What is left of `step` for the host: nothing of a clear or a draw call.
pub open spec fn host_work(step: Step) -> Option<HostWork> {
    match step {
        Step::WriteAngle { millis } => Some(HostWork::WriteAngle { millis }),
        Step::ClearColor => None,
        Step::DrawTriangles { .. } => None,
        Step::Rearm => Some(HostWork::Rearm),
    }
}

/// Carries out one step of a frame: clears the colour buffer or issues the
/// draw call on `gl`, and returns nothing; or returns the step as work for
/// the host, and calls nothing.
pub fn perform(gl: &WebGlRenderingContext, step: Step) -> (left: Option<HostWork>)
    ensures
        left == host_work(step),
{
    match step {
        Step::WriteAngle { millis } => Some(HostWork::WriteAngle { millis }),
        Step::ClearColor => {
            gl::clear(gl, COLOR_BUFFER_BIT);
            None
        },
        Step::DrawTriangles { first, count } => {
            gl::draw_arrays(gl, TRIANGLES, first, count);
            None
        },
        Step::Rearm => Some(HostWork::Rearm),
    }
}

} // verus!
