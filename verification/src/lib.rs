//! A minimal WebGL animation harness: a shader program builder with typed
//! diagnostics, and the scheduling rules of a redraw loop that writes one
//! uniform and issues one draw call per tick.

pub mod draw;
pub mod error;
pub mod gl;
pub mod scheduler;
pub mod shader;
pub mod sources;
pub mod stage;
