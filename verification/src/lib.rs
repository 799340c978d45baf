//! A verified model of a minimal OpenGL rendering pipeline.
//!
//! The host (windowing library, GL loader, driver) is an opaque external
//! capability; this crate holds the decisions the renderer makes around it:
//! which GL commands a frame issues and in what order, how fresh object
//! names are handed out, how a shader stage is chosen from a resource name,
//! how a driver's compile or link verdict becomes a usable `Shader` or
//! `Program` or a structured error, and how a chain of error causes is
//! formatted for display.

pub mod context;
pub mod error;
pub mod geometry;
pub mod mainloop;
pub mod report;
pub mod resources;
pub mod shader;
