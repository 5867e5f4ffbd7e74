//! Replay planning for recorded WebGPU traces.
//!
//! A trace is a list of actions that a program made against a WebGPU device.
//! This library decides, for each recorded action, which device operations
//! replay it and in which order, and which actions cannot be replayed at all.
//! The operations themselves are carried out by the caller against a
//! `wgpu-core` global; the library never touches the device.
//!
//! The modules:
//! - [`identity`]: the identity filters that hand recorded ids back unchanged
//!   but for their backend.
//! - [`trace`]: the recorded actions and commands, over payload types chosen
//!   by the caller.
//! - [`plan`]: the operations that replay an action or a command list.
//! - [`shader`]: the shader sources made from a trace's data files.
//! - [`laws`]: properties of the planning that hold for every trace.

pub mod identity;
pub mod trace;
pub mod plan;
pub mod laws;
pub mod shader;

pub use identity::{IdentityPassThrough, IdentityPassThroughFactory};
