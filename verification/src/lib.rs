//! The backend-agnostic core of a shader filter chain: scaling rules, managed
//! render targets, uniform storage and the per-frame orchestration, with the
//! GPU work handed out as plain commands.

pub mod common;
pub mod error;
pub mod filter_chain;
pub mod filter_pass;
pub mod frame_laws;
pub mod framebuffer;
pub mod ieee;
pub mod maps;
pub mod quad;
pub mod samplers;
pub mod scaling;
pub mod semantics;
pub mod stage;
pub mod texture;
pub mod uniforms;
pub mod vulkan;
