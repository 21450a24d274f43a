//! The ragdoll: its body parts and how they are put together.

pub mod components;
pub mod functions;
