//! Core of an interactive 3D scene editor: an authoritative scene document,
//! a GPU-oriented mirror of that document, a mutation executor that keeps the
//! two synchronized, a per-frame render scheduler, and an input router.
//!
//! Scalar shader parameters (positions, wave amplitudes, colors) are carried
//! as 32-bit patterns and are moved between document, mirror and GPU without
//! arithmetic, so every contract about them is stated as bit-for-bit identity.

pub mod scalars;
pub mod transform;
pub mod water;
pub mod document;
pub mod gpu;
pub mod scheduler;
pub mod mirror;
pub mod commands;
pub mod input;
pub mod session;
