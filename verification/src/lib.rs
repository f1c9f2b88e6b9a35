//! Control core of a first-person camera for a 3D renderer.
//!
//! The camera splits into two layers. This crate is the verified control
//! layer: which mouse buttons and keys each gesture is bound to, how one
//! window event is dispatched to a gesture, and which movement the
//! per-frame keyboard poll demands. The numeric layer (eye position,
//! yaw/pitch angles, view and projection matrices) works on floating-point
//! values, which the verifier does not accept; it lives with the renderer
//! and applies exactly the decisions this crate hands it.

pub mod input;
pub mod camera;
