//! Verified core of a client for a networked simulation: the entity model,
//! the registry of polled entities, the camera, and the decisions that the
//! menu and the live view take each frame.
//!
//! World coordinates, sizes, zoom factors and times are fixed-point integers
//! in thousandths of their unit, so that every rule here is exact.

pub mod network;
pub mod views;
