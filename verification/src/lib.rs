//! Verified core of a small real-time rendering backend.
//!
//! The GPU device, window and event loop live outside this crate; what is
//! verified here is everything the backend decides by computation alone:
//! how an oversized texture is split into fixed-size tiles, how vertex and
//! index data are packed into a single buffer, which bindings a bind group
//! uses, which surface format is chosen, and how a resize is clamped to the
//! device's limits.

pub mod bind_group;
pub mod bind_group_layout;
pub mod events;
pub mod material;
pub mod mesh_builder;
pub mod surface;
pub mod tiling;
