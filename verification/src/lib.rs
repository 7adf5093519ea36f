//! Native iOS integrations, reduced to the state machines and policies that
//! decide what the native bridges are asked to do and what the game observes.
//!
//! Each integration keeps its data model, its decisions and its desktop fake
//! here; the C-ABI calls, the engine plumbing and the JSON wire format live in
//! the companion application crate, which hands this library plain values.

pub mod ads;
pub mod att;
pub mod gamekit;
pub mod notifications;
pub mod platform;
pub mod store;
pub mod text;
