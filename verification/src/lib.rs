//! Decision logic for presenting frames to a resizable window.
//!
//! The crate holds no GPU handle. It models the presentable resources as
//! plain descriptors, plans what has to be built or recorded, and decides,
//! event by event, what the presentation loop does next.

pub mod commands;
pub mod compute;
pub mod frame_loop;
pub mod laws;
pub mod offscreen;
pub mod resource_set;
pub mod resources;
pub mod shader;
