//! A bridge between a turn-based grid agent and a frame-driven display.
//!
//! The agent is stepped at a fixed interval by a [`resources::GameTimer`];
//! after each step its derived state is published into a
//! [`store::SnapshotStore`], from which independent consumers redraw.

pub mod components;
pub mod entities;
pub mod events;
pub mod resources;
pub mod store;
pub mod systems;
pub mod text;
pub mod tile;
pub mod wrapper;
