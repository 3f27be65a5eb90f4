//! Decisions of the visualization start-up of an agent-based simulation engine.
//!
//! The engine's start-up system looks for the primary window, and only when
//! exactly one is found does it announce itself, set up the 2D camera that
//! frames the simulation and then call the user's init callback and graphics
//! set-up. The lookup itself, the camera geometry (computed in floating point),
//! the spawning and the callbacks stay with the caller; this crate holds the
//! plan of effects and proves it.

pub mod startup;

pub use startup::{plan_init_system, StartupEffect, WindowLookup};
