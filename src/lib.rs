//! The lifecycle controller of a desktop file-sharing application: one-time
//! startup, activations that keep to a single window, background starts,
//! the global quit and about actions, and shutdown.

pub mod action;
pub mod bootstrap;
pub mod laws;
pub mod lifecycle;
