//! The digital twin engine: event queue, workflow engine and synchronizer.

pub mod events;
pub mod workflow;
pub mod sync;
