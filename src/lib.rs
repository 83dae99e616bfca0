//! Supervision of the companion backend executable ("sidecar") that a desktop
//! host application bundles: where the executable is looked for, how it is
//! spawned, the single slot that tracks the running child, and the decisions
//! the host takes between startup and window close.

pub mod platform;
pub mod locator;
pub mod launcher;
pub mod store;
pub mod supervisor;
