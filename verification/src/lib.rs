//! A deterministic arena in which two sandboxed guest programs steer
//! rigid bodies and try to push a ball into the opponent's goal.
//!
//! * [`codec`]: the action word and the thrust direction it encodes.
//! * [`metering`]: the cost table, the budgets, and what a failed
//!   guest call means.
//! * [`judge`]: collider marks, contacts, and who wins.
//! * [`guest`]: loading a guest into a metered sandbox and calling it.
//! * [`world`]: the arena and its physics.
//! * [`battle`]: the match, from its setup to its result.
//! * [`payload`]: guest bytes as they arrive from outside.
//! * [`error`]: the ways in which the engine refuses or aborts.

pub mod battle;
pub mod codec;
pub mod error;
pub mod guest;
pub mod judge;
pub mod metering;
pub mod payload;
pub mod world;
