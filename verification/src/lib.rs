//! Coordination core for a single, shared, lazily started background event
//! loop.
//!
//! Callers attach event sources to the loop and detach them again. The loop
//! thread is started by the first registration and stopped by the release of
//! the last one.
//!
//! - `state` holds the registry: whether a loop runs, its handle, the count
//!   of active registrations, and every decision on them.
//! - `token` holds the capability that a registration hands out and that a
//!   release uses up.
//! - `runloop` carries registrations and releases out on a Core Foundation
//!   run loop.
//! - `model` and `laws` state and prove what holds of the registry over
//!   whole runs.
//!
//! The registry is generic in the loop's handle and in the source. It never
//! spawns a thread and never waits: the embedding program takes the lock,
//! spawns the loop thread when the registry asks for one, and reports what
//! the rendezvous with that thread yielded.

pub mod error;
pub mod laws;
pub mod model;
pub mod runloop;
pub mod state;
pub mod token;
