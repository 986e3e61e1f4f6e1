//! A task marketplace ledger: tasks are posted with an escrowed reward, taken
//! by workers, completed with a rating, and a platform fee is collected.
//!
//! The hosting environment (caller identity, clock, attached value, value
//! transfers) is kept outside: each operation takes a [`platform::Context`]
//! and hands back the transfer it wants made as a plain value.

pub mod rating;
pub mod task;
pub mod platform;
pub mod laws;
