//! Coordinator for hash-time-locked atomic swaps between two blockchains.
//!
//! A swap starts when the source chain reports an `Initiated` transfer. The
//! coordinator locks matching assets on the destination chain under the same
//! hash lock, waits for the claim that reveals the pre-image there, and then
//! completes the transfer on the source chain with that pre-image. Both
//! directions run concurrently, each tracked by its own registry of active
//! swaps.

pub mod active_swap;
pub mod bridge_service;
pub mod byte_chain;
pub mod events;
pub mod types;
