//! A deferred-submission synchronization engine.
//!
//! Futures describe pending asynchronous device operations without eagerly
//! submitting anything. Each future lazily describes what must be submitted
//! and when; the engine guarantees that submission happens exactly once, in
//! dependency order, with correct cross-operation signaling, even when a
//! chain is torn down out of order.

pub mod engine;
pub mod future;
pub mod now_future;
pub mod plan;
pub mod present;
pub mod semaphore_signal;
pub mod swapchain_acquire_future;
