//! A verified model of a pooled embedded-database access layer.
//!
//! One engine handle serializes all calls against its engine through a
//! capacity-one permit and carries an atomically swappable session. A
//! fixed-size pool hands handles out FIFO, and a single dispatch worker
//! drains a bounded task queue, matching each task to one handle and one
//! reply. The embedded engine itself is an external collaborator: its
//! calls are performed by the surrounding runtime, and their outcomes are
//! fed back into the verified state transitions here.

pub mod context;
pub mod engine;
pub mod error;
pub mod message;
pub mod pool;
pub mod session;
pub mod value;
pub mod worker;
