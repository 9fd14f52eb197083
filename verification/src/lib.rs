//! A per-token download counter: one operation increments the count held for
//! a token, the other reads it, falling back on a durable backing store the
//! first time a token is read before ever being incremented in this process.
//!
//! The in-memory cache and its consistency with the backing store are the
//! verified core. The HTTP transport and the store connection are external
//! collaborators: they call into this crate with plain values and carry its
//! answers back onto the wire.

pub mod counter;
pub mod format;
pub mod laws;
