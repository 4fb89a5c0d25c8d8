//! A rate limiter for one key at a time, after the generic cell rate
//! algorithm (GCRA).
//!
//! A quota grants `count` events per `seconds` seconds and tolerates a
//! burst of `burst` events on top. For each key the limiter keeps one
//! instant in a store, the key's theoretical arrival time, and decides from
//! it and from the clock whether an event is admitted.

pub mod arith;
pub mod clock;
pub mod duration;
pub mod gcra;
pub mod laws;
pub mod rate_limiter;
pub mod store;

pub use rate_limiter::RateLimiter;
pub use store::Store;
