//! A generic connection pool.
//!
//! The pool keeps a bounded population of long-lived connections and hands
//! them out to callers for short-lived use. This crate holds the pool's
//! bookkeeping: its configuration, the lock-protected state (idle deque,
//! queue of waiting callers, counters) and the rules that drive checkout,
//! return, connection attempts with backoff, reaping and replenishment.
//! Every operation on that state is verified to keep the pool's counting
//! invariants. Instants and durations are whole milliseconds on the pool's
//! monotonic clock.
pub mod config;
pub mod connector;
pub mod error;
pub mod internals;
pub mod laws;
pub mod record;
pub mod waiter;

pub use config::Builder;
pub use connector::Backoff;
pub use error::RunError;
pub use internals::{Checkout, PoolInternals, State};
pub use record::{Conn, IdleConn};
