//! Bounded, verified session and history tracking for a small line-oriented
//! network service.
//!
//! The crate proves the concurrency-safe bookkeeping core of such a service:
//! a fixed-capacity session table with first-fit slot allocation and explicit
//! admission control, a fixed-capacity overwrite-oldest connection log, and
//! the per-connection handler lifecycle that feeds both. Transport I/O, the
//! administrative console loop and the request-to-response mapping are left
//! to the surrounding program; they hand plain values in and take plain
//! values back.

pub mod handler;
pub mod history;
pub mod http;
pub mod session;
pub mod state;
