//! Lifecycle of a long-lived, auto-reconnecting tunnel session and the protocol that
//! assigns it a stable identity against a tunnel-management service.
//!
//! The library holds the decisions: retry delays, name validation and allocation,
//! quota recovery, pruning of stale state, the reconnect state machine and the
//! latest-value status slot. The caller performs the remote calls and feeds their
//! outcomes back in.
pub mod backoff;
pub mod model;
pub mod names;
pub mod allocator;
pub mod endpoint_state;
pub mod token;
pub mod reconnect;
pub mod port_uri;
pub mod launcher;
pub mod rename;
