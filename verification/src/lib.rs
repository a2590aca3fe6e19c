//! A verified core for a concurrent TCP port scanner.
//!
//! The library holds the scan logic itself: validating the port range and
//! concurrency limit, enumerating the ports to probe, bounding how many
//! probes may run at once, aggregating probe outcomes into a complete
//! report ordered by port, and labeling well-known services. The network
//! I/O that carries the probes out lives outside the library and feeds
//! plain values (a port, an open/closed outcome) back into it.

pub mod config;
pub mod coordinator;
pub mod governor;
pub mod report;
pub mod services;
