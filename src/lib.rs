//! Per-user CPU accounting against a fair share of the host.
//!
//! `usage` groups process samples by user, `fair_share` works out each
//! user's entitlement and standing, `load` decides whether the host is
//! overloaded, `cycle` chains them over one snapshot, and `scheduler` drives
//! repeated cycles with cancellable waits.
pub mod usage;
pub mod fair_share;
pub mod load;
pub mod scheduler;
pub mod cycle;
