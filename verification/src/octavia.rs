//! The load balancing service: pools, amphorae and load balancers.

pub mod collector;
pub mod status;
