//! The network service: which L3 agent hosts which router.

pub mod collector;
