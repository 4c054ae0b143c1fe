//! The compute API: the servers that are still waiting to be built.

pub mod collector;
