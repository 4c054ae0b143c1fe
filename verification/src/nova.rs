//! The compute service: what each server is busy with.

pub mod collector;
