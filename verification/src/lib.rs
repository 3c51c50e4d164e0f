//! Host-side resource lifecycle manager and dispatch orchestrator for a
//! three-stage GPU compute pipeline evaluating a tight-binding band-structure
//! model over a 2D reciprocal-space grid.
//!
//! This crate holds the verified decision logic: how buffer capability sets
//! are derived from a usage intent, how the shared binding layout is
//! assembled, how host/device transfers are sequenced through the staging
//! buffers, and how the three compute stages are ordered. The effectful GPU
//! calls themselves (buffer allocation, command submission, asynchronous
//! mapping) are performed by a thin unverified driver layer that executes the
//! plans produced here.

pub mod buff_utils;
pub mod commands;
pub mod errors;
pub mod grid;
pub mod model;
pub mod orchestrator;
pub mod layout;
pub mod usage;
