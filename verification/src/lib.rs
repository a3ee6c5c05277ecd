//! A self-paced exercise trainer's progression engine.
//!
//! A learner works through an ordered catalog of exercises ("koans"). On each
//! run, an external test harness is invoked over the exercises activated so
//! far, the controller activates at most one further exercise, and a closing
//! message is chosen from the harness result and the activation result.
//!
//! This crate holds the verified core: the catalog, the progress record, the
//! progression controller, the run outcome with its message table, and the
//! line format of the manifest and record files. Reading files and launching
//! the harness command stay outside, handing plain values in and out.

pub mod catalog;
pub mod controller;
pub mod errors;
pub mod harness;
pub mod manifest;
pub mod outcome;
pub mod progress;
