//! Verified core of a host-configuration pipeline: an ordered catalog of
//! named, fallible steps is executed sequentially, each failure is isolated,
//! and a strictly ordered sequence of progress snapshots is produced for a
//! polling controller.
//!
//! Two deliberate policies shape every contract here. First, an external
//! program that launches but exits with a non-zero status counts as success
//! at the executor layer; only a program that cannot be launched at all is
//! a failure (see `command::reduce_outcome`). Second, no step failure ever
//! halts a run or reaches the user beyond a log entry: a run always
//! reaches 100 percent and reports completion, even if every step failed
//! (see `pipeline::run_pipeline` and `pipeline::lemma_failure_isolation`).

pub mod catalog;
pub mod command;
pub mod controller;
pub mod pipeline;
pub mod snapshot;
pub mod step;
pub mod text;

pub use snapshot::ProgressSnapshot;
