//! Core of a score-tracking system for rhythm games: a file-based lock
//! manager, a task queue persisted as one JSON record per line, the dispatch
//! protocol a worker follows to claim and commit a task, and the control-plane
//! protocol for querying a live worker.
//!
//! All file, network and clock access is left to the embedding program; this
//! crate holds the data model, the queue-file format, and every decision the
//! protocols make, each with a verified contract.
use vstd::prelude::*;

pub mod aux_data;
pub mod cache;
pub mod codec;
pub mod config;
pub mod database;
pub mod gh3;
pub mod index;
pub mod file_ex;
pub mod ipc;
pub mod job;
pub mod lockfile;
pub mod queue;
pub mod record;
pub mod songdb;
pub mod task;
pub mod timestamp;
pub mod uuid_string;
pub mod worker;
pub mod yarg;

verus! {

/// Sum of two machine words; the overflowing inputs are excluded.
pub fn example_add(left: u64, right: u64) -> (r: u64)
    requires
        left + right <= u64::MAX,
    ensures
        r == left + right,
{
    left + right
}

} // verus!
