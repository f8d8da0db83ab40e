//! A harness that measures the peak memory, CPU time and wall-clock time of a
//! command and all of its descendants through the control-group (cgroup v2)
//! memory accounting of the kernel.
//!
//! The crate holds the decision logic of the harness: which control-group
//! directory hosts a run, in which order the leaf group is provisioned and the
//! child is created, how the collected counters are turned into a report, and
//! that every directory the run created is removed again on every exit path.
//! The surrounding binary performs the file, process and signal operations and
//! feeds their outcomes back as events.

pub mod harness;
pub mod metrics;
pub mod scan;
