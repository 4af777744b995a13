//! Supervision trees for POSIX hosts, in the style of Erlang/OTP.
//!
//! A tree of supervisors and workers is declared up front; each supervisor
//! owns an ordered list of children and restarts a child that exits,
//! according to a per-child restart policy and backoff policy.  The modules
//! here hold the decision logic of that runtime: the backoff state machine,
//! the tree model and its partition into one watcher plus one process per
//! child supervisor, and the supervision loop's reaction to each wait status.
//! The process-level plumbing (`fork`, `waitpid`, signals, the cooperative
//! runtime that hosts worker tasks) lives with the embedding binary, which
//! drives it by the verified decision functions exported here.

pub mod backoff;
pub mod backoff_policy;
pub mod process_group;
pub mod restartable;
pub mod supervisor;
pub mod sys;
pub mod task;
pub mod watcher;
pub mod worker;
