//! The supervisor: execute claimed tasks in parallel, validate their receipts,
//! have accepted runs reviewed, land them on main one at a time, triage failed
//! ones and resume parked ones.

pub mod adopt;
pub mod background;
pub mod cleanup;
pub mod clock;
pub mod disk;
pub mod draft_planner;
pub mod drive;
pub mod exit;
pub mod finding_planner;
pub mod headless;
pub mod plan_review;
pub mod recovery;
pub mod recovery_watch;
pub mod resume;
pub mod resume_watch;
pub mod slot;
pub mod stall;
pub mod sweep;
pub mod tick;
pub mod triage;
