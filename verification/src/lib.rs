//! The decisions of a task-queue supervisor.

pub mod domain;
pub mod integrate;
pub mod json;
pub mod lifecycle;
pub mod path;
pub mod planner;
pub mod supervise;
pub mod text;
