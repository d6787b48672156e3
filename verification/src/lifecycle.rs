//! `up` and `down`: the cold start and the stop of one queue's runtime.

pub mod agent;
pub mod sessions;
pub mod supervisors;
pub mod stop;
pub mod replace;
pub mod start;
pub mod up;
