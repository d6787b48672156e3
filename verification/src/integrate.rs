//! Landing a validated run on `main`, and the receipt check the supervisor's
//! validation shares.

pub mod receipt;
pub mod logs;
pub mod land;
pub mod migrations;
pub mod begin;
pub mod follow_ups;
pub mod conclude;
