//! Supervisor logic for a desktop storage agent: the startup decisions that
//! bring up the local API and the daemon side by side, the status line shown
//! in the presence indicator, and the earnings-milestone notices.

pub mod milestone;
pub mod notice;
pub mod startup;
pub mod status;
