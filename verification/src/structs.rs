//! The records of a crash report, as they stand after parsing.

pub mod constants;
pub mod crash_info;
pub mod crash_log;
pub mod incident_report;
