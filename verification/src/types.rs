//! The data that the exporter reads from the directory and hands out again.

pub mod applications;
pub mod time;
