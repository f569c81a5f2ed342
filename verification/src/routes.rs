//! What the HTTP API answers.

pub mod applications;
