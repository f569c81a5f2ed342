//! What the operator configures, and how the program is invoked.

pub mod app_settings;
pub mod args;
pub mod tls_parser;
