//! Small things that the HTTP side of the exporter needs.

pub mod from_swagger_ui_header;
