//! Keeps an in-memory picture of the application registrations of an Azure
//! Active Directory tenant, and of how long each of their client secrets
//! still has to live.
//!
//! The crate holds the rules only: what to request, when to request it again,
//! what a response does to the cache. Sending the requests, sleeping and
//! serving the cache over HTTP is left to the program that links it.

pub mod app_metrics;
pub mod cache;
pub mod middleware;
pub mod routes;
pub mod settings;
pub mod tasks;
pub mod text;
pub mod types;
pub mod utils;
