//! The two refreshers: one keeps the access token fresh, the other the
//! cache of applications. Each is a loop of request, response and rest; the
//! rules of the loop are here, the requests and the rests are the
//! program's.

pub mod api_token_updater;
pub mod applications_updater;
pub mod metrics_updater;
pub mod schedule;
