//! What is told of each HTTP request that the exporter has handled.

use crate::text::{decimal, decimal_text};
use vstd::prelude::*;

verus! {

/// What stands for the path of a request that matched no route.
pub const UNSUPPORTED_URL: &'static str = "unsupported-url";

/// The names and values of a list of labels.
pub open spec fn labels_of(labels: Seq<(String, String)>) -> Seq<(Seq<char>, Seq<char>)> {
    labels.map_values(|label: (String, String)| (label.0@, label.1@))
}

/// The labels of a request: its method, the host it was sent to, the route
/// that it matched, and the status of the response. A request that names
/// no host has the empty one, and all requests that matched no route share
/// one path, so that paths made up by clients do not each become a series.
pub open spec fn request_labels_of(
    method: Seq<char>,
    host: Option<Seq<char>>,
    matched_path: Option<Seq<char>>,
    status: u16,
) -> Seq<(Seq<char>, Seq<char>)> {
    seq![
        ("method"@, method),
        (
            "host"@,
            match host {
                Some(host) => host,
                None => Seq::empty(),
            },
        ),
        (
            "path"@,
            match matched_path {
                Some(path) => path,
                None => UNSUPPORTED_URL@,
            },
        ),
        ("status"@, decimal(status as nat)),
    ]
}

/// The characters of a text that may be absent.
pub open spec fn str_of(text: Option<&str>) -> Option<Seq<char>> {
    match text {
        Some(text) => Some(text@),
        None => None,
    }
}

/// The labels under which a request is counted and its timing and sizes are
/// observed.
pub fn request_labels(
    method: &str,
    host: Option<&str>,
    matched_path: Option<&str>,
    status: u16,
) -> (labels: Vec<(String, String)>)
    ensures
        labels_of(labels@) == request_labels_of(method@, str_of(host), str_of(matched_path), status),
{
    let host_label = match host {
        Some(host) => String::from_str(host),
        None => String::new(),
    };
    let path_label = match matched_path {
        Some(path) => String::from_str(path),
        None => String::from_str(UNSUPPORTED_URL),
    };
    let mut labels: Vec<(String, String)> = Vec::new();
    labels.push((String::from_str("method"), String::from_str(method)));
    labels.push((String::from_str("host"), host_label));
    labels.push((String::from_str("path"), path_label));
    labels.push((String::from_str("status"), decimal_text(status as u64)));
    assert(labels_of(labels@) =~= request_labels_of(
        method@,
        str_of(host),
        str_of(matched_path),
        status,
    ));
    labels
}

} // verus!
