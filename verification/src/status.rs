//! The service status report.

use vstd::prelude::*;
use crate::api::{ApiKind, api_name};
use crate::text::{decimal, push_decimal, push_str, same_text, string_of};

verus! {

/// What probing a service gave: `None` when the request failed, otherwise
/// whether the answer had a success status and how many milliseconds it took.
pub type Probe = Option<(bool, u128)>;

/// One line of the status report.
pub struct StatusRow {
    /// The service's configuration name.
    pub name: String,
    /// Whether the service answered with a success status.
    pub online: bool,
    /// `<ms> ms`, or `- ms` when the request failed.
    pub latency: String,
    /// Whether the configuration selects this service.
    pub configured: bool,
}

/// The latency shown for a probe.
pub open spec fn latency_text(probe: Probe) -> Seq<char> {
    match probe {
        Some((_, ms)) => decimal(ms as nat) + " ms"@,
        None => "- ms"@,
    }
}

/// Whether a probe found the service online.
pub open spec fn online_of(probe: Probe) -> bool {
    match probe {
        Some((ok, _)) => ok,
        None => false,
    }
}

/// The report line for a service, given its probe and the configured API type.
pub fn status_row(kind: ApiKind, probe: Probe, configured_api: &str) -> (r: StatusRow)
    ensures
        r.name@ == api_name(kind),
        r.online == online_of(probe),
        r.latency@ == latency_text(probe),
        r.configured == (api_name(kind) == configured_api@),
{
    let name = kind.name();
    let latency = match probe {
        Some((_, ms)) => {
            let mut s = String::new();
            push_decimal(&mut s, ms);
            push_str(&mut s, " ms");
            s
        },
        None => string_of("- ms"),
    };
    let online = match probe {
        Some((ok, _)) => ok,
        None => false,
    };
    let configured = same_text(name.as_str(), configured_api);
    StatusRow { name, online, latency, configured }
}

/// The word that shows whether a service is up.
pub fn status_word(online: bool) -> (s: String)
    ensures
        s@ == (if online { "ONLINE"@ } else { "OFFLINE"@ }),
{
    if online {
        string_of("ONLINE")
    } else {
        string_of("OFFLINE")
    }
}

} // verus!
