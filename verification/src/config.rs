//! Bind address configuration.

use vstd::prelude::*;
use vstd::string::*;

verus! {

/// Host the listener binds to when none is configured.
pub open spec fn default_host() -> Seq<char> {
    "0.0.0.0"@
}

/// Port the listener binds to when none is configured.
pub open spec fn default_port() -> Seq<char> {
    "3000"@
}

/// The `host:port` text for an optional host and an optional port,
/// each falling back to its default when absent.
pub open spec fn local_addr(host: Option<Seq<char>>, port: Option<Seq<char>>) -> Seq<char> {
    let h = match host {
        Some(h) => h,
        None => default_host(),
    };
    let p = match port {
        Some(p) => p,
        None => default_port(),
    };
    h + seq![':'] + p
}

/// View of an optional string.
pub open spec fn opt_text(s: Option<String>) -> Option<Seq<char>> {
    match s {
        Some(s) => Some(s@),
        None => None,
    }
}

/// Resolves the bind address from the configured host and port.
///
/// Either value may be absent (unset or unreadable at the source), in
/// which case `0.0.0.0` and `3000` stand in.
pub fn get_local_addr(host: Option<String>, port: Option<String>) -> (addr: String)
    ensures
        addr@ == local_addr(opt_text(host), opt_text(port)),
{
    let mut addr = match host {
        Some(h) => h,
        None => String::from_str("0.0.0.0"),
    };
    proof {
        reveal_strlit(":");
    }
    addr.append(":");
    match port {
        Some(p) => addr.append(p.as_str()),
        None => addr.append("3000"),
    }
    assert(":"@ =~= seq![':']);
    addr
}

} // verus!
