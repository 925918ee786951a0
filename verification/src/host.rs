//! The device's display name: a best-effort host-name lookup with a
//! fixed placeholder as fallback.

use vstd::prelude::*;
use vstd::string::StringExecFns;

verus! {

/// Relies on hostname::get: the system's host name. The value depends on
/// the machine, so nothing is promised of it; a lookup failure becomes
/// `None`.
#[verifier::external_body]
fn lookup_hostname() -> (r: Option<String>) {
    hostname::get().ok().map(|s| s.to_string_lossy().into_owned())
}

/// The display name for a lookup outcome: the looked-up name when the
/// lookup succeeded, else the fixed placeholder.
pub fn fallback_device_name(looked_up: Option<String>) -> (r: String)
    ensures
        r@ == (match looked_up {
            Some(n) => n@,
            None => "Unknown"@,
        }),
{
    match looked_up {
        Some(n) => n,
        None => String::from_str("Unknown"),
    }
}

/// The name this device shows to peers: the system host name when it can
/// be looked up, else the fixed placeholder that `fallback_device_name`
/// states.
pub fn device_name() -> (r: String) {
    fallback_device_name(lookup_hostname())
}

} // verus!
