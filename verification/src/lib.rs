//! Reactive core of a peer-to-peer file-sharing terminal application.
//!
//! The library owns the logic that is worth stating precisely: validation
//! and filtering of raw discovery and transfer events, the reference-counted
//! lifecycle of the shared discovery resource, the deduplicated selection
//! list with its cursor, and the event-loop state machine that turns merged
//! events into state updates and outward actions. The surrounding shell
//! performs the terminal and network I/O and feeds plain values in and out.

use vstd::prelude::*;
use vstd::string::StringExecFns;

pub mod host;
pub mod hub;
pub mod list;
pub mod model;
pub mod session;

verus! {

/// Configuration for starting the discovery/transfer engine.
pub struct Config {
    /// Port the engine listens on; `None` lets the engine choose.
    pub port: Option<u16>,
}

impl Default for Config {
    fn default() -> (r: Self)
        ensures
            r.port is None,
    {
        Config { port: None }
    }
}

/// A file selected for sending, identified by its path.
pub struct File {
    /// The path, as handed over by the caller.
    pub path: String,
}

/// Failures surfaced by the core to its callers.
pub enum Error {
    /// An internal exclusivity guard was poisoned; the invariant it
    /// protected can no longer be trusted.
    CorruptedState,
    /// An opaque failure reported by an external collaborator.
    Other(String),
}

impl Error {
    /// A human-readable description of the failure.
    pub fn describe(&self) -> (r: String)
        ensures
            (*self matches Error::CorruptedState ==> r@ == "Internal state corrupted"@),
            (*self matches Error::Other(m) ==> r@ == "Unknown error: "@ + m@),
    {
        match self {
            Error::CorruptedState => String::from_str("Internal state corrupted"),
            Error::Other(m) => {
                let mut s = String::from_str("Unknown error: ");
                s.append(m.as_str());
                s
            },
        }
    }
}

} // verus!
