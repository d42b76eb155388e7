//! Mirrors the currently playing track of a music-scrobbling service into a
//! chat client's rich-presence status.
//!
//! The verified library holds the logic of the poll-diff-publish pipeline:
//! resolving credentials from the available sources, building the request
//! URL for the scrobble endpoint, mapping a fetched track record to a
//! presence payload, and deciding when a newly computed presence must be
//! republished. The surrounding process (HTTP, IPC, terminal, files) lives
//! outside the library and hands it plain values.

use vstd::prelude::*;

pub mod config;
pub mod detector;
pub mod fetch;
pub mod presence;
pub mod screen;
pub mod track;

verus! {

/// The client identifier used when none is configured.
pub open spec fn spec_default_client_id() -> Seq<char> {
    "1161781788306317513"@
}

/// Returns the built-in default client identifier.
pub fn default_client_id() -> (r: &'static str)
    ensures
        r@ == spec_default_client_id(),
{
    "1161781788306317513"
}

} // verus!
