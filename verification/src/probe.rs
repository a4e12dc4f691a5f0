//! Probe outcomes: what a single HTTP check of an endpoint reports back to
//! the monitor core, reduced to plain values.

use vstd::prelude::*;

verus! {

/// The HTTP status code that counts as a healthy answer.
pub const STATUS_OK: u16 = 200;

/// One probe's outcome as the monitor core sees it: either the endpoint
/// answered with an HTTP status (its numeric code and its display text), or
/// the request could not complete and only an error description is available.
pub enum ProbeResult {
    /// The request completed; `code` is the status code, `text` its rendering
    /// as it should appear in a failure message.
    Status { code: u16, text: String },
    /// The request could not complete (resolution, connect, timeout, TLS);
    /// `text` describes the transport error.
    Transport { text: String },
}

/// A probe succeeded exactly when it completed with the OK status. A non-OK
/// status and a transport error are both failures, indistinguishable for
/// counting and throttling.
pub open spec fn probe_succeeded(r: ProbeResult) -> bool {
    match r {
        ProbeResult::Status { code, .. } => code == STATUS_OK,
        ProbeResult::Transport { .. } => false,
    }
}

} // verus!
