//! Error kinds surfaced by the remote backends.

use vstd::prelude::*;

verus! {

/// A failure of a remote call, as classified at the transport boundary.
///
/// `Network` is a transport-level failure (DNS, connect, timeout),
/// `Protocol` a non-2xx status or a malformed payload, and `RateLimited`
/// a throttling signal from the backend; the latter is retryable by the
/// caller but is never retried inside this crate. A per-channel schedule
/// failure that the backend reports in-band rides in
/// [`crate::zapp::ShowsResult::Error`] instead, so that it can be isolated
/// per channel.
#[derive(Clone, Copy, Debug, PartialEq, Eq, Structural)]
pub enum RemoteError {
    Network,
    Protocol,
    RateLimited,
}

impl RemoteError {
    /// A short description, suitable for a notification.
    pub fn describe(&self) -> (r: String)
        ensures
            *self is Network ==> r@ == "network request failed"@,
            *self is Protocol ==> r@ == "unexpected response from the server"@,
            *self is RateLimited ==> r@ == "the server is rate-limiting requests"@,
    {
        match self {
            RemoteError::Network => String::from_str("network request failed"),
            RemoteError::Protocol => String::from_str("unexpected response from the server"),
            RemoteError::RateLimited => String::from_str("the server is rate-limiting requests"),
        }
    }
}

} // verus!
