//! Dispatch of the host's requests by method name.
use vstd::prelude::*;
use crate::text::str_eq;

verus! {

/// The method name of the request that starts the plugin.
pub const INITIALIZE_METHOD: &'static str = "initialize";

/// The requests this plugin tells apart.
#[derive(Debug, Clone, Copy, PartialEq, Eq)]
pub enum RequestKind {
    /// The host's `initialize` request: run the bootstrap.
    Initialize,
    /// Any other request: ignored.
    Other,
}

/// The kind of the request with method name `method`.
pub fn request_kind(method: &str) -> (r: RequestKind)
    ensures
        r == (if method@ == INITIALIZE_METHOD@ {
            RequestKind::Initialize
        } else {
            RequestKind::Other
        }),
{
    if str_eq(method, INITIALIZE_METHOD) {
        RequestKind::Initialize
    } else {
        RequestKind::Other
    }
}

} // verus!
