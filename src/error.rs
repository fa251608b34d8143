use vstd::prelude::*;

verus! {

/// Errors of the input method client.
#[derive(Debug, Clone)]
pub enum DbusMaliitServerError {
    /// A step of opening the session failed; the text says which.
    ConnectionError(String),
    /// An outbound call or a property read failed.
    CallError(String),
    /// Event processing was started while a subscription was live.
    AlreadySubscribed,
}

} // verus!
