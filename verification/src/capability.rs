//! What an effect asks of the shell: an operation, and how many times the
//! shell is expected to answer it.
use vstd::prelude::*;

verus! {

/// How many times the shell is expected to resolve a request.
#[derive(Debug, Clone, Copy, PartialEq, Eq, Structural)]
pub enum RequestKind {
    /// Never: the core is not waiting for an answer.
    Notify,
    /// Exactly once.
    Request,
    /// Any number of times, until the shell stops sending.
    Stream,
}

/// The name the request kind goes by in the code generators.
pub type OperationKind = RequestKind;

/// An operation is the payload of an effect request: the data the shell needs
/// to carry the effect out. `Output` is what the shell answers it with.
pub trait Operation {
    /// The type the shell resolves a request for this operation with.
    type Output;

    /// How many times a request carrying this operation is resolved, if the
    /// operation declares it; `None`, the default, leaves it to the call
    /// site.
    fn kind() -> (k: Option<RequestKind>)
        default_ensures
            k is None,
    {
        None
    }
}

} // verus!
