//! The render capability: telling the shell to re-read the view model.
use vstd::prelude::*;

use crate::capability::{Operation, RequestKind};

verus! {

/// The operation asking the shell to render. It is never answered.
#[derive(Debug, Clone, Copy, PartialEq, Eq, Structural)]
pub struct RenderOperation;

impl Operation for RenderOperation {
    type Output = ();

    fn kind() -> (k: Option<RequestKind>)
        ensures
            k == Some(RequestKind::Notify),
    {
        Some(RequestKind::Notify)
    }
}

/// The capability, holding the context it requests renders through.
pub struct Render<Ctx> {
    context: Ctx,
}

impl<Ctx> Render<Ctx> {
    /// The context renders are requested through.
    pub closed spec fn context(self) -> Ctx {
        self.context
    }

    /// The capability, requesting renders through `context`.
    pub fn new(context: Ctx) -> (r: Self)
        ensures
            r.context() == context,
    {
        Render { context }
    }
}

} // verus!
