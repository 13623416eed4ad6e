//! A command a capability hands back from `update`: the effect it requests
//! of the shell, and the callback that turns the shell's response into the
//! next event.
use vstd::prelude::*;

verus! {

/// The effect requested of the shell, and the callback turning its response
/// into an event.
pub struct Command<Ef, F> {
    pub effect: Ef,
    pub callback: F,
}

impl<Ef, F> Command<Ef, F> {
    /// A command requesting `effect`, answered through `callback`.
    pub fn new(effect: Ef, callback: F) -> (c: Self)
        ensures
            c.effect == effect,
            c.callback == callback,
    {
        Command { effect, callback }
    }
}

} // verus!
