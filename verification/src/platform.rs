//! The platform capability: asking the shell which platform it runs on.
use vstd::prelude::*;

use crate::command::Command;

verus! {

/// The shell's answer: the name of its platform.
#[derive(PartialEq, Eq, Debug)]
pub struct Response(pub String);

/// The capability, holding the effect it requests.
pub struct Platform<Ef> {
    effect: Ef,
}

impl<Ef: Clone> Platform<Ef> {
    /// The effect this capability requests.
    pub closed spec fn requested(self) -> Ef {
        self.effect
    }

    /// The capability, requesting `effect`.
    pub fn new(effect: Ef) -> (p: Self)
        ensures
            p.requested() == effect,
    {
        Platform { effect }
    }

    /// A command asking for the platform; `callback` turns the response into
    /// an event.
    pub fn get<F>(&self, callback: F) -> (c: Command<Ef, F>)
        ensures
            cloned(self.requested(), c.effect),
            c.callback == callback,
    {
        Command::new(self.effect.clone(), callback)
    }
}

} // verus!
