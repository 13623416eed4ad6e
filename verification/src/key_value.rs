//! The key-value capability: reading and writing byte values by key.
use vstd::prelude::*;

use crate::command::Command;

verus! {

/// What the shell is asked to do with the store.
#[derive(Clone, Debug)]
pub enum Request {
    /// Read the value stored under the key.
    Read(String),
    /// Store the value under the key.
    Write(String, Vec<u8>),
}

/// A request as plain values.
pub enum RequestView {
    Read(Seq<char>),
    Write(Seq<char>, Seq<u8>),
}

impl View for Request {
    type V = RequestView;

    open spec fn view(&self) -> RequestView {
        match self {
            Request::Read(key) => RequestView::Read(key@),
            Request::Write(key, value) => RequestView::Write(key@, value@),
        }
    }
}

/// What the shell answers.
#[derive(Clone, Debug)]
pub enum Response {
    /// The value read, if the key was present.
    Read(Option<Vec<u8>>),
    /// Whether the write succeeded.
    Write(bool),
}

/// The capability, holding the function that wraps a request into the
/// app's effect type.
pub struct KeyValue<M> {
    effect: M,
}

impl<M> KeyValue<M> {
    /// The function that wraps a request into the app's effect.
    pub closed spec fn make_effect(self) -> M {
        self.effect
    }

    /// The capability, wrapping its requests with `effect`.
    pub fn new(effect: M) -> (kv: Self)
        ensures
            kv.make_effect() == effect,
    {
        KeyValue { effect }
    }

    /// A command reading the value under `key`; `callback` turns the
    /// response into an event.
    pub fn read<Ef, F>(&self, key: &str, callback: F) -> (c: Command<Ef, F>)
        where M: Fn(Request) -> Ef,
        requires
            forall|r: Request| call_requires(self.make_effect(), (r,)),
        ensures
            exists|r: Request| r@ == RequestView::Read(key@) && call_ensures(self.make_effect(), (r,), c.effect),
            c.callback == callback,
    {
        let request = Request::Read(String::from_str(key));
        assert(request@ == RequestView::Read(key@));
        let ghost sent = request;
        assert(call_requires(self.make_effect(), (request,)));
        let effect = (self.effect)(request);
        assert(call_ensures(self.make_effect(), (sent,), effect));
        Command::new(effect, callback)
    }

    /// A command storing `value` under `key`; `callback` turns the response
    /// into an event.
    pub fn write<Ef, F>(&self, key: &str, value: Vec<u8>, callback: F) -> (c: Command<Ef, F>)
        where M: Fn(Request) -> Ef,
        requires
            forall|r: Request| call_requires(self.make_effect(), (r,)),
        ensures
            exists|r: Request| r@ == RequestView::Write(key@, value@) && call_ensures(self.make_effect(), (r,), c.effect),
            c.callback == callback,
    {
        let request = Request::Write(String::from_str(key), value);
        assert(request@ == RequestView::Write(key@, value@));
        let ghost sent = request;
        assert(call_requires(self.make_effect(), (request,)));
        let effect = (self.effect)(request);
        assert(call_ensures(self.make_effect(), (sent,), effect));
        Command::new(effect, callback)
    }
}

} // verus!
