//! Senders: where values produced in the core are delivered, and how a
//! sender of one type is adapted to take another.
use vstd::prelude::*;

verus! {

/// Something values of type `T` can be sent to.
pub trait CruxSender<T> {
    /// Whether `t` can be sent.
    spec fn accepts(&self, t: T) -> bool;

    /// Send `t`.
    fn send(&self, t: T)
        requires
            self.accepts(t),
    ;
}

/// A sender of `NewT` built from a sender of `T` and a conversion.
pub trait SenderExt<T>: CruxSender<T> {
    /// This sender, taking `NewT` values and converting each with `func`
    /// before it is sent.
    fn map_input<NewT, F>(self, func: F) -> (m: MapInput<Self, F>)
        where Self: Sized, F: Fn(NewT) -> T,
        ensures
            m.sender == self,
            m.func == func,
    {
        MapInput { sender: self, func }
    }
}

/// A sender that converts each value with `func` and passes it to `sender`.
pub struct MapInput<S, F> {
    pub sender: S,
    pub func: F,
}

impl<S: CruxSender<U>, F, T, U> CruxSender<T> for MapInput<S, F> where F: Fn(T) -> U {
    /// A value is accepted when it can be converted, and whatever it
    /// converts to is accepted downstream.
    open spec fn accepts(&self, t: T) -> bool {
        &&& call_requires(self.func, (t,))
        &&& forall|u: U| call_ensures(self.func, (t,), u) ==> self.sender.accepts(u)
    }

    fn send(&self, value: T) {
        let converted = (self.func)(value);
        self.sender.send(converted)
    }
}

} // verus!
