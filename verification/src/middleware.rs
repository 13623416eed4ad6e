//! How effects are routed through the middleware stack: an effect-handling
//! layer takes the effects its middleware understands and passes the rest on
//! up, and an effect-mapping layer converts every effect to its own type.
use vstd::prelude::*;

verus! {

/// The converted requests among `outcomes`, in order.
pub open spec fn known<R, E>(outcomes: Seq<Result<R, E>>) -> Seq<R>
    decreases outcomes.len(),
{
    if outcomes.len() == 0 {
        Seq::empty()
    } else {
        known(outcomes.drop_last()) + match outcomes.last() {
            Ok(r) => seq![r],
            Err(_) => Seq::empty(),
        }
    }
}

/// The effects among `outcomes` that did not convert, in order.
pub open spec fn unknown<R, E>(outcomes: Seq<Result<R, E>>) -> Seq<E>
    decreases outcomes.len(),
{
    if outcomes.len() == 0 {
        Seq::empty()
    } else {
        unknown(outcomes.drop_last()) + match outcomes.last() {
            Ok(_) => Seq::empty(),
            Err(e) => seq![e],
        }
    }
}

/// Split `effects` into the requests the middleware handles — those that
/// `convert` turns into its operation's request — and the effects it does not
/// know, which are passed on up the stack. Both keep the order the effects
/// came in.
pub fn route_effects<E, R, F>(effects: Vec<E>, convert: F) -> (res: (Vec<R>, Vec<E>))
    where F: Fn(E) -> Result<R, E>,
    requires
        forall|e: E| call_requires(convert, (e,)),
    ensures
        exists|outcomes: Seq<Result<R, E>>| {
            &&& outcomes.len() == effects@.len()
            &&& forall|i: int| 0 <= i < outcomes.len() ==> call_ensures(convert, (effects@[i],), #[trigger] outcomes[i])
            &&& res.0@ == known(outcomes)
            &&& res.1@ == unknown(outcomes)
        },
{
    let ghost original = effects@;
    let mut rest = effects;
    let mut handled: Vec<R> = Vec::new();
    let mut passed: Vec<E> = Vec::new();
    let ghost mut outcomes: Seq<Result<R, E>> = Seq::empty();
    let total = rest.len();
    proof {
        assert(original.skip(0) == original);
    }
    while rest.len() > 0
        invariant
            total == original.len(),
            outcomes.len() <= original.len(),
            rest@ == original.skip(outcomes.len() as int),
            forall|e: E| call_requires(convert, (e,)),
            forall|i: int| 0 <= i < outcomes.len() ==> call_ensures(convert, (original[i],), #[trigger] outcomes[i]),
            handled@ == known(outcomes),
            passed@ == unknown(outcomes),
        decreases rest.len(),
    {
        let ghost k: int = outcomes.len() as int;
        let effect = rest.remove(0);
        proof {
            assert(effect == original[k]);
            assert(original.skip(k + 1) == original.skip(k).remove(0));
        }
        let outcome = convert(effect);
        let ghost outcome_ghost = outcome;
        match outcome {
            Ok(request) => handled.push(request),
            Err(effect) => passed.push(effect),
        }
        proof {
            let next = outcomes.push(outcome_ghost);
            assert(next.drop_last() == outcomes);
            outcomes = next;
        }
    }
    (handled, passed)
}

/// Every effect is routed exactly once: to the middleware, or on up.
pub proof fn law_routing_loses_nothing<R, E>(outcomes: Seq<Result<R, E>>)
    ensures
        known(outcomes).len() + unknown(outcomes).len() == outcomes.len(),
    decreases outcomes.len(),
{
    if outcomes.len() > 0 {
        law_routing_loses_nothing(outcomes.drop_last());
    }
}

/// An effect list with no effect the middleware knows is passed on whole.
pub proof fn law_nothing_known_passes_all<R, E>(outcomes: Seq<Result<R, E>>)
    requires
        forall|i: int| 0 <= i < outcomes.len() ==> (#[trigger] outcomes[i]) is Err,
    ensures
        known(outcomes).len() == 0,
        unknown(outcomes).len() == outcomes.len(),
    decreases outcomes.len(),
{
    if outcomes.len() > 0 {
        assert forall|i: int| 0 <= i < outcomes.drop_last().len() implies (#[trigger] outcomes.drop_last()[i]) is Err by {
            assert(outcomes.drop_last()[i] == outcomes[i]);
        }
        law_nothing_known_passes_all(outcomes.drop_last());
    }
}

/// Convert every effect to the layer's own effect type, in order.
pub fn map_effects<A, B: From<A>>(effects: Vec<A>) -> (res: Vec<B>)
    ensures
        res@.len() == effects@.len(),
        forall|i: int| 0 <= i < res@.len() ==> call_ensures(B::from, (effects@[i],), #[trigger] res@[i]),
{
    let ghost original = effects@;
    let mut rest = effects;
    let mut mapped: Vec<B> = Vec::new();
    let total = rest.len();
    proof {
        assert(original.skip(0) == original);
    }
    while rest.len() > 0
        invariant
            total == original.len(),
            mapped@.len() <= original.len(),
            rest@ == original.skip(mapped@.len() as int),
            forall|i: int| 0 <= i < mapped@.len() ==> call_ensures(B::from, (original[i],), #[trigger] mapped@[i]),
        decreases rest.len(),
    {
        let ghost k: int = mapped@.len() as int;
        let effect = rest.remove(0);
        proof {
            assert(effect == original[k]);
            assert(original.skip(k + 1) == original.skip(k).remove(0));
        }
        mapped.push(B::from(effect));
    }
    mapped
}

} // verus!
