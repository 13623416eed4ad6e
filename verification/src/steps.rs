//! A step is one effect request on its way to the shell, together with the
//! continuation that feeds the shell's answer back into the core.
use vstd::prelude::*;

use crate::capability::Operation;

verus! {

/// Why a step could not be resolved.
#[derive(Debug, Clone, Copy, PartialEq, Eq, Structural)]
pub enum ResolveError {
    /// The step is not expected to be resolved (a notification, or a one-shot
    /// request that has already been answered).
    Never,
    /// The stream the step feeds has concluded.
    FinishedMany,
}

impl ResolveError {
    /// The human readable description of the error.
    pub fn message(&self) -> (s: String)
        ensures
            self is Never ==> s@ == "Attempted to resolve a step that is not expected to be resolved."@,
            self is FinishedMany ==> s@ == "Attempted to resolve a step that has concluded."@,
    {
        match self {
            ResolveError::Never => String::from_str(
                "Attempted to resolve a step that is not expected to be resolved.",
            ),
            ResolveError::FinishedMany => String::from_str(
                "Attempted to resolve a step that has concluded.",
            ),
        }
    }
}

/// How a step is resolved: never, once (with a one-shot continuation `O`), or
/// many times (with a repeatable continuation `M`, which reports `Err(())`
/// once the task it feeds has finished).
pub enum Resolve<O, M> {
    Never,
    Once(O),
    Many(M),
}

impl<O, M> Resolve<O, M> {
    /// The resolve state after one resolution: a one-shot resolve is used up
    /// and becomes `Never`; the other two stay as they are.
    pub open spec fn after_resolve(self) -> Self {
        match self {
            Resolve::Once(_) => Resolve::Never,
            _ => self,
        }
    }

    /// Whether every output can be handed to the continuation.
    pub open spec fn accepts_any<Out>(self) -> bool
        where O: FnOnce(Out), M: Fn(Out) -> Result<(), ()>,
    {
        &&& (self matches Resolve::Once(f) ==> forall|o: Out| call_requires(f, (o,)))
        &&& (self matches Resolve::Many(f) ==> forall|o: Out| call_requires(f, (o,)))
    }

    /// Feed `output` to the continuation.
    ///
    /// A `Never` step refuses with [`ResolveError::Never`]; a `Once` step is
    /// resolved and becomes `Never`, so a second resolution is refused; a
    /// `Many` step stays as it is and refuses with
    /// [`ResolveError::FinishedMany`] exactly when its continuation reports
    /// that it has finished.
    pub fn resolve<Out>(&mut self, output: Out) -> (res: Result<(), ResolveError>)
        where O: FnOnce(Out), M: Fn(Out) -> Result<(), ()>,
        requires
            *old(self) matches Resolve::Once(f) ==> call_requires(f, (output,)),
            *old(self) matches Resolve::Many(f) ==> call_requires(f, (output,)),
        ensures
            *final(self) == old(self).after_resolve(),
            (*old(self)) is Never ==> res == Err::<(), ResolveError>(ResolveError::Never),
            (*old(self)) is Once ==> res is Ok,
            *old(self) matches Resolve::Once(f) ==> call_ensures(f, (output,), ()),
            *old(self) matches Resolve::Many(f) ==> exists|r: Result<(), ()>|
                #![trigger call_ensures(f, (output,), r)]
                call_ensures(f, (output,), r) && (r is Ok <==> res is Ok),
            (*old(self)) is Many ==> (res matches Err(e) ==> e == ResolveError::FinishedMany),
    {
        match self {
            Resolve::Never => Err(ResolveError::Never),
            Resolve::Many(f) => {
                let r = f(output);
                match r {
                    Ok(()) => Ok(()),
                    Err(()) => Err(ResolveError::FinishedMany),
                }
            },
            Resolve::Once(_) => {
                let mut taken = Resolve::Never;
                std::mem::swap(&mut taken, self);
                if let Resolve::Once(f) = taken {
                    f(output);
                }
                Ok(())
            },
        }
    }

    /// Adapt the continuation to take an `Other`, converted to `Out` with
    /// `func` before it is passed on. The variant is kept, and resolving the
    /// new step with `o` is resolving the old one with `func(o)`.
    pub fn map<Other, Out, F>(self, func: F) -> (res: Resolve<
        impl FnOnce(Other),
        impl Fn(Other) -> Result<(), ()>,
    >)
        where O: FnOnce(Out), M: Fn(Out) -> Result<(), ()>, F: Fn(Other) -> Out,
        requires
            forall|o: Other| call_requires(func, (o,)),
            self.accepts_any::<Out>(),
        ensures
            res.accepts_any::<Other>(),
            self is Never <==> res is Never,
            self is Once <==> res is Once,
            self is Many <==> res is Many,
            res matches Resolve::Once(g) ==> (self matches Resolve::Once(f) ==> forall|o: Other|
                #![trigger call_ensures(g, (o,), ())]
                call_ensures(g, (o,), ()) ==> exists|out: Out|
                    call_ensures(func, (o,), out) && call_ensures(f, (out,), ())),
            res matches Resolve::Many(g) ==> (self matches Resolve::Many(m) ==> forall|o: Other, r: Result<(), ()>|
                #![trigger call_ensures(g, (o,), r)]
                call_ensures(g, (o,), r) ==> exists|out: Out|
                    call_ensures(func, (o,), out) && call_ensures(m, (out,), r)),
    {
        match self {
            Resolve::Never => Resolve::Never,
            Resolve::Once(resolve) => {
                let composed = move |other: Other|
                    requires
                        call_requires(func, (other,)),
                        forall|o: Out| call_requires(resolve, (o,)),
                    ensures
                        exists|out: Out| call_ensures(func, (other,), out) && call_ensures(resolve, (out,), ()),
                {
                    let out = func(other);
                    resolve(out)
                };
                Resolve::Once(composed)
            },
            Resolve::Many(resolve) => {
                let composed = move |other: Other| -> (r: Result<(), ()>)
                    requires
                        call_requires(&func, (other,)),
                        forall|o: Out| call_requires(&resolve, (o,)),
                    ensures
                        exists|out: Out| call_ensures(&func, (other,), out) && call_ensures(&resolve, (out,), r),
                {
                    let out = func(other);
                    resolve(out)
                };
                Resolve::Many(composed)
            },
        }
    }
}

/// A one-shot resolve is used up by its first resolution: the step is left
/// unable to be resolved, and a second attempt is refused with
/// [`ResolveError::Never`].
pub proof fn law_once_resolves_only_once<O, M>(r: Resolve<O, M>)
    requires
        r is Once,
    ensures
        r.after_resolve() is Never,
        r.after_resolve().after_resolve() is Never,
{
}

/// Resolving a `Never` or a `Many` step leaves it as it was.
pub proof fn law_never_and_many_are_unchanged<O, M>(r: Resolve<O, M>)
    requires
        !(r is Once),
    ensures
        r.after_resolve() == r,
{
}

/// An effect request: the operation for the shell, and how the shell's answer
/// is fed back.
pub struct Step<Op, O, M>(pub Op, pub Resolve<O, M>) where Op: Operation;

impl<Op: Operation, O, M> Step<Op, O, M> {
    /// A step the shell answers never (a notification).
    pub fn resolves_never(payload: Op) -> (s: Self)
        ensures
            s.0 == payload,
            s.1 is Never,
    {
        Step(payload, Resolve::Never)
    }

    /// A step the shell answers exactly once, with `resolve` receiving the
    /// output.
    pub fn resolves_once(payload: Op, resolve: O) -> (s: Self)
        where O: FnOnce(Op::Output),
        ensures
            s.0 == payload,
            s.1 == Resolve::<O, M>::Once(resolve),
    {
        Step(payload, Resolve::Once(resolve))
    }

    /// A step the shell answers any number of times, each output handed to
    /// `resolve`, until it reports that it has finished.
    pub fn resolves_many_times(payload: Op, resolve: M) -> (s: Self)
        where M: Fn(Op::Output) -> Result<(), ()>,
        ensures
            s.0 == payload,
            s.1 == Resolve::<O, M>::Many(resolve),
    {
        Step(payload, Resolve::Many(resolve))
    }

    /// Resolve the step with the shell's output; see [`Resolve::resolve`].
    pub fn resolve(&mut self, output: Op::Output) -> (res: Result<(), ResolveError>)
        where O: FnOnce(Op::Output), M: Fn(Op::Output) -> Result<(), ()>,
        requires
            old(self).1 matches Resolve::Once(f) ==> call_requires(f, (output,)),
            old(self).1 matches Resolve::Many(f) ==> call_requires(f, (output,)),
        ensures
            final(self).0 == old(self).0,
            final(self).1 == old(self).1.after_resolve(),
            old(self).1 is Never ==> res == Err::<(), ResolveError>(ResolveError::Never),
            old(self).1 is Once ==> res is Ok,
            old(self).1 matches Resolve::Once(f) ==> call_ensures(f, (output,), ()),
            old(self).1 matches Resolve::Many(f) ==> exists|r: Result<(), ()>|
                #![trigger call_ensures(f, (output,), r)]
                call_ensures(f, (output,), r) && (r is Ok <==> res is Ok),
            old(self).1 is Many ==> (res matches Err(e) ==> e == ResolveError::FinishedMany),
    {
        self.1.resolve(output)
    }
}

} // verus!
