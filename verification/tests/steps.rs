use std::cell::Cell;
use std::rc::Rc;

use crux_core::render::RenderOperation;
use crux_core::steps::{Resolve, ResolveError, Step};

type Never = Resolve<fn(u8), fn(u8) -> Result<(), ()>>;

#[test]
fn a_step_that_resolves_never_refuses() {
    let mut r: Never = Resolve::Never;
    assert_eq!(r.resolve(1u8), Err(ResolveError::Never));
    assert!(matches!(r, Resolve::Never));
}

#[test]
fn a_one_shot_step_resolves_once() {
    let seen = Rc::new(Cell::new(0u8));
    let inner = seen.clone();
    let mut r: Resolve<_, fn(u8) -> Result<(), ()>> = Resolve::Once(move |v: u8| inner.set(v));

    assert_eq!(r.resolve(7u8), Ok(()));
    assert_eq!(seen.get(), 7);
    assert!(matches!(r, Resolve::Never));

    assert_eq!(r.resolve(9u8), Err(ResolveError::Never));
    assert_eq!(seen.get(), 7);
}

#[test]
fn a_many_step_resolves_until_it_finishes() {
    let count = Rc::new(Cell::new(0u32));
    let inner = count.clone();
    let mut r: Resolve<fn(u8), _> = Resolve::Many(move |v: u8| {
        inner.set(inner.get() + 1);
        if v == 0 { Err(()) } else { Ok(()) }
    });

    assert_eq!(r.resolve(1u8), Ok(()));
    assert_eq!(r.resolve(2u8), Ok(()));
    assert_eq!(r.resolve(0u8), Err(ResolveError::FinishedMany));
    assert_eq!(count.get(), 3);
    assert!(matches!(r, Resolve::Many(_)));
}

#[test]
fn a_mapped_resolve_converts_before_passing_on() {
    let seen = Rc::new(Cell::new(0u8));
    let inner = seen.clone();
    let r: Resolve<_, fn(u8) -> Result<(), ()>> = Resolve::Once(move |v: u8| inner.set(v));
    let mut mapped = r.map(|s: &str| s.len() as u8);
    assert!(matches!(mapped, Resolve::Once(_)));
    assert_eq!(mapped.resolve("four"), Ok(()));
    assert_eq!(seen.get(), 4);
    assert_eq!(mapped.resolve("again"), Err(ResolveError::Never));

    let many: Resolve<fn(u8), _> = Resolve::Many(|v: u8| if v > 3 { Err(()) } else { Ok(()) });
    let mut mapped = many.map(|s: &str| s.len() as u8);
    assert_eq!(mapped.resolve("abc"), Ok(()));
    assert_eq!(mapped.resolve("abcd"), Err(ResolveError::FinishedMany));

    let never: Never = Resolve::Never;
    let mut mapped = never.map(|s: &str| s.len() as u8);
    assert!(matches!(mapped, Resolve::Never));
    assert_eq!(mapped.resolve("x"), Err(ResolveError::Never));
}

#[test]
fn steps_carry_their_operation() {
    let mut step: Step<RenderOperation, fn(()), fn(()) -> Result<(), ()>> = Step::resolves_never(RenderOperation);
    assert_eq!(step.0, RenderOperation);
    assert_eq!(step.resolve(()), Err(ResolveError::Never));

    let done = Rc::new(Cell::new(false));
    let inner = done.clone();
    let mut step: Step<RenderOperation, _, fn(()) -> Result<(), ()>> =
        Step::resolves_once(RenderOperation, move |_: ()| inner.set(true));
    assert_eq!(step.resolve(()), Ok(()));
    assert!(done.get());
    assert_eq!(step.resolve(()), Err(ResolveError::Never));

    let mut step: Step<RenderOperation, fn(()), _> =
        Step::resolves_many_times(RenderOperation, |_: ()| Ok(()));
    assert_eq!(step.resolve(()), Ok(()));
    assert_eq!(step.resolve(()), Ok(()));
}

#[test]
fn the_errors_describe_themselves() {
    assert_eq!(
        ResolveError::Never.message(),
        "Attempted to resolve a step that is not expected to be resolved."
    );
    assert_eq!(
        ResolveError::FinishedMany.message(),
        "Attempted to resolve a step that has concluded."
    );
}
