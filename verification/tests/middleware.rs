use crux_core::middleware::{map_effects, route_effects};

#[derive(Debug, PartialEq)]
enum Effect {
    Http(u32),
    Render,
    Time(u32),
}

#[derive(Debug, PartialEq)]
struct HttpRequest(u32);

#[test]
fn known_effects_are_handled_and_the_rest_pass_in_order() {
    let effects = vec![Effect::Render, Effect::Http(1), Effect::Time(5), Effect::Http(2)];
    let (handled, passed) = route_effects(effects, |e| match e {
        Effect::Http(n) => Ok(HttpRequest(n)),
        other => Err(other),
    });
    assert_eq!(handled, vec![HttpRequest(1), HttpRequest(2)]);
    assert_eq!(passed, vec![Effect::Render, Effect::Time(5)]);
}

#[test]
fn nothing_known_passes_everything() {
    let effects = vec![Effect::Render, Effect::Time(3)];
    let (handled, passed): (Vec<HttpRequest>, Vec<Effect>) = route_effects(effects, |e| Err(e));
    assert!(handled.is_empty());
    assert_eq!(passed, vec![Effect::Render, Effect::Time(3)]);

    let (handled, passed): (Vec<HttpRequest>, Vec<Effect>) = route_effects(Vec::new(), |e| Err(e));
    assert!(handled.is_empty());
    assert!(passed.is_empty());
}

#[test]
fn mapped_effects_keep_their_order() {
    let mapped: Vec<u64> = map_effects(vec![3u32, 1, 2]);
    assert_eq!(mapped, vec![3u64, 1, 2]);
}
