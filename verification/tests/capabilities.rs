use crux_core::capability::{Operation, RequestKind};
use crux_core::command::Command;
use crux_core::key_value::{KeyValue, Request, Response};
use crux_core::platform::{Platform, Response as PlatformResponse};
use crux_core::render::{Render, RenderOperation};

#[derive(Debug, Clone, PartialEq)]
enum Effect {
    KeyValue(String, Option<Vec<u8>>),
    Platform,
}

fn wrap(request: Request) -> Effect {
    match request {
        Request::Read(key) => Effect::KeyValue(key, None),
        Request::Write(key, value) => Effect::KeyValue(key, Some(value)),
    }
}

#[derive(Debug, PartialEq)]
enum Event {
    Read(Option<Vec<u8>>),
    Written(bool),
    Platform(String),
}

#[test]
fn a_read_wraps_the_key_in_the_apps_effect() {
    let kv = KeyValue::new(wrap);
    let command = kv.read("counter", |response: Response| match response {
        Response::Read(value) => Event::Read(value),
        Response::Write(ok) => Event::Written(ok),
    });
    assert_eq!(command.effect, Effect::KeyValue("counter".to_string(), None));
    assert_eq!((command.callback)(Response::Read(Some(vec![1, 2]))), Event::Read(Some(vec![1, 2])));
}

#[test]
fn a_write_carries_the_value() {
    let kv = KeyValue::new(wrap);
    let command = kv.write("counter", vec![7, 8, 9], |response: Response| match response {
        Response::Write(ok) => Event::Written(ok),
        Response::Read(value) => Event::Read(value),
    });
    assert_eq!(command.effect, Effect::KeyValue("counter".to_string(), Some(vec![7, 8, 9])));
    assert_eq!((command.callback)(Response::Write(true)), Event::Written(true));
}

#[test]
fn the_platform_is_asked_with_its_effect() {
    let platform = Platform::new(Effect::Platform);
    let command = platform.get(|r: PlatformResponse| Event::Platform(r.0));
    assert_eq!(command.effect, Effect::Platform);
    assert_eq!(
        (command.callback)(PlatformResponse("ios".to_string())),
        Event::Platform("ios".to_string())
    );
}

#[test]
fn a_command_holds_what_it_was_given() {
    let command = Command::new(3u8, |x: u8| x + 1);
    assert_eq!(command.effect, 3);
    assert_eq!((command.callback)(command.effect), 4);
    let _render = Render::new(RenderOperation);
}

#[test]
fn rendering_is_a_notification() {
    assert_eq!(RenderOperation::kind(), Some(RequestKind::Notify));
}
