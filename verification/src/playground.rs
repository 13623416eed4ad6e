//! A sketch of how an app's `update` hands capability requests to the shell
//! and gets events back: each command carries the request, and a
//! continuation that turns the capability's response into an app event.
use vstd::prelude::*;

verus! {

/// A request a capability makes of the shell.
pub trait CapabilityRequest {}

/// A response the shell gives a capability.
pub trait CapabilityResponse {}

/// An app event.
pub trait Event {}

/// A continuation turning a capability's response into an event.
pub trait MakeEvent<T, E> {
    fn make_event(&self, value: T) -> E;
}

/// A capability request, with the continuation for its response.
pub struct Command<Req, C> {
    pub input: Req,
    pub output_to_event: C,
}

/// The first capability's request.
#[derive(Debug, Clone, Copy, PartialEq, Eq, Structural)]
pub struct Cap1Request(pub bool);

impl CapabilityRequest for Cap1Request {}

/// The first capability's response.
#[derive(Debug, Clone, Copy, PartialEq, Eq, Structural)]
pub struct Cap1Response(pub u8);

impl CapabilityResponse for Cap1Response {}

/// The second capability's request.
#[derive(Debug, Clone, Copy, PartialEq, Eq, Structural)]
pub struct Cap2Request(pub bool);

impl CapabilityRequest for Cap2Request {}

/// The second capability's response.
#[derive(Debug, Clone, Copy, PartialEq, Eq, Structural)]
pub struct Cap2Response(pub u8);

impl CapabilityResponse for Cap2Response {}

/// The first capability's API, called by `update`: request `input`, and
/// answer with the event `callback` makes of the response.
pub fn cap_1_get<E, C>(input: bool, callback: C) -> (c: Command<Cap1Request, C>)
    where C: MakeEvent<Cap1Response, E>,
    ensures
        c.input == Cap1Request(input),
        c.output_to_event == callback,
{
    Command { input: Cap1Request(input), output_to_event: callback }
}

/// The second capability's API, called by `update`.
pub fn cap_2_get<E, C>(input: bool, callback: C) -> (c: Command<Cap2Request, C>)
    where C: MakeEvent<Cap2Response, E>,
    ensures
        c.input == Cap2Request(input),
        c.output_to_event == callback,
{
    Command { input: Cap2Request(input), output_to_event: callback }
}

/// The app's events: two that ask a capability for something, and the two
/// that carry the capabilities' answers back.
#[derive(Debug, Clone, Copy, PartialEq, Eq, Structural)]
pub enum AppEvent {
    Get1,
    Get2,
    Cap1(Cap1Response),
    Cap2(Cap2Response),
}

impl Event for AppEvent {}

/// The continuation wrapping the first capability's response in
/// [`AppEvent::Cap1`].
#[derive(Debug, Clone, Copy, PartialEq, Eq, Structural)]
pub struct ToCap1Event;

impl MakeEvent<Cap1Response, AppEvent> for ToCap1Event {
    fn make_event(&self, value: Cap1Response) -> (e: AppEvent)
        ensures
            e == AppEvent::Cap1(value),
    {
        AppEvent::Cap1(value)
    }
}

/// The continuation wrapping the second capability's response in
/// [`AppEvent::Cap2`].
#[derive(Debug, Clone, Copy, PartialEq, Eq, Structural)]
pub struct ToCap2Event;

impl MakeEvent<Cap2Response, AppEvent> for ToCap2Event {
    fn make_event(&self, value: Cap2Response) -> (e: AppEvent)
        ensures
            e == AppEvent::Cap2(value),
    {
        AppEvent::Cap2(value)
    }
}

/// A command of either capability, as `update` returns them.
pub enum AppCommand {
    Cap1(Command<Cap1Request, ToCap1Event>),
    Cap2(Command<Cap2Request, ToCap2Event>),
}

/// The app's `update`: `Get1` asks the first capability (with `true`) and
/// `Get2` the second; an answer event asks for nothing more.
pub fn update(event: AppEvent) -> (commands: Vec<AppCommand>)
    ensures
        event == AppEvent::Get1 ==> {
            &&& commands@.len() == 1
            &&& commands@[0] matches AppCommand::Cap1(c)
            &&& c.input == Cap1Request(true)
        },
        event == AppEvent::Get2 ==> {
            &&& commands@.len() == 1
            &&& commands@[0] matches AppCommand::Cap2(c)
            &&& c.input == Cap2Request(true)
        },
        (event is Cap1 || event is Cap2) ==> commands@.len() == 0,
{
    let mut commands: Vec<AppCommand> = Vec::new();
    match event {
        AppEvent::Get1 => commands.push(AppCommand::Cap1(cap_1_get(true, ToCap1Event))),
        AppEvent::Get2 => commands.push(AppCommand::Cap2(cap_2_get(true, ToCap2Event))),
        AppEvent::Cap1(_) => {},
        AppEvent::Cap2(_) => {},
    }
    commands
}

} // verus!
