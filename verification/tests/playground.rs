use std::collections::HashMap;

use crux_core::playground::{
    update, AppCommand, AppEvent, Cap1Request, Cap1Response, Cap2Request, Cap2Response, MakeEvent,
};

#[test]
fn test_cap_output_to_event() {
    let mut store: HashMap<u32, AppCommand> = HashMap::new();

    let mut command1 = update(AppEvent::Get1);
    let mut command2 = update(AppEvent::Get2);

    // store continuation
    store.insert(1, command1.remove(0));
    store.insert(2, command2.remove(0));

    // fetch continuation
    let continuation1 = store.remove(&1).unwrap();
    let continuation2 = store.remove(&2).unwrap();

    let cap_1_response = Cap1Response(8u8);
    let cap_2_response = Cap2Response(8u8);

    // call continuation with the capability's response
    let event1: AppEvent = match continuation1 {
        AppCommand::Cap1(c) => c.output_to_event.make_event(cap_1_response),
        AppCommand::Cap2(_) => panic!("the first command belongs to the first capability"),
    };
    let event2: AppEvent = match continuation2 {
        AppCommand::Cap2(c) => c.output_to_event.make_event(cap_2_response),
        AppCommand::Cap1(_) => panic!("the second command belongs to the second capability"),
    };

    assert_eq!(vec![event1], vec![AppEvent::Cap1(cap_1_response)]);
    assert_eq!(vec![event2], vec![AppEvent::Cap2(cap_2_response)]);
}

#[test]
fn each_request_asks_its_own_capability_with_true() {
    let commands = update(AppEvent::Get1);
    assert_eq!(commands.len(), 1);
    match &commands[0] {
        AppCommand::Cap1(c) => assert_eq!(c.input, Cap1Request(true)),
        AppCommand::Cap2(_) => panic!("Get1 asks the first capability"),
    }

    let commands = update(AppEvent::Get2);
    assert_eq!(commands.len(), 1);
    match &commands[0] {
        AppCommand::Cap2(c) => assert_eq!(c.input, Cap2Request(true)),
        AppCommand::Cap1(_) => panic!("Get2 asks the second capability"),
    }
}

#[test]
fn an_answer_asks_for_nothing_more() {
    assert!(update(AppEvent::Cap1(Cap1Response(3))).is_empty());
    assert!(update(AppEvent::Cap2(Cap2Response(4))).is_empty());
}
