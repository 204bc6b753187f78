use webui::protocol::{ClientMessage, Invocation, Payload};
use webui::{AppState, Number, UiElement};

fn num(x: f64) -> Number {
    Number { bits: x.to_bits() }
}

fn run(state: &AppState, msg: ClientMessage, counter: &mut u32) {
    if let Some(Invocation::Click { handler: 7 }) = state.dispatch(msg) {
        *counter += 1;
    }
}

#[test]
fn button_click_scenario_counts_only_known_button() {
    let mut state = AppState::new();
    state.add_element(UiElement::Button { id: "b1".to_string(), text: "Go".to_string(), on_click: Some(7) });
    let mut counter: u32 = 0;
    run(&state, ClientMessage::Click { id: "b1".to_string() }, &mut counter);
    assert_eq!(counter, 1);
    run(&state, ClientMessage::Click { id: "bx".to_string() }, &mut counter);
    assert_eq!(counter, 1);
    run(&state, ClientMessage::Click { id: "b1".to_string() }, &mut counter);
    assert_eq!(counter, 2);
}

fn slider_state() -> AppState {
    let mut state = AppState::new();
    state.add_element(UiElement::Slider {
        id: "s".to_string(),
        value: num(50.0),
        min: num(0.0),
        max: num(100.0),
        step: Some(num(1.0)),
        on_change: Some(3),
    });
    state
}

#[test]
fn slider_change_with_bool_does_not_invoke() {
    let state = slider_state();
    let mut invoked: u32 = 0;
    if state.handle_change("s", Payload::Bool(true)).is_some() {
        invoked += 1;
    }
    if state.dispatch(ClientMessage::Change { id: "s".to_string(), value: Payload::Bool(false) }).is_some() {
        invoked += 1;
    }
    assert_eq!(invoked, 0);
}

#[test]
fn slider_change_with_number_invokes() {
    let state = slider_state();
    match state.handle_change("s", Payload::Number(num(42.5))) {
        Some(Invocation::Number { handler, number }) => {
            assert_eq!(handler, 3);
            assert_eq!(f64::from_bits(number.bits), 42.5);
        }
        _ => panic!("expected a number call"),
    }
    assert!(state.handle_change("s", Payload::Unsupported).is_none());
}

#[test]
fn checkbox_and_radio_take_booleans_only() {
    let mut state = AppState::new();
    state.add_element(UiElement::Checkbox { id: "c".to_string(), checked: false, on_change: Some(1) });
    state.add_element(UiElement::Radio {
        id: "r".to_string(),
        name: "test-group".to_string(),
        value: "option1".to_string(),
        checked: false,
        on_change: Some(2),
    });
    match state.handle_change("c", Payload::Bool(true)) {
        Some(Invocation::Bool { handler: 1, flag: true }) => {}
        _ => panic!("expected checkbox call"),
    }
    match state.handle_change("r", Payload::Bool(true)) {
        Some(Invocation::Bool { handler: 2, flag: true }) => {}
        _ => panic!("expected radio call"),
    }
    assert!(state.handle_change("c", Payload::Number(num(1.0))).is_none());
    assert!(state.handle_change("r", Payload::Number(num(1.0))).is_none());
}

#[test]
fn number_input_takes_numbers() {
    let mut state = AppState::new();
    state.add_element(UiElement::NumberInput {
        id: "n".to_string(),
        value: num(0.0),
        min: None,
        max: None,
        step: None,
        on_change: Some(9),
    });
    match state.dispatch(ClientMessage::Change { id: "n".to_string(), value: Payload::Number(num(42.0)) }) {
        Some(Invocation::Number { handler: 9, number }) => assert_eq!(f64::from_bits(number.bits), 42.0),
        _ => panic!("expected number call"),
    }
    assert!(state.handle_change("n", Payload::Bool(true)).is_none());
}

#[test]
fn input_event_carries_value() {
    let mut state = AppState::new();
    state.add_element(UiElement::Input { id: "i".to_string(), value: String::new(), on_input: Some(5) });
    match state.handle_input("i", "Hello World") {
        Some(Invocation::Input { handler: 5, text }) => assert_eq!(text, "Hello World"),
        _ => panic!("expected input call"),
    }
    match state.dispatch(ClientMessage::Input { id: "i".to_string(), value: "abc".to_string() }) {
        Some(Invocation::Input { handler: 5, text }) => assert_eq!(text, "abc"),
        _ => panic!("expected input call"),
    }
}

#[test]
fn mismatched_events_and_missing_handlers_are_dropped() {
    let mut state = AppState::new();
    state.add_element(UiElement::Button { id: "b".to_string(), text: "B".to_string(), on_click: None });
    state.add_element(UiElement::Text { id: "t".to_string(), text: "T".to_string() });
    state.add_element(UiElement::Input { id: "i".to_string(), value: String::new(), on_input: Some(5) });
    assert!(state.handle_click("b").is_none());
    assert!(state.handle_click("t").is_none());
    assert!(state.handle_click("i").is_none());
    assert!(state.handle_input("b", "x").is_none());
    assert!(state.handle_input("missing", "x").is_none());
    assert!(state.handle_change("i", Payload::Bool(true)).is_none());
    assert!(state.handle_change("missing", Payload::Bool(true)).is_none());
}
