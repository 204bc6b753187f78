use webui::protocol::ServerMessage;
use webui::{AppState, Scope, UiElement};

fn text(id: &str, t: &str) -> UiElement {
    UiElement::Text { id: id.to_string(), text: t.to_string() }
}

#[test]
fn scoped_ids_are_prefixed() {
    let root = Scope::root();
    assert_eq!(root.global_id("status"), "status");
    let form = root.scope("form");
    assert_eq!(form.global_id("status"), "form::status");
    let field = form.scope("field");
    assert_eq!(field.global_id("x"), "form::field::x");
}

#[test]
fn same_local_id_in_two_scopes_coexists() {
    let mut state = AppState::new();
    let form = Scope::root().scope("form");
    let modal = Scope::root().scope("modal");
    form.add_element(&mut state, text("status", "Ready to submit"));
    modal.add_element(&mut state, text("status", "Modal is open"));
    assert_eq!(state.get_all_elements().len(), 2);
    assert_eq!(form.lookup(&state, "status").unwrap().id(), "form::status");
    assert_eq!(modal.lookup(&state, "status").unwrap().id(), "modal::status");
    assert!(state.lookup("form::status").is_some());
    assert!(state.lookup("modal::status").is_some());
    assert!(state.lookup("status").is_none());
}

#[test]
fn scoped_update_broadcasts_only_its_own_id() {
    let mut state = AppState::new();
    let form = Scope::root().scope("form");
    let modal = Scope::root().scope("modal");
    form.add_element(&mut state, text("status", "a"));
    modal.add_element(&mut state, text("status", "b"));
    let mut rx = state.bus().subscribe();
    let reached = form.update_element(&mut state, "status", text("status", "Form submitted successfully!"));
    assert_eq!(reached, Some(1));
    match rx.try_recv() {
        Ok(ServerMessage::Update { id, element }) => {
            assert_eq!(id, "form::status");
            assert_eq!(element.id(), "form::status");
        }
        _ => panic!("expected one update"),
    }
    assert!(rx.try_recv().is_err());
    match modal.lookup(&state, "status").unwrap() {
        UiElement::Text { text, .. } => assert_eq!(text, "b"),
        _ => panic!("kind changed"),
    }
}
