use vstd::prelude::*;
use crate::bus::{UpdateBus, BUS_CAPACITY};
use crate::element::{HandlerId, UiElement};
use crate::protocol::{ClientMessage, Invocation, Payload, ServerMessage};
use crate::registry::{is_snapshot_of, lemma_snapshot_holds, Registry};

verus! {

/// The click handler that a `click` on `id` resolves to.
pub open spec fn click_target(m: Map<Seq<char>, UiElement>, id: Seq<char>) -> Option<HandlerId> {
    if m.contains_key(id) {
        match m[id] {
            UiElement::Button { on_click, .. } => on_click,
            _ => None,
        }
    } else {
        None
    }
}

/// The input handler that an `input` on `id` resolves to.
pub open spec fn input_target(m: Map<Seq<char>, UiElement>, id: Seq<char>) -> Option<HandlerId> {
    if m.contains_key(id) {
        match m[id] {
            UiElement::Input { on_input, .. } => on_input,
            _ => None,
        }
    } else {
        None
    }
}

/// The call that a `change` on `id` carrying `value` resolves to: a boolean
/// reaches a checkbox or radio handler, a number a slider or number-input
/// handler; every other combination is dropped.
pub open spec fn change_call(m: Map<Seq<char>, UiElement>, id: Seq<char>, value: Payload) -> Option<
    Invocation,
> {
    if m.contains_key(id) {
        match (m[id], value) {
            (UiElement::Checkbox { on_change: Some(h), .. }, Payload::Bool(b)) => Some(
                Invocation::Bool { handler: h, flag: b },
            ),
            (UiElement::Radio { on_change: Some(h), .. }, Payload::Bool(b)) => Some(
                Invocation::Bool { handler: h, flag: b },
            ),
            (UiElement::Slider { on_change: Some(h), .. }, Payload::Number(n)) => Some(
                Invocation::Number { handler: h, number: n },
            ),
            (UiElement::NumberInput { on_change: Some(h), .. }, Payload::Number(n)) => Some(
                Invocation::Number { handler: h, number: n },
            ),
            _ => None,
        }
    } else {
        None
    }
}

/// The handler call, if any, that a client message resolves to against `m`.
pub open spec fn dispatch_of(m: Map<Seq<char>, UiElement>, msg: ClientMessage) -> Option<Invocation> {
    match msg {
        ClientMessage::Click { id } => match click_target(m, id@) {
            Some(h) => Some(Invocation::Click { handler: h }),
            None => None,
        },
        ClientMessage::Input { id, value } => match input_target(m, id@) {
            Some(h) => Some(Invocation::Input { handler: h, text: value }),
            None => None,
        },
        ClientMessage::Change { id, value } => change_call(m, id@, value),
    }
}

/// The element registry together with the bus its published changes go out on.
///
/// Handlers are never run here: dispatch hands back an `Invocation`, and the
/// caller runs it once its borrow of the state has ended, so a handler may
/// itself publish through the state without deadlocking against its caller.
pub struct AppState {
    registry: Registry,
    bus: UpdateBus,
}

impl View for AppState {
    type V = Map<Seq<char>, UiElement>;

    closed spec fn view(&self) -> Map<Seq<char>, UiElement> {
        self.registry@
    }
}

impl Default for AppState {
    fn default() -> (r: AppState)
        ensures
            r.wf(),
            r@ == Map::<Seq<char>, UiElement>::empty(),
            r.published() == Seq::<ServerMessage>::empty(),
            r.capacity() == BUS_CAPACITY,
    {
        AppState::new()
    }
}

/// `after` is `before` with `element` stored under `id` and exactly one update
/// for it published.
pub open spec fn published_update(before: AppState, after: AppState, id: Seq<char>, element: UiElement) -> bool {
    &&& after.wf()
    &&& after@ == before@.insert(id, element)
    &&& after.published().len() == before.published().len() + 1
    &&& after.published().drop_last() == before.published()
    &&& after.published().last().is_update(id, element)
    &&& after.capacity() == before.capacity()
}

/// `after` is `before` with `element` stored under `id` and nothing published:
/// the update found no subscriber.
pub open spec fn silent_update(before: AppState, after: AppState, id: Seq<char>, element: UiElement) -> bool {
    &&& after.wf()
    &&& after@ == before@.insert(id, element)
    &&& after.published() == before.published()
    &&& after.capacity() == before.capacity()
}

impl AppState {
    /// The registry keeps one entry per identifier.
    pub closed spec fn wf(&self) -> bool {
        self.registry.wf()
    }

    /// Every message published so far, oldest first.
    pub closed spec fn published(&self) -> Seq<ServerMessage> {
        self.bus.published()
    }

    /// The capacity the update bus was made with.
    pub closed spec fn capacity(&self) -> nat {
        self.bus.capacity()
    }

    /// Creates an empty state with nothing published.
    pub fn new() -> (r: AppState)
        ensures
            r.wf(),
            r@ == Map::<Seq<char>, UiElement>::empty(),
            r.published() == Seq::<ServerMessage>::empty(),
            r.capacity() == BUS_CAPACITY,
    {
        AppState { registry: Registry::new(), bus: UpdateBus::new() }
    }

    /// Inserts `element` under its own identifier, replacing what was there,
    /// and publishes nothing.
    pub fn add_element(&mut self, element: UiElement)
        requires
            old(self).wf(),
        ensures
            final(self).wf(),
            final(self)@ == old(self)@.insert(element.spec_id(), element),
            final(self).published() == old(self).published(),
            final(self).capacity() == old(self).capacity(),
    {
        self.registry.upsert(element);
    }

    /// Stores `element` under `id`, replacing what was there, then publishes
    /// one update carrying it and returns how many subscribers it reached.
    /// With no subscriber the update is dropped and `None` comes back.
    pub fn update_element(&mut self, id: &str, element: UiElement) -> (r: Option<usize>)
        requires
            old(self).wf(),
        ensures
            r matches Some(n) ==> n > 0,
            r is Some ==> published_update(*old(self), *final(self), id@, element),
            r is None ==> silent_update(*old(self), *final(self), id@, element),
    {
        let key = id.to_owned();
        self.registry.insert_at(key, element.duplicate());
        let msg = ServerMessage::Update { id: id.to_owned(), element };
        let r = self.bus.publish(msg);
        proof {
            if r is Some {
                assert(self.published().drop_last() =~= old(self).published());
            }
        }
        r
    }

    /// An independent copy of every current element.
    pub fn get_all_elements(&self) -> (r: Vec<UiElement>)
        requires
            self.wf(),
        ensures
            is_snapshot_of(r@, self@),
    {
        self.registry.snapshot()
    }

    /// The element currently held under `id`.
    pub fn lookup(&self, id: &str) -> (r: Option<&UiElement>)
        requires
            self.wf(),
        ensures
            match r {
                Some(e) => self@.contains_key(id@) && *e == self@[id@],
                None => !self@.contains_key(id@),
            },
    {
        self.registry.lookup(id)
    }

    /// The message that opens a connection: a snapshot of the registry now.
    pub fn init_message(&self) -> (r: ServerMessage)
        requires
            self.wf(),
        ensures
            r matches ServerMessage::Init { elements } && is_snapshot_of(elements@, self@),
    {
        ServerMessage::Init { elements: self.registry.snapshot() }
    }

    /// The bus that published updates go out on.
    pub fn bus(&self) -> (r: &UpdateBus)
        ensures
            r.published() == self.published(),
            r.capacity() == self.capacity(),
    {
        &self.bus
    }

    /// Resolves a `click` on `id`: the button's handler, if it has one.
    pub fn handle_click(&self, id: &str) -> (r: Option<Invocation>)
        requires
            self.wf(),
        ensures
            r == (match click_target(self@, id@) {
                Some(h) => Some(Invocation::Click { handler: h }),
                None => None,
            }),
    {
        match self.registry.lookup(id) {
            Some(UiElement::Button { on_click: Some(h), .. }) => Some(Invocation::Click { handler: *h }),
            _ => None,
        }
    }

    /// Resolves an `input` of `value` on `id`: the input field's handler, if it has one.
    pub fn handle_input(&self, id: &str, value: &str) -> (r: Option<Invocation>)
        requires
            self.wf(),
        ensures
            match (r, input_target(self@, id@)) {
                (Some(Invocation::Input { handler, text }), Some(h)) => handler == h && text@ == value@,
                (None, None) => true,
                _ => false,
            },
    {
        match self.registry.lookup(id) {
            Some(UiElement::Input { on_input: Some(h), .. }) => Some(
                Invocation::Input { handler: *h, text: value.to_owned() },
            ),
            _ => None,
        }
    }

    /// Resolves a `change` carrying `value` on `id`; a payload of the wrong
    /// type for the element's kind resolves to nothing.
    pub fn handle_change(&self, id: &str, value: Payload) -> (r: Option<Invocation>)
        requires
            self.wf(),
        ensures
            r == change_call(self@, id@, value),
    {
        match self.registry.lookup(id) {
            Some(element) => match (element, value) {
                (UiElement::Checkbox { on_change: Some(h), .. }, Payload::Bool(b)) => Some(
                    Invocation::Bool { handler: *h, flag: b },
                ),
                (UiElement::Radio { on_change: Some(h), .. }, Payload::Bool(b)) => Some(
                    Invocation::Bool { handler: *h, flag: b },
                ),
                (UiElement::Slider { on_change: Some(h), .. }, Payload::Number(n)) => Some(
                    Invocation::Number { handler: *h, number: n },
                ),
                (UiElement::NumberInput { on_change: Some(h), .. }, Payload::Number(n)) => Some(
                    Invocation::Number { handler: *h, number: n },
                ),
                _ => None,
            },
            None => None,
        }
    }

    /// Resolves a client message to the handler call it asks for, if any.
    /// Unknown identifiers, kind mismatches, missing handlers and payloads of
    /// the wrong type all resolve to nothing.
    pub fn dispatch(&self, msg: ClientMessage) -> (r: Option<Invocation>)
        requires
            self.wf(),
        ensures
            r == dispatch_of(self@, msg),
    {
        match msg {
            ClientMessage::Click { id } => self.handle_click(id.as_str()),
            ClientMessage::Input { id, value } => match self.registry.lookup(id.as_str()) {
                Some(UiElement::Input { on_input: Some(h), .. }) => Some(
                    Invocation::Input { handler: *h, text: value },
                ),
                _ => None,
            },
            ClientMessage::Change { id, value } => self.handle_change(id.as_str(), value),
        }
    }
}

/// An update that reached a subscriber reaches the bus as exactly one new
/// message carrying the new element, and any snapshot taken afterwards holds
/// that element.
pub proof fn lemma_update_then_broadcast(
    before: AppState,
    after: AppState,
    id: Seq<char>,
    element: UiElement,
    snapshot: Seq<UiElement>,
)
    requires
        published_update(before, after, id, element),
        is_snapshot_of(snapshot, after@),
    ensures
        after.published() == before.published().push(after.published().last()),
        after.published().last().is_update(id, element),
        after@[id] == element,
        snapshot.contains(element),
{
    assert(after.published() =~= before.published().push(after.published().last()));
    lemma_snapshot_holds(snapshot, after@, id);
}

/// A `change` whose payload is not of the scalar type the element's kind
/// expects (a number for sliders and number inputs, a boolean for checkboxes
/// and radios) resolves to no handler call.
pub proof fn lemma_change_type_mismatch(m: Map<Seq<char>, UiElement>, id: String, value: Payload)
    requires
        m.contains_key(id@),
        match m[id@] {
            UiElement::Slider { .. } | UiElement::NumberInput { .. } => !(value is Number),
            UiElement::Checkbox { .. } | UiElement::Radio { .. } => !(value is Bool),
            _ => true,
        },
    ensures
        dispatch_of(m, ClientMessage::Change { id, value }) is None,
{
}

} // verus!
