use vstd::prelude::*;
use crate::element::{HandlerId, Number, UiElement};

verus! {

/// The scalar carried by a `change` event, as far as dispatch can read it.
#[derive(Clone, Copy, Debug, PartialEq, Eq, Structural)]
pub enum Payload {
    /// A JSON boolean.
    Bool(bool),
    /// A JSON number, as the bits of the double it reads as.
    Number(Number),
    /// Any other JSON value (string, null, array, object).
    Unsupported,
}

/// A message from a client to the server.
#[allow(inconsistent_fields)]
#[derive(Clone, Debug)]
pub enum ClientMessage {
    Click { id: String },
    Input { id: String, value: String },
    Change { id: String, value: Payload },
}

/// A message from the server to its clients.
#[derive(Clone, Debug)]
pub enum ServerMessage {
    /// The full snapshot sent once when a connection opens.
    Init { elements: Vec<UiElement> },
    /// One element that was replaced and published.
    Update { id: String, element: UiElement },
}

/// A handler call that dispatch has resolved: which handler, with which argument.
/// It is handed back to the caller, who runs it with no registry borrow held.
#[derive(Clone, Debug)]
pub enum Invocation {
    Click { handler: HandlerId },
    Input { handler: HandlerId, text: String },
    Bool { handler: HandlerId, flag: bool },
    Number { handler: HandlerId, number: Number },
}

impl ServerMessage {
    /// This message is the update of identifier `id` to `element`.
    pub open spec fn is_update(self, id: Seq<char>, element: UiElement) -> bool {
        match self {
            ServerMessage::Update { id: i, element: e } => i@ == id && e == element,
            _ => false,
        }
    }
}

} // verus!
