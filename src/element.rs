use vstd::prelude::*;

verus! {

/// Identifies an interaction handler; the host keeps the callables themselves.
pub type HandlerId = u64;

/// A numeric element value, held as the bit pattern of an IEEE-754 double.
/// The registry carries numbers and never computes with them.
#[derive(Clone, Copy, Debug, PartialEq, Eq, Structural)]
pub struct Number {
    pub bits: u64,
}

/// A typed, identified unit of UI state, with the handler slot its kind accepts.
#[allow(inconsistent_fields)]
#[derive(Clone, Debug)]
pub enum UiElement {
    /// A clickable button with a zero-argument action.
    Button { id: String, text: String, on_click: Option<HandlerId> },
    /// Read-only text.
    Text { id: String, text: String },
    /// A text field with a string-argument action.
    Input { id: String, value: String, on_input: Option<HandlerId> },
    /// A checkbox with a bool-argument action.
    Checkbox { id: String, checked: bool, on_change: Option<HandlerId> },
    /// A range slider with a number-argument action.
    Slider {
        id: String,
        value: Number,
        min: Number,
        max: Number,
        step: Option<Number>,
        on_change: Option<HandlerId>,
    },
    /// A radio button of a named group with a bool-argument action.
    Radio {
        id: String,
        name: String,
        value: String,
        checked: bool,
        on_change: Option<HandlerId>,
    },
    /// A number field with a number-argument action.
    NumberInput {
        id: String,
        value: Number,
        min: Option<Number>,
        max: Option<Number>,
        step: Option<Number>,
        on_change: Option<HandlerId>,
    },
}

impl UiElement {
    /// The element's own identifier.
    pub open spec fn spec_id(&self) -> Seq<char> {
        match self {
            UiElement::Button { id, .. } => id@,
            UiElement::Text { id, .. } => id@,
            UiElement::Input { id, .. } => id@,
            UiElement::Checkbox { id, .. } => id@,
            UiElement::Slider { id, .. } => id@,
            UiElement::Radio { id, .. } => id@,
            UiElement::NumberInput { id, .. } => id@,
        }
    }

    /// The identifier field itself.
    pub open spec fn id_string(&self) -> String {
        match self {
            UiElement::Button { id, .. } => *id,
            UiElement::Text { id, .. } => *id,
            UiElement::Input { id, .. } => *id,
            UiElement::Checkbox { id, .. } => *id,
            UiElement::Slider { id, .. } => *id,
            UiElement::Radio { id, .. } => *id,
            UiElement::NumberInput { id, .. } => *id,
        }
    }

    /// `self` is `original` with its identifier replaced by `id`.
    pub open spec fn renames(self, original: UiElement, id: Seq<char>) -> bool {
        self.spec_id() == id && self == original.spec_with_id(self.id_string())
    }

    /// The same element under another identifier.
    pub open spec fn spec_with_id(self, new_id: String) -> UiElement {
        match self {
            UiElement::Button { text, on_click, .. } => UiElement::Button {
                id: new_id,
                text,
                on_click,
            },
            UiElement::Text { text, .. } => UiElement::Text { id: new_id, text },
            UiElement::Input { value, on_input, .. } => UiElement::Input {
                id: new_id,
                value,
                on_input,
            },
            UiElement::Checkbox { checked, on_change, .. } => UiElement::Checkbox {
                id: new_id,
                checked,
                on_change,
            },
            UiElement::Slider { value, min, max, step, on_change, .. } => UiElement::Slider {
                id: new_id,
                value,
                min,
                max,
                step,
                on_change,
            },
            UiElement::Radio { name, value, checked, on_change, .. } => UiElement::Radio {
                id: new_id,
                name,
                value,
                checked,
                on_change,
            },
            UiElement::NumberInput { value, min, max, step, on_change, .. } => {
                UiElement::NumberInput { id: new_id, value, min, max, step, on_change }
            },
        }
    }

    /// Returns the element's identifier.
    pub fn id(&self) -> (r: &String)
        ensures
            r@ == self.spec_id(),
    {
        match self {
            UiElement::Button { id, .. } => id,
            UiElement::Text { id, .. } => id,
            UiElement::Input { id, .. } => id,
            UiElement::Checkbox { id, .. } => id,
            UiElement::Slider { id, .. } => id,
            UiElement::Radio { id, .. } => id,
            UiElement::NumberInput { id, .. } => id,
        }
    }

    /// Returns the same element under the identifier `new_id`.
    pub fn with_id(self, new_id: String) -> (r: UiElement)
        ensures
            r == self.spec_with_id(new_id),
            r.spec_id() == new_id@,
    {
        match self {
            UiElement::Button { text, on_click, .. } => UiElement::Button {
                id: new_id,
                text,
                on_click,
            },
            UiElement::Text { text, .. } => UiElement::Text { id: new_id, text },
            UiElement::Input { value, on_input, .. } => UiElement::Input {
                id: new_id,
                value,
                on_input,
            },
            UiElement::Checkbox { checked, on_change, .. } => UiElement::Checkbox {
                id: new_id,
                checked,
                on_change,
            },
            UiElement::Slider { value, min, max, step, on_change, .. } => UiElement::Slider {
                id: new_id,
                value,
                min,
                max,
                step,
                on_change,
            },
            UiElement::Radio { name, value, checked, on_change, .. } => UiElement::Radio {
                id: new_id,
                name,
                value,
                checked,
                on_change,
            },
            UiElement::NumberInput { value, min, max, step, on_change, .. } => {
                UiElement::NumberInput { id: new_id, value, min, max, step, on_change }
            },
        }
    }

    /// Returns an independent copy of the element.
    pub fn duplicate(&self) -> (r: UiElement)
        ensures
            r == *self,
    {
        match self {
            UiElement::Button { id, text, on_click } => UiElement::Button {
                id: id.clone(),
                text: text.clone(),
                on_click: *on_click,
            },
            UiElement::Text { id, text } => UiElement::Text { id: id.clone(), text: text.clone() },
            UiElement::Input { id, value, on_input } => UiElement::Input {
                id: id.clone(),
                value: value.clone(),
                on_input: *on_input,
            },
            UiElement::Checkbox { id, checked, on_change } => UiElement::Checkbox {
                id: id.clone(),
                checked: *checked,
                on_change: *on_change,
            },
            UiElement::Slider { id, value, min, max, step, on_change } => UiElement::Slider {
                id: id.clone(),
                value: *value,
                min: *min,
                max: *max,
                step: *step,
                on_change: *on_change,
            },
            UiElement::Radio { id, name, value, checked, on_change } => UiElement::Radio {
                id: id.clone(),
                name: name.clone(),
                value: value.clone(),
                checked: *checked,
                on_change: *on_change,
            },
            UiElement::NumberInput { id, value, min, max, step, on_change } => {
                UiElement::NumberInput {
                    id: id.clone(),
                    value: *value,
                    min: *min,
                    max: *max,
                    step: *step,
                    on_change: *on_change,
                }
            },
        }
    }
}

} // verus!
