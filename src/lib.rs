//! A server-held registry of UI elements kept in step with connected browser
//! clients: the element model, the registry, the update bus, event dispatch,
//! identifier scoping, the per-connection session machine and the host page.

pub mod bus;
pub mod element;
pub mod page;
pub mod protocol;
pub mod registry;
pub mod scope;
pub mod session;
pub mod state;

pub use bus::UpdateBus;
pub use element::{HandlerId, Number, UiElement};
pub use page::{generate_html, RouterConfig};
pub use protocol::{ClientMessage, Invocation, Payload, ServerMessage};
pub use registry::Registry;
pub use scope::Scope;
pub use session::{Session, SessionAction, SessionEvent, SessionPhase};
pub use state::AppState;
