//! A small interactive todo-list core: an application state machine
//! (browse / compose modes, list selection, an input buffer) together
//! with a pure projection of the state into a renderable layout.
//!
//! Terminal setup, event polling and drawing are left to the embedding
//! program; this crate holds the state, the keystroke dispatcher and
//! the view projection, all verified.

pub mod dispatch;
pub mod laws;
pub mod project;
pub mod state;

pub use dispatch::FormAction;
pub use dispatch::Key;
pub use dispatch::dispatch;
pub use dispatch::handle_add_new;
pub use dispatch::handle_key;
pub use project::Layout;
pub use project::Row;
pub use project::project;
pub use state::AppState;
pub use state::Mode;
pub use state::TodoItem;
