//! Interactive session controller for a small desktop front-end with three
//! forms: repository synchronization, manifest generation, and application
//! launch.
//!
//! The library owns the in-memory form state, the logic that applies user
//! edits and folder-picker choices to it, and the dispatch step that turns a
//! collaborator's result into the single user-visible outcome. The window
//! toolkit, the native folder picker, and the three long-running operations
//! themselves are collaborators outside this crate: callers hand their
//! results in as plain values, and every state change here is verified.

pub mod dispatch;
pub mod edits;
pub mod session;

pub use dispatch::Action;
pub use dispatch::OpFailure;
pub use edits::FieldEdit;
pub use session::NimbleGui;
pub use session::PathField;
pub use session::SessionView;
pub use session::init_view;
