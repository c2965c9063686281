//! A verified core for a single-view todo-list application: an owned state
//! store with its commands, the derived views, and a renderer that maps the
//! state to a plain UI tree for an outside display runtime to consume.
pub mod render;
pub mod state;
pub mod text;
