//! The core of a desktop manager for software projects: the list of
//! projects, the selection and the pane on screen, the transition function
//! over user requests, and the projection of the state to a view tree.

pub mod laws;
pub mod models;
pub mod store;
pub mod theme;
pub mod view;
