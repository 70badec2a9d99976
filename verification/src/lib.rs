//! Verified core of an interactive terminal viewer for API description
//! documents: panes with scroll cursors and render caches, an action
//! dispatch loop, and the builder that turns a resolved schema into a
//! styled, line-numbered text panel.

pub mod action;
pub mod app;
pub mod builder;
pub mod canon;
pub mod highlight;
pub mod panes;
pub mod state;
pub mod schema;
pub mod style;
pub mod text;

