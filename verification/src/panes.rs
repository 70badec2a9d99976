//! The panes of the viewer, each with its own focus flag, scroll cursor
//! and render cache.

pub mod request;
