//! A to-do list: task records, the application state that owns them, and the
//! rules by which one redraw of the window changes that state.
//!
//! Nothing here draws. A front end shows the state, gathers what the user did
//! to each widget during the redraw, and hands that back as plain values.

pub mod app;
pub mod laws;
pub mod listing;
pub mod todolist;
