//! A two-pane terminal demo: a render loop that toggles a popup flag on a
//! keypress, the layout it draws, and the session that owns the terminal.
//! The decisions live here and are verified; the terminal I/O lives in the
//! application around this library.

pub mod state;
pub mod layout;
pub mod session;
