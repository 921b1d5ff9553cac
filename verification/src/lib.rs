//! Interaction core of a terminal board-game shell: a menu with a wrapping
//! selection, a 3x3 grid with a clamped cursor, and the key interpreter that
//! drives the transitions between them.
use vstd::prelude::*;

pub mod app;
pub mod ui;

verus! {

/// Startup configuration: the one flag that the state machine is built from.
pub struct Cli {
    /// Enables the debug shortcut that toggles between the menu and the grid.
    pub developer_mode: bool,
}

} // verus!
