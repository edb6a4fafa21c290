//! State of the alternate, window-based front end.
use vstd::prelude::*;

verus! {

/// The log window.
pub struct LogWindow {
    /// Offset from the end of the log: 0 shows its last line at the bottom.
    pub index: u64,
}

impl LogWindow {
    /// A window showing the end of the log.
    pub fn new() -> (r: Self)
        ensures
            r.index == 0,
    {
        Self { index: 0 }
    }
}

/// The menu: the selected entry.
pub struct Menu {
    pub state: u8,
}

impl Menu {
    /// A menu with its first entry selected.
    pub fn new() -> (r: Self)
        ensures
            r.state == 0,
    {
        Self { state: 0 }
    }
}

/// The status panel; what it shows comes from the game.
pub struct Status {}

} // verus!
