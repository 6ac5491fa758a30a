//! Whether keystrokes are read phonetically or passed on as Latin text.

use vstd::prelude::*;

verus! {

#[derive(Clone, Copy, Debug, PartialEq, Eq, Structural)]
pub enum InputMode {
    /// Keystrokes spell kana and open composition sessions.
    Kana,
    /// Keystrokes belong to the host's own text entry.
    Latin,
}

impl InputMode {
    /// The other mode.
    pub open spec fn opposite(self) -> InputMode {
        match self {
            InputMode::Kana => InputMode::Latin,
            InputMode::Latin => InputMode::Kana,
        }
    }

    pub fn toggled(self) -> (r: InputMode)
        ensures
            r == self.opposite(),
    {
        match self {
            InputMode::Kana => InputMode::Latin,
            InputMode::Latin => InputMode::Kana,
        }
    }
}

} // verus!
