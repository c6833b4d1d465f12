//! The four fixed dashboard screens.

use vstd::prelude::*;

verus! {

/// One of the four dashboard views.  `Tab` cycles them in declaration
/// order, wrapping from the last back to the first.
#[derive(Clone, Copy, PartialEq, Eq, Structural, Debug)]
pub enum Screen {
    Status,
    Messages,
    Parameters,
    Mission,
}

impl Screen {
    /// The screen after this one in the cycle.
    pub open spec fn spec_next(self) -> Screen {
        match self {
            Screen::Status => Screen::Messages,
            Screen::Messages => Screen::Parameters,
            Screen::Parameters => Screen::Mission,
            Screen::Mission => Screen::Status,
        }
    }

    /// Cycle to the next screen, wrapping from the last to the first.
    pub fn next(self) -> (screen: Screen)
        ensures
            screen == self.spec_next(),
    {
        match self {
            Screen::Status => Screen::Messages,
            Screen::Messages => Screen::Parameters,
            Screen::Parameters => Screen::Mission,
            Screen::Mission => Screen::Status,
        }
    }
}

/// Law: cycling through the screens four times returns to the start,
/// whichever screen that was.
pub proof fn lemma_screen_cycle(screen: Screen)
    ensures
        screen.spec_next().spec_next().spec_next().spec_next() == screen,
{
}

} // verus!
