use vstd::prelude::*;

verus! {

/// The value of the pause flag after one toggle.
pub open spec fn toggled(paused: bool) -> bool {
    !paused
}

/// The shared pause flag: `true` while periodic saving is suspended.
pub struct PauseFlag {
    paused: bool,
}

impl PauseFlag {
    pub closed spec fn view(&self) -> bool {
        self.paused
    }

    /// A flag in the active (not paused) state.
    pub fn new() -> (r: PauseFlag)
        ensures
            r@ == false,
    {
        PauseFlag { paused: false }
    }

    pub fn is_paused(&self) -> (r: bool)
        ensures
            r == self@,
    {
        self.paused
    }

    /// Flips the flag and returns the value it now holds. Both the hotkey and
    /// the tray menu go through this one toggle.
    pub fn toggle(&mut self) -> (r: bool)
        ensures
            final(self)@ == toggled(old(self)@),
            r == final(self)@,
    {
        self.paused = !self.paused;
        self.paused
    }
}

/// Toggling twice, from either trigger, gives back the value it started from.
pub proof fn lemma_toggle_twice(paused: bool)
    ensures
        toggled(toggled(paused)) == paused,
{
}

/// The word announced after a toggle that left the flag at `paused`.
pub fn status_label(paused: bool) -> (r: &'static str)
    ensures
        paused ==> r@ == "PAUSED"@,
        !paused ==> r@ == "RESUMED"@,
{
    if paused {
        "PAUSED"
    } else {
        "RESUMED"
    }
}

} // verus!
