use vstd::prelude::*;
use crate::coordinator::InputError;

verus! {

/// Pause, in milliseconds, between two consecutive strokes of the chord, so
/// that the receiving application takes them as one deliberate chord.
pub const STROKE_DELAY_MS: u64 = 10;

/// A key that takes part in the save chord.
#[derive(Clone, Copy, Debug, PartialEq, Eq, Structural)]
pub enum Key {
    Control,
    S,
}

impl Key {
    /// The key's virtual-key code.
    pub fn code(&self) -> (r: u16)
        ensures
            *self == Key::Control ==> r == 0x11,
            *self == Key::S ==> r == 0x53,
    {
        match self {
            Key::Control => 0x11,
            Key::S => 0x53,
        }
    }
}

/// One synthetic keyboard event: a key going down, or coming back up.
#[derive(Clone, Copy, Debug, PartialEq, Eq, Structural)]
pub struct KeyStroke {
    pub key: Key,
    pub release: bool,
}

/// The save chord, in the order it is emitted.
pub open spec fn save_chord_spec() -> Seq<KeyStroke> {
    seq![
        KeyStroke { key: Key::Control, release: false },
        KeyStroke { key: Key::S, release: false },
        KeyStroke { key: Key::S, release: true },
        KeyStroke { key: Key::Control, release: true },
    ]
}

/// Composes the save keystroke sent to whichever window has the focus.
pub struct KeyboardSimulator;

impl KeyboardSimulator {
    pub fn new() -> (r: KeyboardSimulator) {
        KeyboardSimulator
    }

    /// The strokes of the save chord, strictly ordered: modifier down, letter
    /// down, letter up, modifier up. Each is sent on its own, with
    /// `STROKE_DELAY_MS` between two of them.
    pub fn save_chord(&self) -> (r: Vec<KeyStroke>)
        ensures
            r@ == save_chord_spec(),
    {
        let r = vec![
            KeyStroke { key: Key::Control, release: false },
            KeyStroke { key: Key::S, release: false },
            KeyStroke { key: Key::S, release: true },
            KeyStroke { key: Key::Control, release: true },
        ];
        assert(r@ =~= save_chord_spec());
        r
    }
}

/// The outcome of sending a chord, given how many events the system accepted
/// for each stroke: it succeeded only if every stroke was accepted.
pub fn chord_outcome(sent: &Vec<u32>) -> (r: Result<(), InputError>)
    ensures
        r is Ok <==> forall|i: int| 0 <= i < sent@.len() ==> #[trigger] sent@[i] > 0,
        r is Err ==> r->Err_0 == InputError::Rejected,
{
    let mut i: usize = 0;
    while i < sent.len()
        invariant
            0 <= i <= sent@.len(),
            forall|j: int| 0 <= j < i ==> #[trigger] sent@[j] > 0,
        decreases sent@.len() - i,
    {
        if sent[i] == 0 {
            return Err(InputError::Rejected);
        }
        i = i + 1;
    }
    Ok(())
}

} // verus!
