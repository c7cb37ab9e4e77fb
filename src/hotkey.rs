use vstd::prelude::*;
use crate::pause::{toggled, PauseFlag};

verus! {

/// Identifier under which the pause/resume hotkey is registered.
pub const HOTKEY_ID: i32 = 1;

/// Modifier set of the hotkey: Control together with Shift.
pub const HOTKEY_MODIFIERS: u32 = 0x0006;

/// Virtual-key code of the hotkey's letter, P.
pub const HOTKEY_KEY: u32 = 0x50;

/// Code of the system message that announces a registered hotkey.
pub const WM_HOTKEY: u32 = 0x0312;

/// Whether a system message reports the pause/resume hotkey.
pub open spec fn is_hotkey_message(message: u32, param: usize) -> bool {
    message == WM_HOTKEY && param == HOTKEY_ID as usize
}

/// Reacts to one message of the listener's loop. On the pause/resume hotkey
/// the flag is toggled and its new value returned, to be announced; any other
/// message leaves the flag alone and is only passed on for dispatch.
pub fn handle_message(flag: &mut PauseFlag, message: u32, param: usize) -> (r: Option<bool>)
    ensures
        is_hotkey_message(message, param) ==> final(flag)@ == toggled(old(flag)@) && r == Some(
            final(flag)@,
        ),
        !is_hotkey_message(message, param) ==> final(flag)@ == old(flag)@ && r is None,
{
    if message == WM_HOTKEY && param == HOTKEY_ID as usize {
        Some(flag.toggle())
    } else {
        None
    }
}

} // verus!
