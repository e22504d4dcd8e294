//! The decisions of the low-level keyboard hook: which key events are
//! swallowed, which are reported as hotkeys, which go on to the next hook,
//! and whether a Windows key is held down.

use vstd::prelude::*;
use crate::winapi::key::{is_win_key, spec_is_win_key};

verus! {

/// Hook code of an event that the hook procedure must process.
pub const HC_ACTION: i32 = 0;
/// Message of a key press.
pub const WM_KEYDOWN: u32 = 0x0100;
/// Message of a key release.
pub const WM_KEYUP: u32 = 0x0101;

/// What the hook remembers between two events.
pub struct HookState {
    /// A Windows key is held down.
    pub win_key_down: bool,
}

/// What the hook does with an event.
pub enum HookAction {
    /// Hand the event to the next hook in the chain.
    PassOn,
    /// Swallow the event.
    Swallow,
    /// Report the key with this virtual-key code as a hotkey, and swallow the event.
    Hotkey(u32),
}

impl HookState {
    /// The state before any event: no Windows key held.
    pub fn new() -> (s: HookState)
        ensures
            !s.win_key_down,
    {
        HookState { win_key_down: false }
    }
}

/// The hook's reaction to an event with hook code `code`, message `message`
/// and key `vk_code` (the key matters only when `code` is `HC_ACTION`):
/// the next state and the action.
pub open spec fn spec_hook_step(state: HookState, code: i32, message: u32, vk_code: u32) -> (HookState, HookAction) {
    if code < 0 || code != HC_ACTION {
        (state, HookAction::PassOn)
    } else if message == WM_KEYDOWN {
        if !spec_is_win_key(vk_code) && state.win_key_down {
            (state, HookAction::Hotkey(vk_code))
        } else if spec_is_win_key(vk_code) {
            (HookState { win_key_down: true }, HookAction::Swallow)
        } else {
            (state, HookAction::PassOn)
        }
    } else if message == WM_KEYUP {
        if spec_is_win_key(vk_code) {
            (HookState { win_key_down: false }, HookAction::Swallow)
        } else {
            (state, HookAction::PassOn)
        }
    } else {
        (state, HookAction::PassOn)
    }
}

/// Processes one keyboard event: a key pressed while a Windows key is held
/// is a hotkey; Windows key presses and releases are swallowed and update
/// the held flag; everything else goes on to the next hook.
pub fn keyboard_hook_step(state: HookState, code: i32, message: u32, vk_code: u32) -> (result: (HookState, HookAction))
    ensures
        result == spec_hook_step(state, code, message, vk_code),
{
    if code < 0 || code != HC_ACTION {
        return (state, HookAction::PassOn);
    }
    if message == WM_KEYDOWN {
        let win = is_win_key(vk_code);
        if !win && state.win_key_down {
            return (state, HookAction::Hotkey(vk_code));
        }
        if win {
            return (HookState { win_key_down: true }, HookAction::Swallow);
        }
        (state, HookAction::PassOn)
    } else if message == WM_KEYUP {
        if is_win_key(vk_code) {
            return (HookState { win_key_down: false }, HookAction::Swallow);
        }
        (state, HookAction::PassOn)
    } else {
        (state, HookAction::PassOn)
    }
}

/// The full reaction of the hook to an `HC_ACTION` (0) event, by the key's
/// code: presses (0x0100) and releases (0x0101) of the left (0x5B) and right
/// (0x5C) Windows keys are swallowed and set or clear the held flag; a press
/// of any other key while a Windows key is held is reported as a hotkey of
/// that key; every other event (a release of another key, a press of another
/// key with no Windows key held, any other message) goes on to the next hook,
/// and none of these touches the held flag.
pub proof fn lemma_hook_reaction_by_key(state: HookState, message: u32, vk_code: u32)
    ensures
        ({
            let (next, action) = spec_hook_step(state, 0, message, vk_code);
            let win = vk_code == 0x5B || vk_code == 0x5C;
            &&& (message == 0x0100 && win) ==> next.win_key_down && action == HookAction::Swallow
            &&& (message == 0x0101 && win) ==> !next.win_key_down && action == HookAction::Swallow
            &&& (message == 0x0100 && !win && state.win_key_down) ==> next == state && action
                == HookAction::Hotkey(vk_code)
            &&& (message == 0x0100 && !win && !state.win_key_down) ==> next == state && action
                == HookAction::PassOn
            &&& (message == 0x0101 && !win) ==> next == state && action == HookAction::PassOn
            &&& (message != 0x0100 && message != 0x0101) ==> next == state && action == HookAction::PassOn
        }),
{
}

/// An event whose hook code is not `HC_ACTION` (0) goes on to the next hook
/// and leaves the held flag alone, whatever its message and key.
pub proof fn lemma_hook_ignores_non_action_codes(state: HookState, code: i32, message: u32, vk_code: u32)
    requires
        code != 0,
    ensures
        spec_hook_step(state, code, message, vk_code) == (state, HookAction::PassOn),
{
}

/// An event that is not `HC_ACTION` leaves the state as it was and goes on
/// to the next hook, whatever its message and key.
pub proof fn lemma_non_action_events_pass_through(state: HookState, code: i32, message: u32, vk_code: u32)
    requires
        code != HC_ACTION,
    ensures
        spec_hook_step(state, code, message, vk_code) == (state, HookAction::PassOn),
{
}

/// Windows key presses and releases never reach the next hook.
pub proof fn lemma_win_keys_are_swallowed(state: HookState, message: u32, vk_code: u32)
    requires
        message == WM_KEYDOWN || message == WM_KEYUP,
        spec_is_win_key(vk_code),
    ensures
        spec_hook_step(state, HC_ACTION, message, vk_code).1 == HookAction::Swallow,
{
}

/// Pressing and then releasing a Windows key (either one, in any state)
/// leaves no Windows key held.
pub proof fn lemma_win_press_release_clears(state: HookState, pressed: u32, released: u32)
    requires
        spec_is_win_key(pressed),
        spec_is_win_key(released),
    ensures
        spec_hook_step(state, HC_ACTION, WM_KEYDOWN, pressed).0.win_key_down,
        !spec_hook_step(spec_hook_step(state, HC_ACTION, WM_KEYDOWN, pressed).0, HC_ACTION, WM_KEYUP, released).0.win_key_down,
{
}

/// An event is reported as a hotkey exactly when it is the press of a key
/// other than a Windows key while a Windows key is held; the reported key is
/// the pressed one and the state does not change.
pub proof fn lemma_hotkey_exactly_while_win_held(state: HookState, code: i32, message: u32, vk_code: u32)
    ensures
        (spec_hook_step(state, code, message, vk_code).1 is Hotkey) <==> (code == HC_ACTION && message
            == WM_KEYDOWN && state.win_key_down && !spec_is_win_key(vk_code)),
        spec_hook_step(state, code, message, vk_code).1 is Hotkey ==> spec_hook_step(
            state,
            code,
            message,
            vk_code,
        ).1 == HookAction::Hotkey(vk_code) && spec_hook_step(state, code, message, vk_code).0 == state,
{
}

/// The held flag changes only on a Windows key event: it is set by a press
/// and cleared by a release.
pub proof fn lemma_held_flag_follows_win_keys(state: HookState, code: i32, message: u32, vk_code: u32)
    ensures
        ({
            let next = spec_hook_step(state, code, message, vk_code).0;
            &&& next.win_key_down != state.win_key_down ==> code == HC_ACTION && spec_is_win_key(vk_code)
            &&& next.win_key_down && !state.win_key_down ==> message == WM_KEYDOWN
            &&& !next.win_key_down && state.win_key_down ==> message == WM_KEYUP
        }),
{
}

} // verus!
