use zwm::winapi::hook::{keyboard_hook_step, HookAction, HookState, HC_ACTION, WM_KEYDOWN, WM_KEYUP};
use zwm::winapi::key::{is_win_key, VirtualKey, VK_H, VK_K, VK_LWIN, VK_RWIN};

const WM_SYSKEYDOWN: u32 = 0x0104;

#[test]
fn key_codes() {
    assert_eq!(VirtualKey::LeftWin.code(), 0x5B);
    assert_eq!(VirtualKey::RightWin.code(), 0x5C);
    assert_eq!(VirtualKey::H.code(), 0x48);
    assert_eq!(VirtualKey::K.code(), 0x4B);
    assert!(matches!(VirtualKey::from_code(0x48), Some(VirtualKey::H)));
    assert!(matches!(VirtualKey::from_code(0x5C), Some(VirtualKey::RightWin)));
    assert!(VirtualKey::from_code(0x41).is_none());
}

#[test]
fn key_code_round_trip() {
    for key in [VirtualKey::LeftWin, VirtualKey::RightWin, VirtualKey::H, VirtualKey::K] {
        let code = key.code();
        assert_eq!(VirtualKey::from_code(code).map(|k| k.code()), Some(code));
    }
}

#[test]
fn win_keys() {
    assert!(is_win_key(VK_LWIN));
    assert!(is_win_key(VK_RWIN));
    assert!(!is_win_key(VK_H));
    assert!(!is_win_key(0));
}

#[test]
fn new_state_has_no_win_key() {
    assert!(!HookState::new().win_key_down);
}

#[test]
fn non_action_event_passes_on() {
    let (s, a) = keyboard_hook_step(HookState { win_key_down: true }, 3, WM_KEYDOWN, VK_H);
    assert!(s.win_key_down);
    assert!(matches!(a, HookAction::PassOn));
    let (s, a) = keyboard_hook_step(HookState { win_key_down: false }, -1, WM_KEYDOWN, VK_LWIN);
    assert!(!s.win_key_down);
    assert!(matches!(a, HookAction::PassOn));
}

#[test]
fn win_press_then_hotkey_then_release() {
    let s = HookState::new();
    let (s, a) = keyboard_hook_step(s, HC_ACTION, WM_KEYDOWN, VK_LWIN);
    assert!(s.win_key_down);
    assert!(matches!(a, HookAction::Swallow));
    let (s, a) = keyboard_hook_step(s, HC_ACTION, WM_KEYDOWN, VK_K);
    assert!(s.win_key_down);
    assert!(matches!(a, HookAction::Hotkey(c) if c == VK_K));
    let (s, a) = keyboard_hook_step(s, HC_ACTION, WM_KEYUP, VK_K);
    assert!(s.win_key_down);
    assert!(matches!(a, HookAction::PassOn));
    let (s, a) = keyboard_hook_step(s, HC_ACTION, WM_KEYUP, VK_RWIN);
    assert!(!s.win_key_down);
    assert!(matches!(a, HookAction::Swallow));
}

#[test]
fn plain_key_passes_on() {
    let (s, a) = keyboard_hook_step(HookState::new(), HC_ACTION, WM_KEYDOWN, VK_H);
    assert!(!s.win_key_down);
    assert!(matches!(a, HookAction::PassOn));
}

#[test]
fn other_messages_pass_on() {
    let (s, a) = keyboard_hook_step(HookState { win_key_down: true }, HC_ACTION, WM_SYSKEYDOWN, VK_LWIN);
    assert!(s.win_key_down);
    assert!(matches!(a, HookAction::PassOn));
}

#[test]
fn win_press_while_held_is_swallowed() {
    let (s, a) = keyboard_hook_step(HookState { win_key_down: true }, HC_ACTION, WM_KEYDOWN, VK_RWIN);
    assert!(s.win_key_down);
    assert!(matches!(a, HookAction::Swallow));
}
