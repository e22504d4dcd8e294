use zwm::winapi::{
    borderless_style, explorer_shell_windows, is_tiling_candidate, owner_walk_resume, owner_walk_start, show_command,
    WalkAction, WindowVisibility, SW_HIDE, SW_SHOW, TRUE, WS_EX_TOOLWINDOW,
};

#[test]
fn show_commands() {
    assert_eq!(show_command(WindowVisibility::Visible), SW_SHOW);
    assert_eq!(show_command(WindowVisibility::Hidden), SW_HIDE);
    assert_eq!(SW_SHOW, 5);
    assert_eq!(SW_HIDE, 0);
}

#[test]
fn border_removed_from_overlapped_window() {
    // WS_OVERLAPPEDWINDOW | WS_VISIBLE
    let style = 0x10CF_0000u32;
    assert_eq!(borderless_style(style), 0x1003_0000);
}

#[test]
fn border_removal_keeps_other_bits_and_is_idempotent() {
    let style = 0xFFFF_FFFFu32;
    let once = borderless_style(style);
    assert_eq!(once, 0xDE33_FFFF);
    assert_eq!(borderless_style(once), once);
    assert_eq!(borderless_style(0x21CC_0000), 0);
    assert_eq!(borderless_style(0x0000_1234), 0x0000_1234);
}

#[test]
fn tiling_candidates() {
    assert!(is_tiling_candidate(1, 0));
    assert!(is_tiling_candidate(1, 0x0004_0000));
    assert!(!is_tiling_candidate(0, 0));
    assert!(!is_tiling_candidate(1, WS_EX_TOOLWINDOW));
    assert!(!is_tiling_candidate(1, WS_EX_TOOLWINDOW | 0x100));
}

#[test]
fn unowned_window_accepted() {
    let (walk, action) = owner_walk_start(42, 42);
    assert!(matches!(action, WalkAction::QueryPopup(42)));
    let (_, action) = owner_walk_resume(walk, 42, 0);
    assert!(matches!(action, WalkAction::Accept));
}

#[test]
fn unowned_window_with_visible_popup_accepted() {
    let (walk, action) = owner_walk_start(42, 42);
    assert!(matches!(action, WalkAction::QueryPopup(42)));
    let (_, action) = owner_walk_resume(walk, 77, TRUE);
    assert!(matches!(action, WalkAction::Accept));
}

#[test]
fn owned_window_rejected() {
    let (walk, action) = owner_walk_start(42, 9);
    assert!(matches!(action, WalkAction::QueryPopup(9)));
    let (walk, action) = owner_walk_resume(walk, 9, 0);
    assert_eq!(walk.walked, 9);
    assert!(matches!(action, WalkAction::Reject));
}

#[test]
fn walk_follows_hidden_popups() {
    let (walk, action) = owner_walk_start(42, 9);
    assert!(matches!(action, WalkAction::QueryPopup(9)));
    let (walk, action) = owner_walk_resume(walk, 42, 0);
    assert!(matches!(action, WalkAction::QueryPopup(42)));
    let (walk, action) = owner_walk_resume(walk, 42, 0);
    assert_eq!(walk.walked, 42);
    assert!(matches!(action, WalkAction::Accept));
}

#[test]
fn walk_without_root_owner_rejects() {
    let (_, action) = owner_walk_start(42, 0);
    assert!(matches!(action, WalkAction::Reject));
}

#[test]
fn explorer_windows() {
    let q = explorer_shell_windows();
    assert_eq!(q.len(), 2);
    assert_eq!(q[0].class_name, "Progman");
    assert_eq!(q[0].window_name, Some("Program Manager"));
    assert_eq!(q[1].class_name, "Shell_TrayWnd");
    assert_eq!(q[1].window_name, None);
}
