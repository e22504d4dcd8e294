//! The window manager's rules about windows: what a visibility request
//! asks the system to do, how a window loses its border, which windows are
//! tiled, and the key handling.

pub mod hook;
pub mod key;

use vstd::prelude::*;

verus! {

/// `ShowWindow` command that hides a window.
pub const SW_HIDE: i32 = 0x0000;
/// `ShowWindow` command that shows a window.
pub const SW_SHOW: i32 = 0x0005;

/// Window style: title bar.
pub const WS_CAPTION: u32 = 0x00C0_0000;
/// Window style: sizing border.
pub const WS_THICKFRAME: u32 = 0x0004_0000;
/// Window style: minimized.
pub const WS_MINIMIZE: u32 = 0x2000_0000;
/// Window style: maximized.
pub const WS_MAXIMIZE: u32 = 0x0100_0000;
/// Window style: window menu in the title bar.
pub const WS_SYSMENU: u32 = 0x0008_0000;
/// Extended window style: tool window, kept out of the taskbar.
pub const WS_EX_TOOLWINDOW: u32 = 0x0000_0080;
/// The Win32 `TRUE`.
pub const TRUE: i32 = 1;
/// The null window handle.
pub const NULL_WINDOW: usize = 0;

/// Whether a window is to be shown or hidden.
pub enum WindowVisibility {
    Visible,
    Hidden,
}

/// The `ShowWindow` command for a visibility.
pub open spec fn spec_show_command(visibility: WindowVisibility) -> i32 {
    match visibility {
        WindowVisibility::Visible => SW_SHOW,
        WindowVisibility::Hidden => SW_HIDE,
    }
}

/// The `ShowWindow` command that gives a window the requested visibility.
pub fn show_command(visibility: WindowVisibility) -> (command: i32)
    ensures
        command == spec_show_command(visibility),
{
    match visibility {
        WindowVisibility::Visible => SW_SHOW,
        WindowVisibility::Hidden => SW_HIDE,
    }
}

/// The style bits that make up a window's border and its minimized or
/// maximized state.
pub open spec fn border_style_mask() -> u32 {
    WS_CAPTION | WS_THICKFRAME | WS_MINIMIZE | WS_MAXIMIZE | WS_SYSMENU
}

/// The window style with the title bar, the sizing border, the window menu
/// and the minimized and maximized flags cleared.
pub fn borderless_style(current_style: u32) -> (style: u32)
    ensures
        style == current_style & !border_style_mask(),
{
    current_style & !(WS_CAPTION | WS_THICKFRAME | WS_MINIMIZE | WS_MAXIMIZE | WS_SYSMENU)
}

/// Removing the border clears exactly the border bits: none of them is left
/// set, every other bit keeps its value, and removing it again changes
/// nothing.
pub proof fn lemma_borderless_style_clears_only_border(current_style: u32)
    ensures
        (current_style & !border_style_mask()) & border_style_mask() == 0,
        (current_style & !border_style_mask()) | (current_style & border_style_mask()) == current_style,
        (current_style & !border_style_mask()) & !border_style_mask() == current_style & !border_style_mask(),
{
    let mask = border_style_mask();
    assert((current_style & !mask) & mask == 0) by (bit_vector);
    assert((current_style & !mask) | (current_style & mask) == current_style) by (bit_vector);
    assert((current_style & !mask) & !mask == current_style & !mask) by (bit_vector);
}

/// Showing asks `ShowWindow` for `SW_SHOW` (5), hiding for `SW_HIDE` (0).
pub proof fn lemma_show_commands_are_win32_values()
    ensures
        spec_show_command(WindowVisibility::Visible) == 5,
        spec_show_command(WindowVisibility::Hidden) == 0,
{
}

/// The border bits are the title bar (0x00C0_0000), the sizing border
/// (0x0004_0000), the window menu (0x0008_0000), and the maximized
/// (0x0100_0000) and minimized (0x2000_0000) flags: removing the border
/// clears these bits and no other.
pub proof fn lemma_borderless_style_bits(current_style: u32)
    ensures
        (current_style & !border_style_mask()) & 0x21CC_0000u32 == 0,
        (current_style & !border_style_mask()) & !0x21CC_0000u32 == current_style & !0x21CC_0000u32,
{
    assert(border_style_mask() == 0x21CC_0000u32) by (bit_vector);
    let m = border_style_mask();
    assert((current_style & !m) & 0x21CC_0000u32 == 0) by (bit_vector)
        requires m == 0x21CC_0000u32;
    assert((current_style & !m) & !0x21CC_0000u32 == current_style & !0x21CC_0000u32) by (bit_vector)
        requires m == 0x21CC_0000u32;
}

/// A window is a tiling candidate exactly when it is visible and its
/// extended style lacks the tool-window bit (0x80).
pub proof fn lemma_tiling_candidate_bits(visible: i32, ex_style: u32)
    ensures
        spec_is_tiling_candidate(visible, ex_style) <==> (visible != 0 && ex_style & 0x80u32 == 0),
{
}

/// Visible and not a tool window.
pub open spec fn spec_is_tiling_candidate(visible: i32, ex_style: u32) -> bool {
    visible != 0 && ex_style & WS_EX_TOOLWINDOW == 0
}

/// A window enumerated at start-up is considered for tiling only when it is
/// visible (`visible` is what `IsWindowVisible` returned) and is not a tool
/// window (`ex_style` is its extended style).
pub fn is_tiling_candidate(visible: i32, ex_style: u32) -> (b: bool)
    ensures
        b == spec_is_tiling_candidate(visible, ex_style),
{
    if visible == 0 {
        return false;
    }
    if ex_style & WS_EX_TOOLWINDOW != 0 {
        return false;
    }
    true
}

/// The walk from a window's root owner along last active popups, which
/// decides whether the window is one the user switches to.
pub struct OwnerWalk {
    /// The window being decided on.
    pub window: usize,
    /// The window the walk stands on.
    pub walked: usize,
    /// The window the walk moves to next.
    pub candidate: usize,
}

/// What the walk needs next.
pub enum WalkAction {
    /// The walk ended on the window: tile it.
    Accept,
    /// The walk ended elsewhere: leave the window alone.
    Reject,
    /// Ask for the last active popup of this window, and whether that popup
    /// is visible.
    QueryPopup(usize),
}

/// One check of the walk: when it has not moved since the last step it
/// ends, accepting the window if it ended on it; otherwise it moves to the
/// candidate and asks for the candidate's last active popup.
pub open spec fn spec_walk_check(walk: OwnerWalk) -> (OwnerWalk, WalkAction) {
    if walk.walked == walk.candidate {
        (walk, if walk.walked == walk.window { WalkAction::Accept } else { WalkAction::Reject })
    } else {
        (OwnerWalk { walked: walk.candidate, ..walk }, WalkAction::QueryPopup(walk.candidate))
    }
}

/// The end of a walk on the window it stands on.
pub open spec fn spec_walk_end(walk: OwnerWalk) -> (OwnerWalk, WalkAction) {
    (walk, if walk.walked == walk.window { WalkAction::Accept } else { WalkAction::Reject })
}

fn walk_check(walk: OwnerWalk) -> (result: (OwnerWalk, WalkAction))
    ensures
        result == spec_walk_check(walk),
{
    if walk.walked == walk.candidate {
        let action = if walk.walked == walk.window { WalkAction::Accept } else { WalkAction::Reject };
        (walk, action)
    } else {
        let candidate = walk.candidate;
        (OwnerWalk { window: walk.window, walked: candidate, candidate: candidate }, WalkAction::QueryPopup(candidate))
    }
}

/// The walk for `window` started at its root owner `root_owner`, standing
/// on no window, after its first check.
pub open spec fn spec_walk_start(window: usize, root_owner: usize) -> (OwnerWalk, WalkAction) {
    spec_walk_check(OwnerWalk { window, walked: NULL_WINDOW, candidate: root_owner })
}

/// Starts the walk for `window` at its root owner `root_owner`, standing on
/// no window.
pub fn owner_walk_start(window: usize, root_owner: usize) -> (result: (OwnerWalk, WalkAction))
    ensures
        result == spec_walk_start(window, root_owner),
{
    walk_check(OwnerWalk { window, walked: NULL_WINDOW, candidate: root_owner })
}

/// The walk after a popup query: `popup` is the last active popup of the
/// window the walk stands on and `popup_visible` what `IsWindowVisible`
/// returned for it. A visible popup ends the walk; otherwise the popup
/// becomes the candidate and the walk checks again.
pub open spec fn spec_walk_resume(walk: OwnerWalk, popup: usize, popup_visible: i32) -> (OwnerWalk, WalkAction) {
    if popup_visible == TRUE {
        spec_walk_end(OwnerWalk { candidate: popup, ..walk })
    } else {
        spec_walk_check(OwnerWalk { candidate: popup, ..walk })
    }
}

/// Continues the walk with the answer to its popup query.
pub fn owner_walk_resume(walk: OwnerWalk, popup: usize, popup_visible: i32) -> (result: (OwnerWalk, WalkAction))
    ensures
        result == spec_walk_resume(walk, popup, popup_visible),
{
    let next = OwnerWalk { window: walk.window, walked: walk.walked, candidate: popup };
    if popup_visible == TRUE {
        let action = if next.walked == next.window { WalkAction::Accept } else { WalkAction::Reject };
        (next, action)
    } else {
        walk_check(next)
    }
}

/// A walk never decides on a window other than the one it walks for, and
/// accepts exactly when it ends standing on that window.
pub proof fn lemma_walk_accepts_only_where_it_ends(walk: OwnerWalk, popup: usize, popup_visible: i32)
    ensures
        spec_walk_check(walk).0.window == walk.window,
        spec_walk_resume(walk, popup, popup_visible).0.window == walk.window,
        spec_walk_check(walk).1 is Accept ==> spec_walk_check(walk).0.walked == walk.window,
        spec_walk_resume(walk, popup, popup_visible).1 is Accept ==> spec_walk_resume(walk, popup, popup_visible).0.walked == walk.window,
        spec_walk_resume(walk, popup, popup_visible).1 is Reject ==> spec_walk_resume(walk, popup, popup_visible).0.walked != walk.window,
{
}

/// A visible popup ends the walk at once: the walk stays where it stands,
/// and the window is accepted exactly when the walk stands on it. A popup
/// that is not visible ends the walk when it is the window the walk stands
/// on, and otherwise moves the walk onto the popup and asks for the
/// popup's own last active popup.
pub proof fn lemma_walk_resume_moves_only_to_hidden_popups(walk: OwnerWalk, popup: usize, popup_visible: i32)
    ensures
        ({
            let (next, action) = spec_walk_resume(walk, popup, popup_visible);
            &&& next.window == walk.window
            &&& popup_visible == 1 ==> {
                &&& next.walked == walk.walked
                &&& (walk.walked == walk.window ==> action == WalkAction::Accept)
                &&& (walk.walked != walk.window ==> action == WalkAction::Reject)
            }
            &&& (popup_visible != 1 && popup == walk.walked) ==> {
                &&& next.walked == walk.walked
                &&& (walk.walked == walk.window ==> action == WalkAction::Accept)
                &&& (walk.walked != walk.window ==> action == WalkAction::Reject)
            }
            &&& (popup_visible != 1 && popup != walk.walked) ==> {
                &&& next.walked == popup
                &&& action == WalkAction::QueryPopup(popup)
            }
        }),
{
}

/// The walk starts standing on no window: a window without a root owner
/// is rejected at once (unless it is the null window itself), and any
/// other root owner becomes the window the walk stands on and is asked for
/// its last active popup.
pub proof fn lemma_walk_start_steps_onto_root_owner(window: usize, root_owner: usize)
    ensures
        ({
            let (next, action) = spec_walk_start(window, root_owner);
            &&& next.window == window
            &&& root_owner == 0 ==> next.walked == 0 && (action == if window == 0 {
                WalkAction::Accept
            } else {
                WalkAction::Reject
            })
            &&& root_owner != 0 ==> next.walked == root_owner && action == WalkAction::QueryPopup(root_owner)
        }),
{
}

/// A window that is its own root owner, and whose last active popup is
/// itself or a visible window, is tiled after a single popup query.
pub proof fn lemma_unowned_window_is_accepted(window: usize, popup: usize, popup_visible: i32)
    requires
        window != NULL_WINDOW,
        popup == window || popup_visible == TRUE,
    ensures
        ({
            let (walk, action) = spec_walk_start(window, window);
            &&& action == WalkAction::QueryPopup(window)
            &&& spec_walk_resume(walk, popup, popup_visible).1 == WalkAction::Accept
        }),
{
}

/// A window whose root owner is another window that itself has no other
/// active popup (its popup query answers with itself, not visible) is not
/// tiled: the owner appears in the window list in its place.
pub proof fn lemma_owned_window_is_rejected(window: usize, owner: usize, popup_visible: i32)
    requires
        owner != NULL_WINDOW,
        owner != window,
        popup_visible != TRUE,
    ensures
        ({
            let (walk, action) = spec_walk_start(window, owner);
            &&& action == WalkAction::QueryPopup(owner)
            &&& spec_walk_resume(walk, owner, popup_visible).1 == WalkAction::Reject
        }),
{
}

/// A window looked up by its class name and, optionally, its title.
pub struct WindowQuery {
    pub class_name: &'static str,
    pub window_name: Option<&'static str>,
}

/// The windows of the Explorer shell that the window manager hides at
/// start-up, in the order in which it hides them: the desktop ("Progman",
/// titled "Program Manager") and the taskbar ("Shell_TrayWnd", any title).
pub fn explorer_shell_windows() -> (queries: Vec<WindowQuery>)
    ensures
        queries@.len() == 2,
        queries@[0].class_name@ == "Progman"@,
        queries@[0].window_name matches Some(name) && name@ == "Program Manager"@,
        queries@[1].class_name@ == "Shell_TrayWnd"@,
        queries@[1].window_name is None,
{
    let mut queries: Vec<WindowQuery> = Vec::new();
    queries.push(WindowQuery { class_name: "Progman", window_name: Some("Program Manager") });
    queries.push(WindowQuery { class_name: "Shell_TrayWnd", window_name: None });
    queries
}

} // verus!
