//! Decisions taken while applying a profile to a game window: which window is
//! the target, how its style is changed, whether the move succeeded, and the
//! retry policy of a whole apply run.
use crate::profile::Profile;
use crate::text::{chars_of, contains_chars, is_blank, is_blank_str, lowercase, seq_contains, to_lowercase};
use vstd::prelude::*;

verus! {

/// Ways in which applying a profile can fail.
#[derive(Debug, Clone, Copy, PartialEq, Eq, Structural)]
pub enum WindowManagerError {
    /// The window belongs to a process that refused the move (Win32 error 5).
    AccessDenied,
    /// No window could be moved to the profile's rectangle.
    ApplyFailed,
    /// No running process matches the profile.
    ProcessNotFound,
}

/// Options of one apply request.
#[derive(Debug, Clone, Copy, PartialEq, Eq)]
pub struct ApplyConfig {
    /// Apply to this process only, instead of looking processes up by name.
    pub pid: Option<u32>,
    /// Try again later when no window was found.
    pub retry: bool,
    /// How many attempts were made before this one.
    pub retries: u8,
    /// Keep watching the window after the move and re-apply when it is changed.
    pub monitor: bool,
}

impl Default for ApplyConfig {
    fn default() -> (r: Self)
        ensures
            r == (ApplyConfig { pid: None, retry: false, retries: 0, monitor: false }),
    {
        ApplyConfig { pid: None, retry: false, retries: 0, monitor: false }
    }
}

impl ApplyConfig {
    /// The default configuration: any process, no retry, no monitoring.
    pub fn new() -> (r: Self)
        ensures
            r == (ApplyConfig { pid: None, retry: false, retries: 0, monitor: false }),
    {
        ApplyConfig::default()
    }

    /// The configuration of a request made by the user (from the window, the
    /// tray, a shortcut or the command pipe): any process, retried, and watched
    /// after the move.
    pub fn interactive() -> (r: Self)
        ensures
            r == (ApplyConfig { pid: None, retry: true, retries: 0, monitor: true }),
    {
        ApplyConfig::new().retry(true).monitor(true)
    }

    pub fn pid(self, pid: Option<u32>) -> (r: Self)
        ensures
            r == (ApplyConfig { pid, ..self }),
    {
        ApplyConfig { pid, ..self }
    }

    pub fn retry(self, retry: bool) -> (r: Self)
        ensures
            r == (ApplyConfig { retry, ..self }),
    {
        ApplyConfig { retry, ..self }
    }

    pub fn retries(self, retries: u8) -> (r: Self)
        ensures
            r == (ApplyConfig { retries, ..self }),
    {
        ApplyConfig { retries, ..self }
    }

    pub fn monitor(self, monitor: bool) -> (r: Self)
        ensures
            r == (ApplyConfig { monitor, ..self }),
    {
        ApplyConfig { monitor, ..self }
    }
}

/// The `WS_VISIBLE` window style bit.
pub const WS_VISIBLE: u32 = 0x1000_0000;

/// The window style bits of a sizing border, a dialog frame and a thin border
/// (`WS_THICKFRAME | WS_DLGFRAME | WS_BORDER`).
pub const BORDER_STYLES: isize = 0x00C4_0000;

/// The extended style bits of edges and dialog frames (`WS_EX_DLGMODALFRAME |
/// WS_EX_WINDOWEDGE | WS_EX_CLIENTEDGE | WS_EX_STATICEDGE`).
pub const BORDER_EX_STYLES: isize = 0x0002_0301;

/// The flags of the position update that redraws the frame without moving,
/// sizing, reordering or activating the window (`SWP_NOSIZE | SWP_NOMOVE |
/// SWP_NOZORDER | SWP_NOACTIVATE | SWP_NOOWNERZORDER | SWP_NOSENDCHANGING |
/// SWP_FRAMECHANGED`).
pub const FRAME_REFRESH_FLAGS: u32 = 0x0637;

/// The Win32 error code of a refused access.
pub const ERROR_ACCESS_DENIED: u32 = 5;

/// A top-level window as seen while enumerating windows.
#[derive(Debug)]
pub struct WindowInfo {
    /// The process that owns the window.
    pub pid: u32,
    /// The window's style bits.
    pub style: u32,
    /// The window's title.
    pub title: String,
}

/// A window rectangle in screen coordinates.
#[derive(Debug, Clone, Copy, PartialEq, Eq, Structural)]
pub struct WindowRect {
    pub left: i32,
    pub top: i32,
    pub right: i32,
    pub bottom: i32,
}

pub open spec fn spec_is_target_window(window_pid: u32, target_pid: u32, style: u32) -> bool {
    window_pid == target_pid && style & WS_VISIBLE != 0
}

/// A window is the target of `target_pid` when that process owns it and it is
/// visible.
pub fn is_target_window(window_pid: u32, target_pid: u32, style: u32) -> (r: bool)
    ensures
        r == spec_is_target_window(window_pid, target_pid, style),
{
    window_pid == target_pid && style & WS_VISIBLE != 0
}

/// `i` is the first window of `windows` that is a target of `pid`.
pub open spec fn is_first_target(windows: Seq<WindowInfo>, pid: u32, i: int) -> bool {
    &&& 0 <= i < windows.len()
    &&& spec_is_target_window(windows[i].pid, pid, windows[i].style)
    &&& forall|j: int| 0 <= j < i ==> !spec_is_target_window(#[trigger] windows[j].pid, pid, windows[j].style)
}

/// The first window, in enumeration order, that is visible and owned by `pid`:
/// the one that an apply pass moves.
pub fn first_target_window(windows: &Vec<WindowInfo>, pid: u32) -> (r: Option<usize>)
    ensures
        match r {
            Some(i) => is_first_target(windows@, pid, i as int),
            None => forall|j: int| 0 <= j < windows@.len() ==> !spec_is_target_window(#[trigger] windows@[j].pid, pid, windows@[j].style),
        },
{
    let mut k: usize = 0;
    while k < windows.len()
        invariant
            k <= windows@.len(),
            forall|j: int| 0 <= j < k ==> !spec_is_target_window(#[trigger] windows@[j].pid, pid, windows@[j].style),
        decreases windows@.len() - k,
    {
        if is_target_window(windows[k].pid, pid, windows[k].style) {
            return Some(k);
        }
        k = k + 1;
    }
    None
}

/// The window sits exactly at the profile's position with the profile's size.
pub open spec fn rect_matches_profile(rect: WindowRect, profile: Profile) -> bool {
    &&& rect.left == profile.window_pos_x
    &&& rect.top == profile.window_pos_y
    &&& rect.right - rect.left == profile.window_width
    &&& rect.bottom - rect.top == profile.window_height
}

/// Checks that a window rectangle is the one the profile asks for.
pub fn validate_window_rect(rect: WindowRect, profile: &Profile) -> (r: bool)
    ensures
        r == rect_matches_profile(rect, *profile),
{
    let actual_width: i64 = rect.right as i64 - rect.left as i64;
    let actual_height: i64 = rect.bottom as i64 - rect.top as i64;
    rect.left == profile.window_pos_x && rect.top == profile.window_pos_y
        && actual_width == profile.window_width as i64 && actual_height
        == profile.window_height as i64
}

/// The new style and extended style of a window whose borders the profile
/// removes: the border bits are cleared and every other bit is kept. `None`
/// when the profile keeps the borders.
pub fn remove_window_borders(profile: &Profile, style: isize, ex_style: isize) -> (r: Option<(isize, isize)>)
    ensures
        profile.remove_borders <==> r is Some,
        r matches Some((s, x)) ==> s == style & !BORDER_STYLES && x == ex_style & !BORDER_EX_STYLES,
{
    if !profile.remove_borders {
        return None;
    }
    let mut new_style = style;
    new_style = new_style | BORDER_STYLES;
    new_style = new_style ^ BORDER_STYLES;
    let mut new_ex = ex_style;
    new_ex = new_ex | BORDER_EX_STYLES;
    new_ex = new_ex ^ BORDER_EX_STYLES;
    assert(((style | 0x00C4_0000isize) ^ 0x00C4_0000isize) == style & !0x00C4_0000isize) by (bit_vector);
    assert(((ex_style | 0x0002_0301isize) ^ 0x0002_0301isize) == ex_style & !0x0002_0301isize) by (bit_vector);
    Some((new_style, new_ex))
}

/// The error of a failed move: access denied for Win32 error 5, a failed apply
/// for any other code.
pub fn move_failure_error(error_code: u32) -> (r: WindowManagerError)
    ensures
        r == (if error_code == ERROR_ACCESS_DENIED {
            WindowManagerError::AccessDenied
        } else {
            WindowManagerError::ApplyFailed
        }),
{
    if error_code == ERROR_ACCESS_DENIED {
        WindowManagerError::AccessDenied
    } else {
        WindowManagerError::ApplyFailed
    }
}

/// A visible window with a non-empty title.
pub open spec fn visible_titled(w: WindowInfo) -> bool {
    w.style & WS_VISIBLE != 0 && w.title@.len() > 0
}

/// The window is visible and has a title: the windows that a title search
/// looks at and that the diagnostic window list shows.
pub fn is_visible_titled(w: &WindowInfo) -> (r: bool)
    ensures
        r == visible_titled(*w),
{
    w.style & WS_VISIBLE != 0 && w.title.as_str().unicode_len() > 0
}

/// A visible window with a non-empty title that contains `name`, compared in
/// lower case.
pub open spec fn title_matches(w: WindowInfo, name: Seq<char>) -> bool {
    &&& visible_titled(w)
    &&& seq_contains(lowercase(w.title@), lowercase(name))
}

/// `i` is the first window of `windows` whose title matches `name`.
pub open spec fn is_first_title_match(windows: Seq<WindowInfo>, name: Seq<char>, i: int) -> bool {
    &&& 0 <= i < windows.len()
    &&& title_matches(windows[i], name)
    &&& forall|j: int| 0 <= j < i ==> !title_matches(#[trigger] windows[j], name)
}

/// The owner of the first visible, titled window, in enumeration order, whose
/// title contains the profile name `name` regardless of case. A blank name
/// matches nothing.
pub fn find_pid_by_window_title(name: &str, windows: &Vec<WindowInfo>) -> (r: Option<u32>)
    ensures
        is_blank(name@) ==> r is None,
        !is_blank(name@) ==> match r {
            Some(pid) => exists|i: int| is_first_title_match(windows@, name@, i) && windows@[i].pid == pid,
            None => forall|j: int| 0 <= j < windows@.len() ==> !title_matches(#[trigger] windows@[j], name@),
        },
{
    if is_blank_str(name) {
        return None;
    }
    let lowered = to_lowercase(name);
    let needle = chars_of(lowered.as_str());
    let mut k: usize = 0;
    while k < windows.len()
        invariant
            needle@ == lowercase(name@),
            !is_blank(name@),
            k <= windows@.len(),
            forall|j: int| 0 <= j < k ==> !title_matches(#[trigger] windows@[j], name@),
        decreases windows@.len() - k,
    {
        let w = &windows[k];
        if is_visible_titled(w) {
            let lowered_title = to_lowercase(w.title.as_str());
            let hay = chars_of(lowered_title.as_str());
            if contains_chars(&hay, &needle) {
                assert(is_first_title_match(windows@, name@, k as int));
                return Some(w.pid);
            }
        }
        k = k + 1;
    }
    None
}

/// The class of the frame window that hosts a UWP app.
pub fn is_uwp_frame_class(class: &str) -> (r: bool)
    ensures
        r == (class@ == "ApplicationFrameWindow"@),
{
    class.to_owned() == "ApplicationFrameWindow".to_owned()
}

/// The class of the separate child window that draws a UWP app's title bar.
pub fn is_uwp_titlebar_class(class: &str) -> (r: bool)
    ensures
        r == (class@ == "ApplicationFrameTitleBarWindow"@),
{
    class.to_owned() == "ApplicationFrameTitleBarWindow".to_owned()
}

/// After a successful move, the title bar child of a UWP frame is hidden when
/// the profile removes borders; classic windows are never touched.
pub fn hides_uwp_titlebar(profile: &Profile, frame_class: &str) -> (r: bool)
    ensures
        r == (profile.remove_borders && frame_class@ == "ApplicationFrameWindow"@),
{
    profile.remove_borders && is_uwp_frame_class(frame_class)
}

/// The outcome of moving a window to a profile's rectangle: a move that the
/// system refused gives the error of its code; a move that left the window
/// elsewhere gives `ApplyFailed`; otherwise the profile is applied.
/// `rect_after` is the window's rectangle read after the move (not looked at
/// when the move was refused).
pub fn move_outcome(moved: bool, error_code: u32, rect_after: WindowRect, profile: &Profile) -> (r: Result<(), WindowManagerError>)
    ensures
        r is Ok <==> moved && rect_matches_profile(rect_after, *profile),
        !moved ==> r == Err::<(), WindowManagerError>(
            if error_code == ERROR_ACCESS_DENIED {
                WindowManagerError::AccessDenied
            } else {
                WindowManagerError::ApplyFailed
            },
        ),
        moved && !rect_matches_profile(rect_after, *profile) ==> r == Err::<(), WindowManagerError>(WindowManagerError::ApplyFailed),
{
    if !moved {
        return Err(move_failure_error(error_code));
    }
    if !validate_window_rect(rect_after, profile) {
        return Err(WindowManagerError::ApplyFailed);
    }
    Ok(())
}

/// A window is watched for changes after it was moved successfully and only
/// when the request asks for monitoring.
pub fn watches_after_apply(outcome: &Result<(), WindowManagerError>, monitor: bool) -> (r: bool)
    ensures
        r == (outcome is Ok && monitor),
{
    outcome.is_ok() && monitor
}

/// A running executable belongs to a profile when its file name equals the
/// profile's process name regardless of case; an empty process name matches
/// no executable.
pub fn process_name_matches(exe_name: &str, process_name: &str) -> (r: bool)
    ensures
        r == (process_name@.len() > 0 && lowercase(exe_name@) == lowercase(process_name@)),
{
    if process_name.unicode_len() == 0 {
        return false;
    }
    to_lowercase(exe_name) == to_lowercase(process_name)
}

} // verus!
