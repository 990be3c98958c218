use resize_rabbit::profile::Profile;
use resize_rabbit::window_manager::{
    find_pid_by_window_title, first_target_window, hides_uwp_titlebar, is_target_window,
    is_uwp_frame_class, is_uwp_titlebar_class, move_failure_error, move_outcome, process_name_matches,
    remove_window_borders, watches_after_apply,
    validate_window_rect, WindowInfo, WindowManagerError, WindowRect, FRAME_REFRESH_FLAGS,
};
use resize_rabbit::window_state::{fits_on_a_monitor, MonitorArea, WindowState};

fn profile(x: i32, y: i32, w: i32, h: i32, remove_borders: bool) -> Profile {
    Profile {
        uuid: 1,
        name: "Forza Horizon 4".to_string(),
        process_name: "ForzaHorizon4.exe".to_string(),
        auto: false,
        delay: 0,
        window_height: h,
        window_width: w,
        window_pos_y: y,
        window_pos_x: x,
        remove_borders,
        shortcut: None,
    }
}

fn win(pid: u32, style: u32, title: &str) -> WindowInfo {
    WindowInfo { pid, style, title: title.to_string() }
}

const VISIBLE: u32 = 0x1000_0000;

#[test]
fn target_window_is_visible_and_owned_by_pid() {
    assert!(is_target_window(7, 7, VISIBLE | 0x00C0_0000));
    assert!(!is_target_window(7, 8, VISIBLE));
    assert!(!is_target_window(7, 7, 0x00C0_0000));
}

#[test]
fn first_target_is_the_first_visible_window_of_the_pid() {
    let ws = vec![win(1, VISIBLE, "a"), win(2, 0, "hidden"), win(2, VISIBLE, "b"), win(2, VISIBLE, "c")];
    assert_eq!(first_target_window(&ws, 2), Some(2));
    assert_eq!(first_target_window(&ws, 3), None);
}

#[test]
fn rect_validation_compares_position_and_size() {
    let p = profile(-2560, 0, 7680, 1440, false);
    assert!(validate_window_rect(WindowRect { left: -2560, top: 0, right: 5120, bottom: 1440 }, &p));
    assert!(!validate_window_rect(WindowRect { left: -2560, top: 0, right: 5121, bottom: 1440 }, &p));
    assert!(!validate_window_rect(WindowRect { left: -2559, top: 0, right: 5121, bottom: 1440 }, &p));
}

#[test]
fn borders_are_cleared_only_when_the_profile_asks() {
    let style: isize = 0x16CF_0000;
    let ex: isize = 0x0002_0301 | 0x8;
    let r = remove_window_borders(&profile(0, 0, 1, 1, true), style, ex);
    assert_eq!(r, Some((0x160B_0000, 0x8)));
    assert_eq!(remove_window_borders(&profile(0, 0, 1, 1, false), style, ex), None);
    assert_eq!(FRAME_REFRESH_FLAGS, 0x0637);
}

#[test]
fn access_denied_is_error_five() {
    assert_eq!(move_failure_error(5), WindowManagerError::AccessDenied);
    assert_eq!(move_failure_error(1400), WindowManagerError::ApplyFailed);
}

#[test]
fn title_search_is_case_insensitive_and_skips_hidden_or_untitled_windows() {
    let ws = vec![
        win(1, 0, "Forza Horizon 4"),
        win(2, VISIBLE, ""),
        win(3, VISIBLE, "Steam"),
        win(4, VISIBLE, "FORZA HORIZON 4 - Launcher"),
        win(5, VISIBLE, "Forza Horizon 4"),
    ];
    assert_eq!(find_pid_by_window_title("forza horizon 4", &ws), Some(4));
    assert_eq!(find_pid_by_window_title("Elite", &ws), None);
}

#[test]
fn blank_name_matches_no_window() {
    let ws = vec![win(1, VISIBLE, "anything")];
    assert_eq!(find_pid_by_window_title("", &ws), None);
    assert_eq!(find_pid_by_window_title(" \t\u{3000}", &ws), None);
}

#[test]
fn uwp_classes() {
    assert!(is_uwp_frame_class("ApplicationFrameWindow"));
    assert!(!is_uwp_frame_class("ApplicationFrameTitleBarWindow"));
    assert!(is_uwp_titlebar_class("ApplicationFrameTitleBarWindow"));
    assert!(!is_uwp_titlebar_class("Windows.UI.Core.CoreWindow"));
    assert!(hides_uwp_titlebar(&profile(0, 0, 1, 1, true), "ApplicationFrameWindow"));
    assert!(!hides_uwp_titlebar(&profile(0, 0, 1, 1, false), "ApplicationFrameWindow"));
    assert!(!hides_uwp_titlebar(&profile(0, 0, 1, 1, true), "UnrealWindow"));
}

#[test]
fn saved_window_is_restored_only_over_a_monitor() {
    let monitors = vec![
        MonitorArea { x: 0, y: 0, width: 1920, height: 1080 },
        MonitorArea { x: 1920, y: 0, width: 2560, height: 1440 },
    ];
    assert!(fits_on_a_monitor(&WindowState { x: 2000, y: 100, width: 800, height: 600 }, &monitors));
    assert!(fits_on_a_monitor(&WindowState { x: -700, y: 100, width: 800, height: 600 }, &monitors));
    assert!(!fits_on_a_monitor(&WindowState { x: -800, y: 100, width: 800, height: 600 }, &monitors));
    assert!(!fits_on_a_monitor(&WindowState { x: 5000, y: 0, width: 800, height: 600 }, &monitors));
    assert!(!fits_on_a_monitor(&WindowState { x: 0, y: 0, width: 800, height: 600 }, &vec![]));
}

#[test]
fn visible_titled_windows() {
    assert!(resize_rabbit::window_manager::is_visible_titled(&win(1, VISIBLE, "x")));
    assert!(!resize_rabbit::window_manager::is_visible_titled(&win(1, VISIBLE, "")));
    assert!(!resize_rabbit::window_manager::is_visible_titled(&win(1, 0, "x")));
}

#[test]
fn move_outcome_needs_the_move_and_the_rectangle() {
    let p = profile(10, 20, 800, 600, false);
    let good = WindowRect { left: 10, top: 20, right: 810, bottom: 620 };
    let bad = WindowRect { left: 10, top: 20, right: 800, bottom: 620 };
    assert_eq!(move_outcome(true, 0, good, &p), Ok(()));
    assert_eq!(move_outcome(true, 0, bad, &p), Err(WindowManagerError::ApplyFailed));
    assert_eq!(move_outcome(false, 5, good, &p), Err(WindowManagerError::AccessDenied));
    assert_eq!(move_outcome(false, 87, good, &p), Err(WindowManagerError::ApplyFailed));
}

#[test]
fn watching_follows_success_and_monitoring() {
    assert!(watches_after_apply(&Ok(()), true));
    assert!(!watches_after_apply(&Ok(()), false));
    assert!(!watches_after_apply(&Err(WindowManagerError::ApplyFailed), true));
}

#[test]
fn process_names_match_regardless_of_case() {
    assert!(process_name_matches("ForzaHorizon4.exe", "forzahorizon4.EXE"));
    assert!(!process_name_matches("ForzaHorizon5.exe", "ForzaHorizon4.exe"));
    assert!(!process_name_matches("", ""));
}
