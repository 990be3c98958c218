use resize_rabbit::locales::{bundled_locale, json_file_stem, locale_names, sort_strings};
use resize_rabbit::logging::{decimal_string, log_file_name, log_line, log_switch_action, rotation_plan, LogRename, LogSwitchAction};

fn s(v: &[&str]) -> Vec<String> {
    v.iter().map(|x| x.to_string()).collect()
}

#[test]
fn switching_logging() {
    assert_eq!(log_switch_action(true, true, false), LogSwitchAction::Close);
    assert_eq!(log_switch_action(false, false, false), LogSwitchAction::Close);
    assert_eq!(log_switch_action(true, true, true), LogSwitchAction::Keep);
    assert_eq!(log_switch_action(true, false, true), LogSwitchAction::OpenFresh);
    assert_eq!(log_switch_action(false, true, true), LogSwitchAction::OpenFresh);
    assert_eq!(log_switch_action(false, false, true), LogSwitchAction::OpenFresh);
}

#[test]
fn rotation_moves_logs_up_from_the_highest() {
    // backups 1, 2 and 9 exist
    let exists = vec![true, true, false, false, false, false, false, false, true];
    let plan = rotation_plan(true, &exists);
    assert_eq!(
        plan,
        vec![
            LogRename { from: 9, to: 10 },
            LogRename { from: 2, to: 3 },
            LogRename { from: 1, to: 2 },
            LogRename { from: 0, to: 1 },
        ]
    );
}

#[test]
fn rotation_without_current_log_does_nothing() {
    assert_eq!(rotation_plan(false, &vec![true; 9]), vec![]);
    assert_eq!(rotation_plan(true, &vec![]), vec![LogRename { from: 0, to: 1 }]);
}

#[test]
fn log_lines_are_stamped() {
    assert_eq!(log_line("2024-01-02 03:04:05.678", "hello"), "[2024-01-02 03:04:05.678] hello");
}

#[test]
fn json_stems() {
    assert_eq!(json_file_stem("en.json"), Some("en".to_string()));
    assert_eq!(json_file_stem("pt.BR.json"), Some("pt.BR".to_string()));
    assert_eq!(json_file_stem(".json"), None);
    assert_eq!(json_file_stem("..json"), Some(".".to_string()));
    assert_eq!(json_file_stem("en.JSON"), None);
    assert_eq!(json_file_stem("readme"), None);
    assert_eq!(json_file_stem("en.json.bak"), None);
}

#[test]
fn locale_list_is_sorted_stems() {
    let files = s(&["fr.json", "notes.txt", "de.json", "en.json", ".json", "zh.json", "Es.json"]);
    assert_eq!(locale_names(&files), s(&["Es", "de", "en", "fr", "zh"]));
}

#[test]
fn sorting_matches_std() {
    let v = s(&["b", "a", "ab", "", "é", "z", "a", "B"]);
    let mut expected = v.clone();
    expected.sort();
    assert_eq!(sort_strings(v), expected);
}

#[test]
fn missing_locale_falls_back_to_bundled() {
    let bundled = vec![("en".to_string(), "{\"a\":1}".to_string()), ("es".to_string(), "{}".to_string())];
    assert_eq!(bundled_locale("es", &bundled), Ok("{}".to_string()));
    assert_eq!(bundled_locale("xx", &bundled), Err("Locale 'xx' not found".to_string()));
}

#[test]
fn log_file_names() {
    assert_eq!(log_file_name(0), "resize-rabbit.log");
    assert_eq!(log_file_name(1), "resize-rabbit.1.log");
    assert_eq!(log_file_name(10), "resize-rabbit.10.log");
    assert_eq!(decimal_string(0), "0");
    assert_eq!(decimal_string(907), "907");
    assert_eq!(decimal_string(u32::MAX), "4294967295");
}
