use resize_rabbit::tray::{parse_locale_doc, tray_strings_from_texts, LocaleDoc, TrayStrings};
use resize_rabbit::updates::{replace_placeholder, update_step, UpdateAction, UpdateEvent};

#[test]
fn locale_doc_reads_string_entries_of_tray() {
    let text = r#"{"tray": {"show": "Mostrar", "apply": 3, "exit": null, "checkForUpdates": "Buscar"}, "other": 1}"#;
    let doc = parse_locale_doc(text).unwrap();
    let sec = doc.tray.unwrap();
    assert_eq!(sec.show, Some("Mostrar".to_string()));
    assert_eq!(sec.apply, None);
    assert_eq!(sec.exit, None);
    assert_eq!(sec.check_updates, Some("Buscar".to_string()));
    assert_eq!(sec.update_error_msg, None);
}

#[test]
fn locale_doc_without_tray_or_invalid() {
    assert_eq!(parse_locale_doc(r#"{"menu": {}}"#), Some(LocaleDoc { tray: None }));
    assert_eq!(parse_locale_doc(r#"{"tray": null}"#), Some(LocaleDoc { tray: None }));
    assert_eq!(parse_locale_doc("{ not json"), None);
    assert_eq!(parse_locale_doc("[1, 2]"), Some(LocaleDoc { tray: None }));
    // a tray entry that is not an object still counts as present, with no strings
    let doc = parse_locale_doc(r#"{"tray": "x"}"#).unwrap();
    assert!(doc.tray.is_some());
    assert_eq!(doc.tray.unwrap().show, None);
}

#[test]
fn tray_texts_fall_back_in_order() {
    let appdata = r#"{"tray": {"show": "Zeigen"}}"#;
    let appdata_old = r#"{"nav": {}}"#;
    let bundled = r#"{"tray": {"show": "Afficher", "exit": "Quitter"}}"#;
    let en = r#"{"tray": {"show": "Show"}}"#;
    assert_eq!(tray_strings_from_texts(Some(appdata), Some(bundled), Some(en)).show, "Zeigen");
    let s = tray_strings_from_texts(Some(appdata_old), Some(bundled), Some(en));
    assert_eq!(s.show, "Afficher");
    assert_eq!(s.exit, "Quitter");
    assert_eq!(s.apply, "Apply");
    assert_eq!(tray_strings_from_texts(Some("broken"), Some("broken"), Some(en)).show, "Show");
    assert_eq!(tray_strings_from_texts(None, Some(r#"{"x": 1}"#), Some(en)), TrayStrings::default());
    assert_eq!(tray_strings_from_texts(None, None, None), TrayStrings::default());
}

#[test]
fn placeholders_are_replaced_like_str_replace() {
    let cases = [
        ("Version {{version}} is available. Install now?", "{{version}}", "2.1.0"),
        ("{{error}} and {{error}}", "{{error}}", "E"),
        ("no placeholder", "{{error}}", "E"),
        ("aaaa", "aa", "b"),
        ("abc", "", "X"),
        ("", "", "X"),
        ("", "x", "X"),
        ("{{e{{error}}", "{{error}}", "!"),
    ];
    for (text, pat, with) in cases {
        assert_eq!(replace_placeholder(text, pat, with), text.replace(pat, with));
    }
}

#[test]
fn update_check_steps() {
    let s = TrayStrings::default();
    assert_eq!(
        update_step(&s, UpdateEvent::Checked(Ok(Some("2.0.0".to_string())))),
        UpdateAction::Ask {
            title: "Update Available".to_string(),
            message: "Version 2.0.0 is available. Install now?".to_string()
        }
    );
    assert_eq!(
        update_step(&s, UpdateEvent::Checked(Ok(None))),
        UpdateAction::Inform {
            title: "Up to Date".to_string(),
            message: "You are running the latest version.".to_string()
        }
    );
    assert_eq!(
        update_step(&s, UpdateEvent::Checked(Err("offline".to_string()))),
        UpdateAction::Inform {
            title: "Update Check Failed".to_string(),
            message: "Could not check for updates: offline".to_string()
        }
    );
    assert_eq!(update_step(&s, UpdateEvent::Answered(true)), UpdateAction::Install);
    assert_eq!(update_step(&s, UpdateEvent::Answered(false)), UpdateAction::Done);
    assert_eq!(update_step(&s, UpdateEvent::Installed(Ok(()))), UpdateAction::Restart);
    assert_eq!(
        update_step(&s, UpdateEvent::Installed(Err("disk full".to_string()))),
        UpdateAction::Inform {
            title: "Update Error".to_string(),
            message: "Failed to install update: disk full".to_string()
        }
    );
}
