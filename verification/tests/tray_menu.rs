use resize_rabbit::profile::Profile;
use resize_rabbit::shortcuts::{shortcut_bindings, ShortcutBinding};
use resize_rabbit::tray::{
    build_tray_menu, tray_command, tray_strings_for_lang, LocaleDoc, ProfileMenu, ShortcutLine,
    TrayCommand, TrayMenuEntry, TraySection, TrayStrings,
};

const ID: u128 = 0xa1a2a3a4b1b2c1c2d1d2d3d4d5d6d7d8;

fn profile(uuid: u128, name: &str, shortcut: Option<&str>) -> Profile {
    Profile {
        uuid,
        name: name.to_string(),
        process_name: String::new(),
        auto: false,
        delay: 0,
        window_height: 600,
        window_width: 800,
        window_pos_y: 0,
        window_pos_x: 0,
        remove_borders: false,
        shortcut: shortcut.map(|s| s.to_string()),
    }
}

fn section_with_show(show: &str) -> TraySection {
    TraySection {
        show: Some(show.to_string()),
        apply: None,
        check_updates: None,
        exit: None,
        update_available_title: None,
        update_available_msg: None,
        update_error_title: None,
        update_error_msg: None,
        up_to_date_title: None,
        up_to_date_msg: None,
        update_check_failed_title: None,
        update_check_failed_msg: None,
    }
}

#[test]
fn default_strings_are_english() {
    let s = TrayStrings::default();
    assert_eq!(s.show, "Show");
    assert_eq!(s.apply, "Apply");
    assert_eq!(s.check_updates, "Check for Updates");
    assert_eq!(s.exit, "Exit");
    assert_eq!(s.update_available_msg, "Version {{version}} is available. Install now?");
    assert_eq!(s.update_check_failed_msg, "Could not check for updates: {{error}}");
}

#[test]
fn locale_choice_falls_back_in_order() {
    let appdata = LocaleDoc { tray: Some(section_with_show("Mostrar")) };
    let appdata_old = LocaleDoc { tray: None };
    let bundled = LocaleDoc { tray: Some(section_with_show("Afficher")) };
    let en = LocaleDoc { tray: Some(section_with_show("Show!")) };
    assert_eq!(tray_strings_for_lang(Some(appdata), Some(bundled.clone()), Some(en.clone())).show, "Mostrar");
    assert_eq!(tray_strings_for_lang(Some(appdata_old.clone()), Some(bundled.clone()), Some(en.clone())).show, "Afficher");
    assert_eq!(tray_strings_for_lang(None, None, Some(en)).show, "Show!");
    assert_eq!(tray_strings_for_lang(None, Some(appdata_old), None), TrayStrings::default());
    assert_eq!(tray_strings_for_lang(None, None, None), TrayStrings::default());
    assert_eq!(tray_strings_for_lang(None, Some(bundled), None).exit, "Exit");
}

#[test]
fn menu_lists_each_profile_between_separators() {
    let ps = vec![profile(ID, "Forza", Some("Ctrl+F")), profile(2, "Elite", Some(""))];
    let m = build_tray_menu(&ps, &TrayStrings::default());
    assert_eq!(m.len(), 7);
    assert_eq!(m[0], TrayMenuEntry::Item { id: "show".into(), title: "Show".into() });
    assert_eq!(m[1], TrayMenuEntry::Separator);
    assert_eq!(
        m[2],
        TrayMenuEntry::Profile(ProfileMenu {
            title: "Forza".into(),
            apply_id: "apply-a1a2a3a4-b1b2-c1c2-d1d2-d3d4d5d6d7d8".into(),
            apply_title: "Apply".into(),
            shortcut: Some(ShortcutLine {
                id: "shortcut-a1a2a3a4-b1b2-c1c2-d1d2-d3d4d5d6d7d8".into(),
                text: "Ctrl+F".into(),
            }),
        })
    );
    assert_eq!(
        m[3],
        TrayMenuEntry::Profile(ProfileMenu {
            title: "Elite".into(),
            apply_id: "apply-00000000-0000-0000-0000-000000000002".into(),
            apply_title: "Apply".into(),
            shortcut: None,
        })
    );
    assert_eq!(m[4], TrayMenuEntry::Separator);
    assert_eq!(m[5], TrayMenuEntry::Item { id: "check-updates".into(), title: "Check for Updates".into() });
    assert_eq!(m[6], TrayMenuEntry::Item { id: "exit".into(), title: "Exit".into() });
}

#[test]
fn empty_menu_has_the_fixed_entries() {
    let m = build_tray_menu(&vec![], &TrayStrings::default());
    assert_eq!(m.len(), 5);
}

#[test]
fn clicks_are_read_back() {
    assert_eq!(tray_command("show"), TrayCommand::Show);
    assert_eq!(tray_command("exit"), TrayCommand::Exit);
    assert_eq!(tray_command("check-updates"), TrayCommand::CheckUpdates);
    assert_eq!(tray_command("apply-a1a2a3a4-b1b2-c1c2-d1d2-d3d4d5d6d7d8"), TrayCommand::ApplyProfile(ID));
    assert_eq!(tray_command("apply-A1A2A3A4B1B2C1C2D1D2D3D4D5D6D7D8"), TrayCommand::ApplyProfile(ID));
    assert_eq!(tray_command("apply-nonsense"), TrayCommand::Ignore);
    assert_eq!(tray_command("shortcut-a1a2a3a4-b1b2-c1c2-d1d2-d3d4d5d6d7d8"), TrayCommand::Ignore);
    assert_eq!(tray_command("Show"), TrayCommand::Ignore);
}

#[test]
fn menu_ids_round_trip_through_clicks() {
    let ps = vec![profile(ID, "a", None), profile(u128::MAX, "b", None), profile(0, "c", None)];
    let m = build_tray_menu(&ps, &TrayStrings::default());
    for (i, p) in ps.iter().enumerate() {
        match &m[i + 2] {
            TrayMenuEntry::Profile(pm) => assert_eq!(tray_command(&pm.apply_id), TrayCommand::ApplyProfile(p.uuid)),
            other => panic!("unexpected entry {:?}", other),
        }
    }
}

#[test]
fn only_non_empty_shortcuts_are_bound() {
    let ps = vec![profile(1, "a", Some("Ctrl+1")), profile(2, "b", None), profile(3, "c", Some("")), profile(4, "d", Some("Alt+D"))];
    assert_eq!(
        shortcut_bindings(&ps),
        vec![
            ShortcutBinding { shortcut: "Ctrl+1".into(), profile_index: 0 },
            ShortcutBinding { shortcut: "Alt+D".into(), profile_index: 3 },
        ]
    );
}
