use resize_rabbit::profile::{
    add_profile, delete_profile, import_legacy_profiles, position_of_uuid, reorder_profiles,
    update_profile, Profile, ProfileError,
};

fn profile(uuid: u128, name: &str) -> Profile {
    Profile {
        uuid,
        name: name.to_string(),
        process_name: format!("{}.exe", name),
        auto: false,
        delay: 0,
        window_height: 1080,
        window_width: 1920,
        window_pos_y: 0,
        window_pos_x: 0,
        remove_borders: true,
        shortcut: None,
    }
}

fn names(v: &[Profile]) -> Vec<String> {
    v.iter().map(|p| p.name.clone()).collect()
}

#[test]
fn default_profile_has_documented_values() {
    let p = Profile::default();
    assert_eq!(p.name, "New Profile");
    assert_eq!(p.process_name, "");
    assert!(!p.auto);
    assert_eq!(p.delay, 0);
    assert_eq!(p.window_height, 600);
    assert_eq!(p.window_width, 800);
    assert_eq!(p.window_pos_x, 0);
    assert_eq!(p.window_pos_y, 0);
    assert!(!p.remove_borders);
    assert_eq!(p.shortcut, None);
    // version 4, RFC 4122 variant
    assert_eq!((p.uuid >> 76) & 0xF, 4);
    assert_eq!((p.uuid >> 62) & 0x3, 2);
}

#[test]
fn default_profiles_get_distinct_ids() {
    let a = Profile::default();
    let b = Profile::default();
    assert_ne!(a.uuid, b.uuid);
}

#[test]
fn add_appends_at_the_end() {
    let mut v = vec![profile(1, "a")];
    add_profile(&mut v, profile(2, "b"));
    assert_eq!(names(&v), vec!["a", "b"]);
}

#[test]
fn update_replaces_first_profile_with_same_id() {
    let mut v = vec![profile(1, "a"), profile(2, "b"), profile(2, "c")];
    let r = update_profile(&mut v, profile(2, "new"));
    assert_eq!(r, Ok(()));
    assert_eq!(names(&v), vec!["a", "new", "c"]);
}

#[test]
fn update_unknown_id_is_not_found_and_changes_nothing() {
    let mut v = vec![profile(1, "a")];
    let r = update_profile(&mut v, profile(9, "x"));
    assert_eq!(r, Err(ProfileError::NotFound));
    assert_eq!(names(&v), vec!["a"]);
}

#[test]
fn delete_removes_first_profile_with_same_id() {
    let mut v = vec![profile(1, "a"), profile(2, "b"), profile(3, "c")];
    let r = delete_profile(&mut v, &profile(2, "whatever"));
    assert_eq!(r, Ok(()));
    assert_eq!(names(&v), vec!["a", "c"]);
    let r = delete_profile(&mut v, &profile(2, "b"));
    assert_eq!(r, Err(ProfileError::NotFound));
    assert_eq!(names(&v), vec!["a", "c"]);
}

#[test]
fn delete_after_add_restores_the_list() {
    let original = vec![profile(1, "a"), profile(2, "b")];
    let mut v = original.clone();
    add_profile(&mut v, profile(3, "c"));
    delete_profile(&mut v, &profile(3, "c")).unwrap();
    assert_eq!(v, original);
}

#[test]
fn reorder_follows_the_given_ids_and_skips_unknown_ones() {
    let v = vec![profile(1, "a"), profile(2, "b"), profile(3, "c")];
    let r = reorder_profiles(&v, &vec![3, 7, 1, 2]);
    assert_eq!(names(&r), vec!["c", "a", "b"]);
    let r = reorder_profiles(&v, &vec![2]);
    assert_eq!(names(&r), vec!["b"]);
}

#[test]
fn reorder_by_own_order_is_identity() {
    let v = vec![profile(5, "a"), profile(2, "b"), profile(9, "c")];
    let ids: Vec<u128> = v.iter().map(|p| p.uuid).collect();
    assert_eq!(reorder_profiles(&v, &ids), v);
}

#[test]
fn import_adds_only_unknown_ids() {
    let mut current = vec![profile(1, "a"), profile(2, "b")];
    let legacy = vec![profile(2, "old b"), profile(3, "c"), profile(4, "d"), profile(3, "c again")];
    let n = import_legacy_profiles(&mut current, legacy);
    assert_eq!(n, 3);
    assert_eq!(names(&current), vec!["a", "b", "c", "d", "c again"]);
}

#[test]
fn importing_twice_adds_nothing_the_second_time() {
    let mut current = vec![profile(1, "a")];
    let legacy = vec![profile(1, "x"), profile(2, "y")];
    assert_eq!(import_legacy_profiles(&mut current, legacy.clone()), 1);
    assert_eq!(import_legacy_profiles(&mut current, legacy), 0);
    assert_eq!(names(&current), vec!["a", "y"]);
}

#[test]
fn position_finds_first_match() {
    let v = vec![profile(1, "a"), profile(2, "b"), profile(2, "c")];
    assert_eq!(position_of_uuid(&v, 2), Some(1));
    assert_eq!(position_of_uuid(&v, 4), None);
}
