use resize_rabbit::ipc::{find_profile_by_name, parse_ipc_command, tokenize_command, IpcCommand};
use resize_rabbit::profile::Profile;

fn named(name: &str) -> Profile {
    Profile {
        uuid: name.len() as u128,
        name: name.to_string(),
        process_name: String::new(),
        auto: false,
        delay: 0,
        window_height: 600,
        window_width: 800,
        window_pos_y: 0,
        window_pos_x: 0,
        remove_borders: false,
        shortcut: None,
    }
}

#[test]
fn quoted_arguments_keep_their_spaces() {
    assert_eq!(tokenize_command("apply-profile \"Forza Horizon 4\""), vec!["apply-profile", "Forza Horizon 4"]);
    assert_eq!(tokenize_command("  show  "), vec!["show"]);
    assert_eq!(tokenize_command(""), Vec::<String>::new());
    assert_eq!(tokenize_command(" \t\n "), Vec::<String>::new());
}

#[test]
fn tokens_follow_the_leftmost_alternative() {
    // an empty quoted pair is not a quoted token; it is a run of non-space chars
    assert_eq!(tokenize_command("\"\"x y"), vec!["x", "y"]);
    // an unclosed quote is part of a plain run
    assert_eq!(tokenize_command("\"abc def"), vec!["abc", "def"]);
    // a quote inside a plain run does not start a quoted token
    assert_eq!(tokenize_command("x\"a b\""), vec!["x\"a", "b"]);
    // a quoted token ends at its closing quote
    assert_eq!(tokenize_command("\"a b\"c"), vec!["a b", "c"]);
    // only quotes: trimmed to nothing
    assert_eq!(tokenize_command("\"\"\""), vec![""]);
}

#[test]
fn commands_are_recognised() {
    assert_eq!(parse_ipc_command("show"), IpcCommand::Show);
    assert_eq!(
        parse_ipc_command("apply-profile \"Forza HORIZON 4\" extra"),
        IpcCommand::ApplyProfile { name: "forza horizon 4".to_string() }
    );
    assert_eq!(parse_ipc_command("apply-profile"), IpcCommand::MissingProfileName);
    assert_eq!(parse_ipc_command("   "), IpcCommand::Empty);
    assert_eq!(parse_ipc_command("SHOW"), IpcCommand::Other);
    assert_eq!(parse_ipc_command("quit now"), IpcCommand::Other);
}

#[test]
fn profiles_are_found_by_name_in_lower_case() {
    let v = vec![named("Elite"), named("Forza Horizon 4"), named("forza horizon 4")];
    assert_eq!(find_profile_by_name(&v, "forza horizon 4"), Some(1));
    assert_eq!(find_profile_by_name(&v, "elite"), Some(0));
    assert_eq!(find_profile_by_name(&v, "Elite"), None);
    assert_eq!(find_profile_by_name(&v, "fh5"), None);
}
