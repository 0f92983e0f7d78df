use racetime::handler::{RaceInfoPos, combine_race_info, command_from_words, command_permissions, parse_command};

fn words(v: &[&str]) -> Vec<String> {
    v.iter().map(|s| s.to_string()).collect()
}

#[test]
fn race_info_is_combined() {
    assert_eq!(combine_race_info("", "new", RaceInfoPos::Prefix), "new");
    assert_eq!(combine_race_info("", "new", RaceInfoPos::Suffix), "new");
    assert_eq!(combine_race_info("old", "new", RaceInfoPos::Overwrite), "new");
    assert_eq!(combine_race_info("old", "new", RaceInfoPos::Prefix), "new | old");
    assert_eq!(combine_race_info("old", "new", RaceInfoPos::Suffix), "old | new");
}

#[test]
fn commands_are_read_like_shell_words() {
    assert_eq!(parse_command(false, None, "!roll 1d6"), Some(("roll".to_string(), words(&["1d6"]))));
    assert_eq!(
        parse_command(false, Some(false), "!seed 'weekly race' --fast"),
        Some(("seed".to_string(), words(&["weekly race", "--fast"]))),
    );
    assert_eq!(parse_command(false, None, "!ping"), Some(("ping".to_string(), vec![])));
}

#[test]
fn non_commands_are_ignored() {
    assert_eq!(parse_command(true, None, "!roll"), None);
    assert_eq!(parse_command(false, Some(true), "!roll"), None);
    assert_eq!(parse_command(false, None, "roll"), None);
    assert_eq!(parse_command(false, None, ""), None);
    assert_eq!(parse_command(false, None, "!"), None);
    assert_eq!(parse_command(false, None, "!   "), None);
    assert_eq!(parse_command(false, None, "!say \"unclosed"), None);
}

#[test]
fn command_from_word_lists() {
    assert_eq!(command_from_words(None), None);
    assert_eq!(command_from_words(Some(vec![])), None);
    assert_eq!(command_from_words(Some(words(&["a", "b", "c"]))), Some(("a".to_string(), words(&["b", "c"]))));
}

#[test]
fn command_permissions_follow_roles() {
    let monitors = words(&["mon1", "mon2"]);
    assert_eq!(command_permissions(None, true, Some("me"), &monitors), (false, false));
    assert_eq!(command_permissions(Some("me"), true, None, &monitors), (true, true));
    assert_eq!(command_permissions(Some("me"), false, Some("me"), &monitors), (false, true));
    assert_eq!(command_permissions(Some("mon2"), false, Some("me"), &monitors), (false, true));
    assert_eq!(command_permissions(Some("other"), false, Some("me"), &monitors), (false, false));
    assert_eq!(command_permissions(Some("other"), false, None, &vec![]), (false, false));
}
