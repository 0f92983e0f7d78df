use racetime::rooms::{LocationError, edit_race_path, room_slug_from_location, start_race_path};
use racetime::{EditRace, StartRace, form_bool};

fn pairs(form: &[(String, String)]) -> Vec<(&str, &str)> {
    form.iter().map(|(k, v)| (k.as_str(), v.as_str())).collect()
}

fn start_race() -> StartRace {
    StartRace {
        goal: "Beat the game".to_string(),
        goal_is_custom: false,
        team_race: false,
        invitational: true,
        unlisted: false,
        info_user: "seed 1234".to_string(),
        info_bot: "".to_string(),
        require_even_teams: false,
        start_delay: 15,
        time_limit: 24,
        time_limit_auto_complete: false,
        streaming_required: None,
        auto_start: true,
        allow_comments: true,
        hide_comments: false,
        allow_prerace_chat: true,
        allow_midrace_chat: true,
        allow_non_entrant_chat: false,
        chat_message_delay: 0,
    }
}

#[test]
fn form_bools() {
    assert_eq!(form_bool(true), "true");
    assert_eq!(form_bool(false), "false");
}

#[test]
fn start_race_form_lists_every_setting_in_key_order() {
    let form = start_race().form();
    assert_eq!(pairs(&form), vec![
        ("allow_comments", "true"),
        ("allow_midrace_chat", "true"),
        ("allow_non_entrant_chat", "false"),
        ("allow_prerace_chat", "true"),
        ("auto_start", "true"),
        ("chat_message_delay", "0"),
        ("goal", "Beat the game"),
        ("hide_comments", "false"),
        ("info_bot", ""),
        ("info_user", "seed 1234"),
        ("invitational", "true"),
        ("require_even_teams", "false"),
        ("start_delay", "15"),
        ("team_race", "false"),
        ("time_limit", "24"),
        ("time_limit_auto_complete", "false"),
        ("unlisted", "false"),
    ]);
    let keys: Vec<&str> = form.iter().map(|(k, _)| k.as_str()).collect();
    let mut sorted = keys.clone();
    sorted.sort();
    assert_eq!(keys, sorted);
}

#[test]
fn start_race_form_custom_goal_and_streaming() {
    let race = StartRace {
        goal_is_custom: true,
        streaming_required: Some(true),
        start_delay: 255,
        ..start_race()
    };
    let form = race.form();
    let fields = pairs(&form);
    assert!(fields.contains(&("custom_goal", "Beat the game")));
    assert!(!fields.iter().any(|(k, _)| *k == "goal"));
    assert!(fields.contains(&("streaming_required", "true")));
    assert!(fields.contains(&("start_delay", "255")));
    assert_eq!(fields.len(), 18);
    let keys: Vec<&str> = fields.iter().map(|(k, _)| *k).collect();
    let mut sorted = keys.clone();
    sorted.sort();
    assert_eq!(keys, sorted);
}

fn edit_race() -> EditRace {
    EditRace {
        goal: "Any%".to_string(),
        goal_is_custom: true,
        start_delay: 10,
        time_limit: 72,
        chat_message_delay: 90,
        team_race: None,
        unlisted: None,
        info_user: None,
        info_bot: None,
        require_even_teams: None,
        time_limit_auto_complete: None,
        streaming_required: None,
        auto_start: None,
        allow_comments: None,
        hide_comments: None,
        allow_prerace_chat: None,
        allow_midrace_chat: None,
        allow_non_entrant_chat: None,
    }
}

#[test]
fn edit_race_form_holds_only_given_settings() {
    let form = edit_race().form();
    assert_eq!(pairs(&form), vec![
        ("chat_message_delay", "90"),
        ("custom_goal", "Any%"),
        ("start_delay", "10"),
        ("time_limit", "72"),
    ]);
    let race = EditRace {
        goal_is_custom: false,
        unlisted: Some(true),
        info_bot: Some("bot info".to_string()),
        allow_comments: Some(false),
        streaming_required: Some(false),
        ..edit_race()
    };
    let form = race.form();
    assert_eq!(pairs(&form), vec![
        ("allow_comments", "false"),
        ("chat_message_delay", "90"),
        ("goal", "Any%"),
        ("info_bot", "bot info"),
        ("start_delay", "10"),
        ("streaming_required", "false"),
        ("time_limit", "72"),
        ("unlisted", "true"),
    ]);
}

#[test]
fn room_paths() {
    assert_eq!(start_race_path("ootr"), "/o/ootr/startrace");
    assert_eq!(edit_race_path("ootr", "neat-link-1234"), "/o/ootr/neat-link-1234/edit");
}

#[test]
fn room_slug_is_read_from_location() {
    assert_eq!(room_slug_from_location(Some("/ootr/neat-link-1234"), "ootr"), Ok("neat-link-1234".to_string()));
    assert_eq!(room_slug_from_location(None, "ootr"), Err(LocationError::MissingHeader));
    assert_eq!(room_slug_from_location(Some("/smr/neat-link-1234"), "ootr"), Err(LocationError::Category));
    for location in ["", "ootr/neat", "/ootr", "/ootr/", "//neat", "/ootr/neat/", "/ootr/neat/x", "/"] {
        assert_eq!(room_slug_from_location(Some(location), "ootr"), Err(LocationError::Format), "{location:?}");
    }
    assert_eq!(room_slug_from_location(Some("/a b/ c"), "a b"), Ok(" c".to_string()));
}
