use racetime::handler::RaceInfoPos;
use racetime::messages::{
    RoomAction, UserAction, direct_message_with_guid, message_with_options, pin_message, room_action,
    say_with_guid, set_bot_raceinfo, set_user_raceinfo, unpin_message, user_action,
};

#[test]
fn single_field_actions() {
    assert_eq!(pin_message("abc"), r#"{"action":"pin_message","data":{"message":"abc"}}"#);
    assert_eq!(unpin_message("abc"), r#"{"action":"unpin_message","data":{"message":"abc"}}"#);
    assert_eq!(set_bot_raceinfo("Seed: 42"), r#"{"action":"setinfo","data":{"info_bot":"Seed: 42"}}"#);
    assert_eq!(user_action(UserAction::Invite, "u1"), r#"{"action":"invite","data":{"user":"u1"}}"#);
    assert_eq!(user_action(UserAction::AcceptRequest, "u1"), r#"{"action":"accept_request","data":{"user":"u1"}}"#);
    assert_eq!(user_action(UserAction::ForceUnready, "u1"), r#"{"action":"force_unready","data":{"user":"u1"}}"#);
    assert_eq!(user_action(UserAction::RemoveEntrant, "u1"), r#"{"action":"remove_entrant","data":{"user":"u1"}}"#);
    assert_eq!(user_action(UserAction::AddMonitor, "u1"), r#"{"action":"add_monitor","data":{"user":"u1"}}"#);
    assert_eq!(user_action(UserAction::RemoveMonitor, "u1"), r#"{"action":"remove_monitor","data":{"user":"u1"}}"#);
}

#[test]
fn values_are_escaped_as_json_strings() {
    let text = set_bot_raceinfo("say \"hi\"\n\\");
    assert_eq!(text, r#"{"action":"setinfo","data":{"info_bot":"say \"hi\"\n\\"}}"#);
    let value: serde_json::Value = serde_json::from_str(&text).unwrap();
    assert_eq!(value["data"]["info_bot"], "say \"hi\"\n\\");
}

#[test]
fn user_race_info_is_combined_before_sending() {
    assert_eq!(
        set_user_raceinfo("old", "new", RaceInfoPos::Prefix),
        r#"{"action":"setinfo","data":{"info_user":"new | old"}}"#,
    );
    assert_eq!(
        set_user_raceinfo("", "new", RaceInfoPos::Suffix),
        r#"{"action":"setinfo","data":{"info_user":"new"}}"#,
    );
}

#[test]
fn room_actions() {
    assert_eq!(room_action(RoomAction::MakeOpen), r#"{"action": "make_open"}"#);
    assert_eq!(room_action(RoomAction::MakeInvitational), r#"{"action": "make_invitational"}"#);
    assert_eq!(room_action(RoomAction::Begin), r#"{"action": "begin"}"#);
    assert_eq!(room_action(RoomAction::Cancel), r#"{"action": "cancel"}"#);
}

#[test]
fn chat_messages_carry_a_guid() {
    assert_eq!(
        say_with_guid("gl hf", "67e55044-10b1-426f-9247-bb680e5fe0c8"),
        r#"{"action":"message","data":{"message":"gl hf","guid":"67e55044-10b1-426f-9247-bb680e5fe0c8"}}"#,
    );
    assert_eq!(
        direct_message_with_guid("hi", "user1", "67e55044-10b1-426f-9247-bb680e5fe0c8"),
        r#"{"action":"message","data":{"message":"hi","direct_to":"user1","guid":"67e55044-10b1-426f-9247-bb680e5fe0c8"}}"#,
    );
}

#[test]
fn control_characters_are_escaped() {
    assert_eq!(
        set_bot_raceinfo("a\u{8}\t\u{c}\r\u{1}\u{1f}é"),
        r#"{"action":"setinfo","data":{"info_bot":"a\b\t\f\r\u0001\u001fé"}}"#,
    );
}

#[test]
fn messages_with_options() {
    let guid = "67e55044-10b1-426f-9247-bb680e5fe0c8";
    assert_eq!(
        message_with_options("gl hf", true, &Vec::new(), guid),
        r#"{"action":"message","data":{"message":"gl hf","pinned":true,"actions":{},"guid":"67e55044-10b1-426f-9247-bb680e5fe0c8"}}"#,
    );
    let actions = vec![
        ("Roll".to_string(), r#"{"message":"!roll"}"#.to_string()),
        ("Say \"hi\"".to_string(), r#"{"message":"!hi","help_text":"greets"}"#.to_string()),
    ];
    let text = message_with_options("pick", false, &actions, guid);
    assert_eq!(
        text,
        r#"{"action":"message","data":{"message":"pick","pinned":false,"actions":{"Roll":{"message":"!roll"},"Say \"hi\"":{"message":"!hi","help_text":"greets"}},"guid":"67e55044-10b1-426f-9247-bb680e5fe0c8"}}"#,
    );
    let value: serde_json::Value = serde_json::from_str(&text).unwrap();
    assert_eq!(value["data"]["actions"]["Say \"hi\""]["help_text"], "greets");
}
