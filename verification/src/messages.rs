//! The text of the actions a bot sends to a race room over its websocket.
//!
//! Each action is a JSON object `{"action":<name>,"data":{...}}`; the values a
//! caller supplies are written as JSON string literals.
use vstd::prelude::*;
use vstd::string::*;

use crate::handler::{RaceInfoPos, combine_race_info, combined_info};
use crate::rooms::{bool_text, form_bool};
use crate::text::{json_string_literal, json_text};

verus! {

/// The text of an action with one string field: `{"action":"<action>","data":{"<field>":<value>}}`,
/// where the value is written as a JSON string literal.
pub open spec fn field_message(action: Seq<char>, field: Seq<char>, value: Seq<char>) -> Seq<char> {
    "{\"action\":\""@ + action + "\",\"data\":{\""@ + field + "\":"@ + json_string_literal(value) + "}}"@
}

/// The text of an action with one string field.
fn field_message_text(action: &str, field: &str, value: &str) -> (r: String)
    ensures
        r@ == field_message(action@, field@, value@),
{
    let v = json_text(value);
    String::from_str("{\"action\":\"").concat(action).concat("\",\"data\":{\"").concat(field).concat(
        "\":",
    ).concat(v.as_str()).concat("}}")
}

/// Pin a chat message; `message_id` is the `id` of the message.
pub fn pin_message(message_id: &str) -> (r: String)
    ensures
        r@ == field_message("pin_message"@, "message"@, message_id@),
{
    field_message_text("pin_message", "message", message_id)
}

/// Unpin a chat message; `message_id` is the `id` of the message.
pub fn unpin_message(message_id: &str) -> (r: String)
    ensures
        r@ == field_message("unpin_message"@, "message"@, message_id@),
{
    field_message_text("unpin_message", "message", message_id)
}

/// Set the `info_bot` field of the race room's data.
pub fn set_bot_raceinfo(info: &str) -> (r: String)
    ensures
        r@ == field_message("setinfo"@, "info_bot"@, info@),
{
    field_message_text("setinfo", "info_bot", info)
}

/// Set the `info_user` field of the race room's data, where it currently holds
/// `current`: `info` goes at `pos` relative to what is there.
pub fn set_user_raceinfo(current: &str, info: &str, pos: RaceInfoPos) -> (r: String)
    ensures
        r@ == field_message("setinfo"@, "info_user"@, combined_info(current@, info@, pos)),
{
    let combined = combine_race_info(current, info, pos);
    field_message_text("setinfo", "info_user", combined.as_str())
}

/// The actions that name a user.
#[derive(Debug, Clone, Copy, PartialEq, Eq, Structural)]
pub enum UserAction {
    /// Invite the user to the race.
    Invite,
    /// Accept the user's request to join the race room.
    AcceptRequest,
    /// Forcibly unready the entrant.
    ForceUnready,
    /// Forcibly remove the entrant from the race.
    RemoveEntrant,
    /// Add the user as a race monitor.
    AddMonitor,
    /// Remove the user as a race monitor.
    RemoveMonitor,
}

/// The name of a user action in the protocol.
pub open spec fn user_action_name(action: UserAction) -> Seq<char> {
    match action {
        UserAction::Invite => "invite"@,
        UserAction::AcceptRequest => "accept_request"@,
        UserAction::ForceUnready => "force_unready"@,
        UserAction::RemoveEntrant => "remove_entrant"@,
        UserAction::AddMonitor => "add_monitor"@,
        UserAction::RemoveMonitor => "remove_monitor"@,
    }
}

/// An action on a user; `user` is the user's hashid.
pub fn user_action(action: UserAction, user: &str) -> (r: String)
    ensures
        r@ == field_message(user_action_name(action), "user"@, user@),
{
    let name = match action {
        UserAction::Invite => "invite",
        UserAction::AcceptRequest => "accept_request",
        UserAction::ForceUnready => "force_unready",
        UserAction::RemoveEntrant => "remove_entrant",
        UserAction::AddMonitor => "add_monitor",
        UserAction::RemoveMonitor => "remove_monitor",
    };
    field_message_text(name, "user", user)
}

/// The actions on the race room itself.
#[derive(Debug, Clone, Copy, PartialEq, Eq, Structural)]
pub enum RoomAction {
    /// Set the room in an open state.
    MakeOpen,
    /// Set the room in an invite-only state.
    MakeInvitational,
    /// Force the start of the race.
    Begin,
    /// Cancel the race.
    Cancel,
}

/// The text of an action on the race room.
pub open spec fn room_action_text(action: RoomAction) -> Seq<char> {
    match action {
        RoomAction::MakeOpen => "{\"action\": \"make_open\"}"@,
        RoomAction::MakeInvitational => "{\"action\": \"make_invitational\"}"@,
        RoomAction::Begin => "{\"action\": \"begin\"}"@,
        RoomAction::Cancel => "{\"action\": \"cancel\"}"@,
    }
}

/// The text of an action on the race room.
pub fn room_action(action: RoomAction) -> (r: String)
    ensures
        r@ == room_action_text(action),
{
    String::from_str(
        match action {
            RoomAction::MakeOpen => "{\"action\": \"make_open\"}",
            RoomAction::MakeInvitational => "{\"action\": \"make_invitational\"}",
            RoomAction::Begin => "{\"action\": \"begin\"}",
            RoomAction::Cancel => "{\"action\": \"cancel\"}",
        },
    )
}

/// The text of a chat message with the given guid:
/// `{"action":"message","data":{"message":<message>,"guid":<guid>}}`.
pub open spec fn chat_message_text(message: Seq<char>, guid: Seq<char>) -> Seq<char> {
    "{\"action\":\"message\",\"data\":{\"message\":"@ + json_string_literal(message) + ",\"guid\":"@
        + json_string_literal(guid) + "}}"@
}

/// The text of a direct message with the given guid:
/// `{"action":"message","data":{"message":<message>,"direct_to":<to>,"guid":<guid>}}`.
pub open spec fn direct_message_text(message: Seq<char>, direct_to: Seq<char>, guid: Seq<char>) -> Seq<char> {
    "{\"action\":\"message\",\"data\":{\"message\":"@ + json_string_literal(message) + ",\"direct_to\":"@
        + json_string_literal(direct_to) + ",\"guid\":"@ + json_string_literal(guid) + "}}"@
}

/// The text of a chat message with the given guid.
pub fn say_with_guid(message: &str, guid: &str) -> (r: String)
    ensures
        r@ == chat_message_text(message@, guid@),
{
    let m = json_text(message);
    let g = json_text(guid);
    String::from_str("{\"action\":\"message\",\"data\":{\"message\":").concat(m.as_str()).concat(
        ",\"guid\":",
    ).concat(g.as_str()).concat("}}")
}

/// The text of a direct message, only visible to its recipient, with the given guid.
pub fn direct_message_with_guid(message: &str, direct_to: &str, guid: &str) -> (r: String)
    ensures
        r@ == direct_message_text(message@, direct_to@, guid@),
{
    let m = json_text(message);
    let t = json_text(direct_to);
    let g = json_text(guid);
    String::from_str("{\"action\":\"message\",\"data\":{\"message\":").concat(m.as_str()).concat(
        ",\"direct_to\":",
    ).concat(t.as_str()).concat(",\"guid\":").concat(g.as_str()).concat("}}")
}

/// The entries of a JSON object whose values are given as JSON text: each key
/// written as a JSON string literal, a colon and its value, separated by commas.
pub open spec fn json_entries(entries: Seq<(Seq<char>, Seq<char>)>) -> Seq<char>
    decreases entries.len(),
{
    if entries.len() == 0 {
        seq![]
    } else if entries.len() == 1 {
        json_string_literal(entries[0].0) + ":"@ + entries[0].1
    } else {
        json_entries(entries.drop_last()) + ","@ + json_string_literal(entries.last().0) + ":"@
            + entries.last().1
    }
}

/// The characters of each label and button text.
pub open spec fn actions_view(actions: Seq<(String, String)>) -> Seq<(Seq<char>, Seq<char>)> {
    actions.map_values(|a: (String, String)| (a.0@, a.1@))
}

/// The text of a chat message with options and the given guid:
/// `{"action":"message","data":{"message":<message>,"pinned":<pinned>,"actions":{<label>:<button>,...},"guid":<guid>}}`,
/// where each button is given as its JSON text.
pub open spec fn options_message_text(
    message: Seq<char>,
    pinned: bool,
    actions: Seq<(Seq<char>, Seq<char>)>,
    guid: Seq<char>,
) -> Seq<char> {
    "{\"action\":\"message\",\"data\":{\"message\":"@ + json_string_literal(message) + ",\"pinned\":"@
        + bool_text(pinned) + ",\"actions\":{"@ + json_entries(actions) + "},\"guid\":"@
        + json_string_literal(guid) + "}}"@
}

/// The entries of the actions object: each label with its button's JSON text.
fn actions_entries(actions: &Vec<(String, String)>) -> (r: String)
    ensures
        r@ == json_entries(actions_view(actions@)),
{
    let mut out = String::new();
    let mut i: usize = 0;
    while i < actions.len()
        invariant
            i <= actions@.len(),
            out@ == json_entries(actions_view(actions@).take(i as int)),
        decreases actions@.len() - i,
    {
        let label = json_text(actions[i].0.as_str());
        let ghost taken = actions_view(actions@).take(i as int);
        let ghost next = actions_view(actions@).take(i + 1);
        assert(next.drop_last() =~= taken);
        assert(next.last() == (actions@[i as int].0@, actions@[i as int].1@));
        if i == 0 {
            assert(taken.len() == 0);
            out = label.concat(":").concat(actions[i].1.as_str());
        } else {
            out = out.concat(",").concat(label.as_str()).concat(":").concat(actions[i].1.as_str());
        }
        i = i + 1;
    }
    assert(actions_view(actions@).take(actions@.len() as int) =~= actions_view(actions@));
    out
}

/// The text of a chat message with the given guid, pinned or not, with action
/// buttons below it (each a label and the button's JSON text).
pub fn message_with_options(message: &str, pinned: bool, actions: &Vec<(String, String)>, guid: &str) -> (r: String)
    ensures
        r@ == options_message_text(message@, pinned, actions_view(actions@), guid@),
{
    let m = json_text(message);
    let a = actions_entries(actions);
    let g = json_text(guid);
    String::from_str("{\"action\":\"message\",\"data\":{\"message\":").concat(m.as_str()).concat(
        ",\"pinned\":",
    ).concat(form_bool(pinned)).concat(",\"actions\":{").concat(a.as_str()).concat("},\"guid\":").concat(
        g.as_str(),
    ).concat("}}")
}

} // verus!
