//! What a race handler does by default: which chat messages are commands and
//! who may give them, how race info is combined, and the text of the actions
//! a bot sends to a race room.
use vstd::prelude::*;
use vstd::string::*;

use crate::text::str_eq;

verus! {

/// Where new race info goes relative to the existing info.
#[derive(Debug, Clone, Copy, PartialEq, Eq, Structural)]
pub enum RaceInfoPos {
    /// Replace the existing race info with the new one.
    Overwrite,
    /// Add the new race info before the existing one, if any, like so: `new | old`
    Prefix,
    /// Add the new race info after the existing one, if any, like so: `old | new`
    Suffix,
}

/// The race info that results from setting `info` at `pos` where `current` stands.
pub open spec fn combined_info(current: Seq<char>, info: Seq<char>, pos: RaceInfoPos) -> Seq<char> {
    if current.len() == 0 || pos is Overwrite {
        info
    } else if pos is Prefix {
        info + " | "@ + current
    } else {
        current + " | "@ + info
    }
}

/// The race info that results from setting `info` at `pos` where `current` stands.
pub fn combine_race_info(current: &str, info: &str, pos: RaceInfoPos) -> (r: String)
    ensures
        r@ == combined_info(current@, info@, pos),
{
    if current.unicode_len() == 0 {
        return String::from_str(info);
    }
    match pos {
        RaceInfoPos::Overwrite => String::from_str(info),
        RaceInfoPos::Prefix => String::from_str(info).concat(" | ").concat(current),
        RaceInfoPos::Suffix => String::from_str(current).concat(" | ").concat(info),
    }
}

/// The words that shlex reads from `s` as a POSIX shell would, or `None` where
/// `s` is malformed (an unclosed quote, a trailing backslash).
pub uninterp spec fn shell_words(s: Seq<char>) -> Option<Seq<Seq<char>>>;

/// The characters of each word in a list of words.
pub open spec fn words_view(words: Seq<String>) -> Seq<Seq<char>> {
    words.map_values(|w: String| w@)
}

/// The characters of an optional list of words.
pub open spec fn optional_words_view(words: Option<Vec<String>>) -> Option<Seq<Seq<char>>> {
    match words {
        Some(w) => Some(words_view(w@)),
        None => None,
    }
}

/// Wraps `shlex::split`.
///
/// Trusted: the result is shlex's split of the argument alone, named by
/// `shell_words`; nothing is stated of the splitting rules.
#[verifier::external_body]
fn shlex_split(s: &str) -> (r: Option<Vec<String>>)
    ensures
        optional_words_view(r) == shell_words(s@),
{
    shlex::split(s)
}

/// The command name and arguments in a list of words: the first word and the
/// rest, where there is at least one word.
pub open spec fn command_of(words: Option<Seq<Seq<char>>>) -> Option<(Seq<char>, Seq<Seq<char>>)> {
    match words {
        Some(w) => if w.len() > 0 {
            Some((w[0], w.drop_first()))
        } else {
            None
        },
        None => None,
    }
}

/// The characters of a command and its arguments.
pub open spec fn command_view(c: Option<(String, Vec<String>)>) -> Option<(Seq<char>, Seq<Seq<char>>)> {
    match c {
        Some((name, args)) => Some((name@, words_view(args@))),
        None => None,
    }
}

/// The command name and arguments in a list of words, where there is at least one word.
pub fn command_from_words(words: Option<Vec<String>>) -> (r: Option<(String, Vec<String>)>)
    ensures
        command_view(r) == command_of(optional_words_view(words)),
{
    match words {
        Some(mut w) => {
            if w.len() == 0 {
                None
            } else {
                let ghost all = w@;
                let name = w.remove(0);
                assert(words_view(w@) =~= words_view(all).drop_first());
                Some((name, w))
            }
        },
        None => None,
    }
}

/// Whether a chat message may hold a command: it was sent by neither a bot
/// nor the system, and starts with `!`.
pub open spec fn may_be_command(is_bot: bool, is_system: Option<bool>, message: Seq<char>) -> bool {
    &&& !is_bot
    &&& !(is_system == Some(true))
    &&& message.len() > 0 && message[0] == '!'
}

/// The command in a chat message: where the message may hold one, the words
/// after its `!`, read as a shell would, give the command name and arguments.
pub open spec fn message_command(is_bot: bool, is_system: Option<bool>, message: Seq<char>) -> Option<(Seq<char>, Seq<Seq<char>>)> {
    if may_be_command(is_bot, is_system, message) {
        command_of(shell_words(message.drop_first()))
    } else {
        None
    }
}

/// The command in a chat message, if it holds one.
pub fn parse_command(is_bot: bool, is_system: Option<bool>, message: &str) -> (r: Option<(String, Vec<String>)>)
    ensures
        command_view(r) == message_command(is_bot, is_system, message@),
{
    let system = match is_system {
        Some(b) => b,
        None => false,
    };
    let n = message.unicode_len();
    if is_bot || system || n == 0 || message.get_char(0) != '!' {
        return None;
    }
    let rest = message.substring_char(1, n);
    assert(rest@ =~= message@.drop_first());
    command_from_words(shlex_split(rest))
}

/// Whether `id` is among `ids`.
pub open spec fn has_id(ids: Seq<String>, id: Seq<char>) -> bool {
    exists|i: int| 0 <= i < ids.len() && ids[i]@ == id
}

/// Whether the sender of a command may act as a moderator: it is a user with
/// moderation rights.
pub open spec fn sender_moderates(sender_id: Option<Seq<char>>, can_moderate: bool) -> bool {
    sender_id is Some && can_moderate
}

/// Whether the sender of a command may act as a monitor of the race: it
/// moderates, opened the race, or is one of its monitors.
pub open spec fn sender_monitors(
    sender_id: Option<Seq<char>>,
    can_moderate: bool,
    opened_by: Option<Seq<char>>,
    monitors: Seq<String>,
) -> bool {
    sender_moderates(sender_id, can_moderate) || match sender_id {
        Some(id) => opened_by == Some(id) || has_id(monitors, id),
        None => false,
    }
}

/// The characters of an optional string slice.
pub open spec fn optional_chars(s: Option<&str>) -> Option<Seq<char>> {
    match s {
        Some(t) => Some(t@),
        None => None,
    }
}

/// Whether the sender of a command (by id, if it is a user, and whether that
/// user may moderate) may act as a moderator and as a monitor of a race opened
/// by `opened_by`, with the given monitors.
pub fn command_permissions(
    sender_id: Option<&str>,
    sender_can_moderate: bool,
    opened_by: Option<&str>,
    monitors: &Vec<String>,
) -> (r: (bool, bool))
    ensures
        r.0 == sender_moderates(optional_chars(sender_id), sender_can_moderate),
        r.1 == sender_monitors(
            optional_chars(sender_id),
            sender_can_moderate,
            optional_chars(opened_by),
            monitors@,
        ),
{
    let id = match sender_id {
        Some(id) => id,
        None => return (false, false),
    };
    let can_moderate = sender_can_moderate;
    if can_moderate {
        return (true, true);
    }
    let opened = match opened_by {
        Some(o) => str_eq(o, id),
        None => false,
    };
    if opened {
        return (false, true);
    }
    let mut i: usize = 0;
    while i < monitors.len()
        invariant
            i <= monitors@.len(),
            forall|j: int| 0 <= j < i ==> monitors@[j]@ != id@,
            optional_chars(sender_id) == Some(id@),
            !sender_can_moderate,
            optional_chars(opened_by) != Some(id@),
        decreases monitors@.len() - i,
    {
        if str_eq(monitors[i].as_str(), id) {
            return (false, true);
        }
        i = i + 1;
    }
    (false, false)
}

/// Overwriting sets the race info to the new info, whatever was there and
/// whatever the new info is (an empty one clears it).
pub proof fn lemma_overwrite_replaces(current: Seq<char>, info: Seq<char>)
    ensures
        combined_info(current, info, RaceInfoPos::Overwrite) == info,
{
}

/// Where there is no race info yet, the new info is all there is, at any position.
pub proof fn lemma_no_current_info(info: Seq<char>, pos: RaceInfoPos)
    ensures
        combined_info(Seq::<char>::empty(), info, pos) == info,
{
}

/// Where there is race info, a prefix puts the new info first and keeps the old
/// at the end, a suffix keeps the old first and puts the new at the end, the
/// two joined by ` | `.
pub proof fn lemma_prefix_and_suffix_keep_current(current: Seq<char>, info: Seq<char>)
    requires
        current.len() > 0,
    ensures
        ({
            let p = combined_info(current, info, RaceInfoPos::Prefix);
            let n = info.len() as int;
            &&& p.len() == n + 3 + current.len()
            &&& p.subrange(0, n) == info
            &&& p[n] == ' ' && p[n + 1] == '|' && p[n + 2] == ' '
            &&& p.subrange(n + 3, p.len() as int) == current
        }),
        ({
            let q = combined_info(current, info, RaceInfoPos::Suffix);
            let m = current.len() as int;
            &&& q.len() == m + 3 + info.len()
            &&& q.subrange(0, m) == current
            &&& q[m] == ' ' && q[m + 1] == '|' && q[m + 2] == ' '
            &&& q.subrange(m + 3, q.len() as int) == info
        }),
{
    reveal_strlit(" | ");
    let n = info.len() as int;
    let m = current.len() as int;
    let p = combined_info(current, info, RaceInfoPos::Prefix);
    assert(p.subrange(0, n) =~= info);
    assert(p.subrange(n + 3, p.len() as int) =~= current);
    let q = combined_info(current, info, RaceInfoPos::Suffix);
    assert(q.subrange(0, m) =~= current);
    assert(q.subrange(m + 3, q.len() as int) =~= info);
}

/// A user may act as a moderator exactly when it has moderation rights; a
/// message without a user may act as neither.
pub proof fn lemma_moderation_rights(
    sender: Option<Seq<char>>,
    can_moderate: bool,
    opened_by: Option<Seq<char>>,
    monitors: Seq<String>,
)
    ensures
        sender_moderates(sender, can_moderate) == (sender is Some && can_moderate),
        sender is None ==> !sender_monitors(sender, can_moderate, opened_by, monitors),
        sender is Some && can_moderate ==> sender_monitors(sender, can_moderate, opened_by, monitors),
{
}

/// A user whose id is among the race's monitors may act as a monitor, whoever
/// opened the race (another user, or no user at all).
pub proof fn lemma_listed_monitor_may_monitor(
    sender: Seq<char>,
    can_moderate: bool,
    opened_by: Option<Seq<char>>,
    monitors: Seq<String>,
    i: int,
)
    requires
        0 <= i < monitors.len(),
        monitors[i]@ == sender,
    ensures
        sender_monitors(Some(sender), can_moderate, opened_by, monitors),
{
}

/// The user who opened the race may act as a monitor of it.
pub proof fn lemma_opener_may_monitor(sender: Seq<char>, can_moderate: bool, monitors: Seq<String>)
    ensures
        sender_monitors(Some(sender), can_moderate, Some(sender), monitors),
{
}

/// A user without moderation rights who neither opened the race nor is among
/// its monitors may not act as a monitor.
pub proof fn lemma_others_may_not_monitor(
    sender: Seq<char>,
    opened_by: Option<Seq<char>>,
    monitors: Seq<String>,
)
    requires
        opened_by != Some(sender),
        forall|i: int| 0 <= i < monitors.len() ==> monitors[i]@ != sender,
    ensures
        !sender_monitors(Some(sender), false, opened_by, monitors),
{
}

} // verus!
