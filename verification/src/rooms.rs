//! Creating and editing race rooms: the forms sent to the server, the paths
//! they go to, and the reading of the location of a new room.
use vstd::prelude::*;
use vstd::string::*;

use crate::text::{decimal, decimal_string, str_eq};

verus! {

/// The text of a boolean form value.
pub open spec fn bool_text(value: bool) -> Seq<char> {
    if value {
        "true"@
    } else {
        "false"@
    }
}

/// The text of a boolean form value.
pub fn form_bool(value: bool) -> (r: &'static str)
    ensures
        r@ == bool_text(value),
{
    if value {
        "true"
    } else {
        "false"
    }
}

/// The fields of a form, as pairs of a key and a value.
pub type Form = Vec<(String, String)>;

/// The view of a form's fields: the characters of each key and value.
pub open spec fn form_view(form: Seq<(String, String)>) -> Seq<(Seq<char>, Seq<char>)> {
    form.map_values(|field: (String, String)| (field.0@, field.1@))
}

/// Adds a field to a form.
pub(crate) fn push_field(form: &mut Form, key: &str, value: String)
    ensures
        form_view(final(form)@) == form_view(old(form)@).push((key@, value@)),
{
    form.push((String::from_str(key), value));
    assert(form_view(form@) =~= form_view(old(form)@).push((key@, value@)));
}

/// Adds a boolean field to a form.
fn push_bool(form: &mut Form, key: &str, value: bool)
    ensures
        form_view(final(form)@) == form_view(old(form)@).push((key@, bool_text(value))),
{
    push_field(form, key, String::from_str(form_bool(value)));
}

/// A field that is present only where it has a value.
pub open spec fn optional_field(key: Seq<char>, value: Option<Seq<char>>) -> Seq<(Seq<char>, Seq<char>)> {
    match value {
        Some(v) => seq![(key, v)],
        None => seq![],
    }
}

/// The text of an optional boolean.
pub open spec fn optional_bool(value: Option<bool>) -> Option<Seq<char>> {
    match value {
        Some(b) => Some(bool_text(b)),
        None => None,
    }
}

/// Adds a boolean field to a form where it has a value.
fn push_optional_bool(form: &mut Form, key: &str, value: Option<bool>)
    ensures
        form_view(final(form)@) == form_view(old(form)@) + optional_field(key@, optional_bool(value)),
{
    match value {
        Some(b) => push_bool(form, key, b),
        None => {
            assert(form_view(old(form)@) + optional_field(key@, optional_bool(value)) =~= form_view(
                old(form)@,
            ));
        },
    }
}

/// The key under which the goal is sent: `custom_goal` for a custom goal,
/// `goal` otherwise.
pub open spec fn goal_key(custom: bool) -> Seq<char> {
    if custom {
        "custom_goal"@
    } else {
        "goal"@
    }
}

fn goal_key_str(custom: bool) -> (r: &'static str)
    ensures
        r@ == goal_key(custom),
{
    if custom {
        "custom_goal"
    } else {
        "goal"
    }
}

/// The settings of a race room to be created.
pub struct StartRace {
    pub goal: String,
    pub goal_is_custom: bool,
    pub team_race: bool,
    pub invitational: bool,
    pub unlisted: bool,
    pub info_user: String,
    pub info_bot: String,
    pub require_even_teams: bool,
    /// Number of seconds the countdown should run for. Must be in `10..=60`.
    pub start_delay: u8,
    /// Maximum number of hours the race is allowed to run for. Must be in `1..=72`.
    pub time_limit: u8,
    pub time_limit_auto_complete: bool,
    pub streaming_required: Option<bool>,
    pub auto_start: bool,
    pub allow_comments: bool,
    pub hide_comments: bool,
    pub allow_prerace_chat: bool,
    pub allow_midrace_chat: bool,
    pub allow_non_entrant_chat: bool,
    /// Number of seconds to hold a message for before displaying it. Doesn't affect race monitors or moderators. Must be in `0..=90`.
    pub chat_message_delay: u8,
}

/// The form that creates a race room with the given settings, with its keys
/// in ascending order.
pub open spec fn start_race_form(r: StartRace) -> Seq<(Seq<char>, Seq<char>)> {
    start_race_head(r) + optional_field("streaming_required"@, optional_bool(r.streaming_required))
        + start_race_tail(r)
}

/// The fields of a room creation form before `streaming_required`.
pub open spec fn start_race_head(r: StartRace) -> Seq<(Seq<char>, Seq<char>)> {
    seq![
        ("allow_comments"@, bool_text(r.allow_comments)),
        ("allow_midrace_chat"@, bool_text(r.allow_midrace_chat)),
        ("allow_non_entrant_chat"@, bool_text(r.allow_non_entrant_chat)),
        ("allow_prerace_chat"@, bool_text(r.allow_prerace_chat)),
        ("auto_start"@, bool_text(r.auto_start)),
        ("chat_message_delay"@, decimal(r.chat_message_delay as nat)),
        (goal_key(r.goal_is_custom), r.goal@),
        ("hide_comments"@, bool_text(r.hide_comments)),
        ("info_bot"@, r.info_bot@),
        ("info_user"@, r.info_user@),
        ("invitational"@, bool_text(r.invitational)),
        ("require_even_teams"@, bool_text(r.require_even_teams)),
        ("start_delay"@, decimal(r.start_delay as nat)),
    ]
}

/// The fields of a room creation form after `streaming_required`.
pub open spec fn start_race_tail(r: StartRace) -> Seq<(Seq<char>, Seq<char>)> {
    seq![
        ("team_race"@, bool_text(r.team_race)),
        ("time_limit"@, decimal(r.time_limit as nat)),
        ("time_limit_auto_complete"@, bool_text(r.time_limit_auto_complete)),
        ("unlisted"@, bool_text(r.unlisted)),
    ]
}

impl StartRace {
    /// The form that creates a race room with these settings.
    #[verifier::rlimit(50)]
    pub fn form(&self) -> (r: Form)
        ensures
            form_view(r@) == start_race_form(*self),
    {
        let mut form: Form = Vec::new();
        push_bool(&mut form, "allow_comments", self.allow_comments);
        push_bool(&mut form, "allow_midrace_chat", self.allow_midrace_chat);
        push_bool(&mut form, "allow_non_entrant_chat", self.allow_non_entrant_chat);
        push_bool(&mut form, "allow_prerace_chat", self.allow_prerace_chat);
        push_bool(&mut form, "auto_start", self.auto_start);
        push_field(&mut form, "chat_message_delay", decimal_string(self.chat_message_delay as u64));
        push_field(&mut form, goal_key_str(self.goal_is_custom), self.goal.clone());
        push_bool(&mut form, "hide_comments", self.hide_comments);
        push_field(&mut form, "info_bot", self.info_bot.clone());
        push_field(&mut form, "info_user", self.info_user.clone());
        push_bool(&mut form, "invitational", self.invitational);
        push_bool(&mut form, "require_even_teams", self.require_even_teams);
        push_field(&mut form, "start_delay", decimal_string(self.start_delay as u64));
        assert(form_view(form@) =~= start_race_head(*self));
        push_optional_bool(&mut form, "streaming_required", self.streaming_required);
        let ghost middle = form_view(form@);
        push_bool(&mut form, "team_race", self.team_race);
        push_field(&mut form, "time_limit", decimal_string(self.time_limit as u64));
        push_bool(&mut form, "time_limit_auto_complete", self.time_limit_auto_complete);
        push_bool(&mut form, "unlisted", self.unlisted);
        assert(form_view(form@) =~= middle + start_race_tail(*self));
        form
    }
}

/// The changes to make to a race room.
pub struct EditRace {
    /// If the race has already started, this must match the current goal.
    pub goal: String,
    /// If the race has already started, this must match the current goal.
    pub goal_is_custom: bool,
    /// Number of seconds the countdown should run for. Must be in `10..=60`.
    /// If the race has already started, this must match the current delay.
    pub start_delay: u8,
    /// Maximum number of hours the race is allowed to run for. Must be in `1..=72`.
    /// If the race has already started, this must match the current limit.
    pub time_limit: u8,
    /// Number of seconds to hold a message for before displaying it. Doesn't affect race monitors or moderators. Must be in `0..=90`.
    pub chat_message_delay: u8,
    pub team_race: Option<bool>,
    pub unlisted: Option<bool>,
    pub info_user: Option<String>,
    pub info_bot: Option<String>,
    pub require_even_teams: Option<bool>,
    pub time_limit_auto_complete: Option<bool>,
    /// If the race has already started, this cannot be changed.
    pub streaming_required: Option<bool>,
    /// If the race has already started, this cannot be changed.
    pub auto_start: Option<bool>,
    pub allow_comments: Option<bool>,
    pub hide_comments: Option<bool>,
    pub allow_prerace_chat: Option<bool>,
    pub allow_midrace_chat: Option<bool>,
    pub allow_non_entrant_chat: Option<bool>,
}

/// The characters of an optional string.
pub open spec fn optional_text(value: Option<String>) -> Option<Seq<char>> {
    match value {
        Some(s) => Some(s@),
        None => None,
    }
}

/// The form that edits a race room: the required settings always, the others
/// where they are given, with the keys in ascending order.
pub open spec fn edit_race_form(r: EditRace) -> Seq<(Seq<char>, Seq<char>)> {
    edit_race_allow(r) + edit_race_goal(r) + edit_race_info(r) + edit_race_rest(r)
}

/// The fields of an edit form up to `auto_start`.
pub open spec fn edit_race_allow(r: EditRace) -> Seq<(Seq<char>, Seq<char>)> {
    optional_field("allow_comments"@, optional_bool(r.allow_comments)) + optional_field(
        "allow_midrace_chat"@,
        optional_bool(r.allow_midrace_chat),
    ) + optional_field("allow_non_entrant_chat"@, optional_bool(r.allow_non_entrant_chat))
        + optional_field("allow_prerace_chat"@, optional_bool(r.allow_prerace_chat))
        + optional_field("auto_start"@, optional_bool(r.auto_start))
}

/// The required fields of an edit form that sort before `hide_comments`.
pub open spec fn edit_race_goal(r: EditRace) -> Seq<(Seq<char>, Seq<char>)> {
    seq![
        ("chat_message_delay"@, decimal(r.chat_message_delay as nat)),
        (goal_key(r.goal_is_custom), r.goal@),
    ]
}

/// The fields of an edit form from `hide_comments` to `start_delay`.
pub open spec fn edit_race_info(r: EditRace) -> Seq<(Seq<char>, Seq<char>)> {
    optional_field("hide_comments"@, optional_bool(r.hide_comments)) + optional_field(
        "info_bot"@,
        optional_text(r.info_bot),
    ) + optional_field("info_user"@, optional_text(r.info_user)) + optional_field(
        "require_even_teams"@,
        optional_bool(r.require_even_teams),
    ) + seq![("start_delay"@, decimal(r.start_delay as nat))]
}

/// The fields of an edit form after `start_delay`.
pub open spec fn edit_race_rest(r: EditRace) -> Seq<(Seq<char>, Seq<char>)> {
    optional_field("streaming_required"@, optional_bool(r.streaming_required)) + optional_field(
        "team_race"@,
        optional_bool(r.team_race),
    ) + seq![("time_limit"@, decimal(r.time_limit as nat))] + optional_field(
        "time_limit_auto_complete"@,
        optional_bool(r.time_limit_auto_complete),
    ) + optional_field("unlisted"@, optional_bool(r.unlisted))
}

/// Adds a text field to a form where it has a value.
fn push_optional_text(form: &mut Form, key: &str, value: &Option<String>)
    ensures
        form_view(final(form)@) == form_view(old(form)@) + optional_field(key@, optional_text(*value)),
{
    match value {
        Some(v) => {
            push_field(form, key, v.clone());
            assert(form_view(old(form)@).push((key@, v@)) =~= form_view(old(form)@)
                + optional_field(key@, optional_text(*value)));
        },
        None => {
            assert(form_view(old(form)@) + optional_field(key@, optional_text(*value)) =~= form_view(
                old(form)@,
            ));
        },
    }
}

impl EditRace {
    /// The form that edits a race room with these changes.
    pub fn form(&self) -> (r: Form)
        ensures
            form_view(r@) == edit_race_form(*self),
    {
        let mut form: Form = Vec::new();
        self.push_allow(&mut form);
        assert(form_view(form@) =~= edit_race_allow(*self));
        self.push_goal(&mut form);
        self.push_info(&mut form);
        self.push_rest(&mut form);
        form
    }

    fn push_allow(&self, form: &mut Form)
        ensures
            form_view(final(form)@) == form_view(old(form)@) + edit_race_allow(*self),
    {
        let ghost start = form_view(form@);
        push_optional_bool(form, "allow_comments", self.allow_comments);
        push_optional_bool(form, "allow_midrace_chat", self.allow_midrace_chat);
        push_optional_bool(form, "allow_non_entrant_chat", self.allow_non_entrant_chat);
        push_optional_bool(form, "allow_prerace_chat", self.allow_prerace_chat);
        push_optional_bool(form, "auto_start", self.auto_start);
        assert(form_view(form@) =~= start + edit_race_allow(*self));
    }

    fn push_goal(&self, form: &mut Form)
        ensures
            form_view(final(form)@) == form_view(old(form)@) + edit_race_goal(*self),
    {
        let ghost start = form_view(form@);
        push_field(form, "chat_message_delay", decimal_string(self.chat_message_delay as u64));
        push_field(form, goal_key_str(self.goal_is_custom), self.goal.clone());
        assert(form_view(form@) =~= start + edit_race_goal(*self));
    }

    fn push_info(&self, form: &mut Form)
        ensures
            form_view(final(form)@) == form_view(old(form)@) + edit_race_info(*self),
    {
        let ghost start = form_view(form@);
        push_optional_bool(form, "hide_comments", self.hide_comments);
        push_optional_text(form, "info_bot", &self.info_bot);
        push_optional_text(form, "info_user", &self.info_user);
        push_optional_bool(form, "require_even_teams", self.require_even_teams);
        push_field(form, "start_delay", decimal_string(self.start_delay as u64));
        assert(form_view(form@) =~= start + edit_race_info(*self));
    }

    fn push_rest(&self, form: &mut Form)
        ensures
            form_view(final(form)@) == form_view(old(form)@) + edit_race_rest(*self),
    {
        let ghost start = form_view(form@);
        push_optional_bool(form, "streaming_required", self.streaming_required);
        push_optional_bool(form, "team_race", self.team_race);
        push_field(form, "time_limit", decimal_string(self.time_limit as u64));
        push_optional_bool(form, "time_limit_auto_complete", self.time_limit_auto_complete);
        push_optional_bool(form, "unlisted", self.unlisted);
        assert(form_view(form@) =~= start + edit_race_rest(*self));
    }
}

/// Why the location of a newly created room could not be read.
#[derive(Debug, Clone, Copy, PartialEq, Eq, Structural)]
pub enum LocationError {
    /// The response gave no location.
    MissingHeader,
    /// The location is not of the form `/<category>/<slug>`.
    Format,
    /// The location names another category than the one the room was created in.
    Category,
}

/// Whether `s` holds no `/` from `from` up to `to`.
pub open spec fn slash_free(s: Seq<char>, from: int, to: int) -> bool {
    forall|i: int| from <= i < to ==> #[trigger] s[i] != '/'
}

/// Whether `location` has the form `/<category>/<slug>`, with the second `/`
/// at `k`, both parts non-empty and free of `/`.
pub open spec fn location_shape(location: Seq<char>, k: int) -> bool {
    &&& location.len() > 0 && location[0] == '/'
    &&& 1 < k < location.len() - 1 && location[k] == '/'
    &&& slash_free(location, 1, k)
    &&& slash_free(location, k + 1, location.len() as int)
}

/// The slug of a newly created room, read from the location the server gave,
/// which must name the category the room was created in.
pub open spec fn room_slug(location: Option<Seq<char>>, category: Seq<char>) -> Result<Seq<char>, LocationError> {
    match location {
        None => Err(LocationError::MissingHeader),
        Some(loc) => slug_in_location(loc, category),
    }
}

/// The slug that a location gives, where it names the category.
pub open spec fn slug_in_location(loc: Seq<char>, category: Seq<char>) -> Result<Seq<char>, LocationError> {
    if exists|k: int| location_shape(loc, k) {
        let k = choose|k: int| location_shape(loc, k);
        if loc.subrange(1, k) == category {
            Ok(loc.subrange(k + 1, loc.len() as int))
        } else {
            Err(LocationError::Category)
        }
    } else {
        Err(LocationError::Format)
    }
}

/// The second `/` of a location is the first one after its start.
proof fn lemma_location_split_unique(location: Seq<char>, k: int, j: int)
    requires
        location_shape(location, k),
        1 <= j < location.len(),
        location[j] == '/',
        slash_free(location, 1, j),
    ensures
        j == k,
{
    if j < k {
        assert(location[j] != '/');
    }
    if k < j {
        assert(location[k] != '/');
    }
}

/// Where the location has its second `/` at `j`, the slug follows it.
proof fn lemma_room_slug_at(location: Seq<char>, category: Seq<char>, j: int)
    requires
        location_shape(location, j),
    ensures
        slug_in_location(location, category) == if location.subrange(1, j) == category {
            Ok::<Seq<char>, LocationError>(location.subrange(j + 1, location.len() as int))
        } else {
            Err(LocationError::Category)
        },
{
    assert(location_shape(location, j));
    let k = choose|k: int| location_shape(location, k);
    lemma_location_split_unique(location, k, j);
    assert(k == j);
}

/// The first `/` in `s` at or after `from`, if any.
fn find_slash(s: &str, n: usize, from: usize) -> (r: Option<usize>)
    requires
        n == s@.len(),
        from <= n,
    ensures
        match r {
            Some(j) => from <= j < n && s@[j as int] == '/' && slash_free(s@, from as int, j as int),
            None => slash_free(s@, from as int, n as int),
        },
{
    let mut i = from;
    while i < n
        invariant
            n == s@.len(),
            from <= i <= n,
            slash_free(s@, from as int, i as int),
        decreases n - i,
    {
        if s.get_char(i) == '/' {
            return Some(i);
        }
        i = i + 1;
    }
    None
}

/// The characters of an optional string slice.
pub open spec fn optional_str(s: Option<&str>) -> Option<Seq<char>> {
    match s {
        Some(t) => Some(t@),
        None => None,
    }
}

/// The slug of a newly created room, read from the location the server gave
/// (`/<category>/<slug>`), which must name the category the room was created in.
pub fn room_slug_from_location(location: Option<&str>, category: &str) -> (r: Result<String, LocationError>)
    ensures
        match r {
            Ok(slug) => room_slug(optional_str(location), category@) == Ok::<Seq<char>, LocationError>(slug@),
            Err(e) => room_slug(optional_str(location), category@) == Err::<Seq<char>, LocationError>(e),
        },
{
    let loc = match location {
        Some(l) => l,
        None => return Err(LocationError::MissingHeader),
    };
    let ghost t = loc@;
    let n = loc.unicode_len();
    if n == 0 || loc.get_char(0) != '/' {
        return Err(LocationError::Format);
    }
    let k = match find_slash(loc, n, 1) {
        Some(k) => k,
        None => {
            proof {
                assert forall|k: int| !location_shape(t, k) by {
                    if location_shape(t, k) {
                        assert(t[k] != '/');
                    }
                }
            }
            return Err(LocationError::Format);
        },
    };
    if k == 1 || k + 1 >= n || find_slash(loc, n, k + 1).is_some() {
        proof {
            assert forall|k2: int| !location_shape(t, k2) by {
                if location_shape(t, k2) {
                    lemma_location_split_unique(t, k2, k as int);
                }
            }
        }
        return Err(LocationError::Format);
    }
    assert(location_shape(t, k as int));
    proof {
        lemma_room_slug_at(t, category@, k as int);
        assert(optional_str(location) == Some(t));
    }
    if !str_eq(loc.substring_char(1, k), category) {
        return Err(LocationError::Category);
    }
    Ok(String::from_str(loc.substring_char(k + 1, n)))
}

/// The path to which the form that creates a room in a category goes:
/// `/o/<category>/startrace`.
pub fn start_race_path(category: &str) -> (r: String)
    ensures
        r@ == "/o/"@ + category@ + "/startrace"@,
{
    String::from_str("/o/").concat(category).concat("/startrace")
}

/// The path to which the form that edits a room goes: `/o/<category>/<slug>/edit`.
pub fn edit_race_path(category: &str, race_slug: &str) -> (r: String)
    ensures
        r@ == "/o/"@ + category@ + "/"@ + race_slug@ + "/edit"@,
{
    String::from_str("/o/").concat(category).concat("/").concat(race_slug).concat("/edit")
}

/// Whether `a` comes strictly before `b` in lexicographic order of characters,
/// which is the order of `str` (UTF-8 bytes compare as their code points do).
pub open spec fn lex_less(a: Seq<char>, b: Seq<char>) -> bool
    decreases a.len(),
{
    if a.len() == 0 {
        b.len() > 0
    } else if b.len() == 0 {
        false
    } else if a[0] != b[0] {
        (a[0] as u32) < (b[0] as u32)
    } else {
        lex_less(a.drop_first(), b.drop_first())
    }
}

/// Whether the keys of a form come in strictly ascending order, as those of a
/// map ordered by key do.
pub open spec fn keys_ascending(form: Seq<(Seq<char>, Seq<char>)>) -> bool {
    forall|i: int| 0 <= i < form.len() - 1 ==> lex_less(#[trigger] form[i].0, form[i + 1].0)
}

/// The key-ordering facts that the form laws rest on.
proof fn lemma_form_key_order()
    ensures
        lex_less("allow_comments"@, "allow_midrace_chat"@),
        lex_less("allow_midrace_chat"@, "allow_non_entrant_chat"@),
        lex_less("allow_non_entrant_chat"@, "allow_prerace_chat"@),
        lex_less("allow_prerace_chat"@, "auto_start"@),
        lex_less("auto_start"@, "chat_message_delay"@),
        lex_less("chat_message_delay"@, "custom_goal"@),
        lex_less("chat_message_delay"@, "goal"@),
        lex_less("custom_goal"@, "hide_comments"@),
        lex_less("goal"@, "hide_comments"@),
        lex_less("hide_comments"@, "info_bot"@),
        lex_less("info_bot"@, "info_user"@),
        lex_less("info_user"@, "invitational"@),
        lex_less("invitational"@, "require_even_teams"@),
        lex_less("info_user"@, "require_even_teams"@),
        lex_less("require_even_teams"@, "start_delay"@),
        lex_less("start_delay"@, "streaming_required"@),
        lex_less("streaming_required"@, "team_race"@),
        lex_less("start_delay"@, "team_race"@),
        lex_less("team_race"@, "time_limit"@),
        lex_less("time_limit"@, "time_limit_auto_complete"@),
        lex_less("time_limit_auto_complete"@, "unlisted"@),
        lex_less("chat_message_delay"@, "hide_comments"@),
        lex_less("auto_start"@, "hide_comments"@),
        lex_less("hide_comments"@, "require_even_teams"@),
        lex_less("info_bot"@, "require_even_teams"@),
        lex_less("hide_comments"@, "info_user"@),
        lex_less("require_even_teams"@, "streaming_required"@),
        lex_less("start_delay"@, "time_limit"@),
        lex_less("streaming_required"@, "time_limit"@),
        lex_less("team_race"@, "time_limit_auto_complete"@),
        lex_less("time_limit"@, "unlisted"@),
        lex_less("team_race"@, "unlisted"@),
        lex_less("streaming_required"@, "time_limit_auto_complete"@),
        lex_less("start_delay"@, "time_limit_auto_complete"@),
        lex_less("start_delay"@, "unlisted"@),
        lex_less("streaming_required"@, "unlisted"@),
        lex_less("allow_comments"@, "allow_non_entrant_chat"@),
        lex_less("allow_comments"@, "allow_prerace_chat"@),
        lex_less("allow_comments"@, "auto_start"@),
        lex_less("allow_midrace_chat"@, "allow_prerace_chat"@),
        lex_less("allow_midrace_chat"@, "auto_start"@),
        lex_less("allow_non_entrant_chat"@, "auto_start"@),
        lex_less("allow_comments"@, "chat_message_delay"@),
        lex_less("allow_midrace_chat"@, "chat_message_delay"@),
        lex_less("allow_non_entrant_chat"@, "chat_message_delay"@),
        lex_less("allow_prerace_chat"@, "chat_message_delay"@),
        lex_less("hide_comments"@, "start_delay"@),
        lex_less("hide_comments"@, "streaming_required"@),
{
    reveal_strlit("allow_comments");
    reveal_strlit("allow_midrace_chat");
    reveal_strlit("allow_non_entrant_chat");
    reveal_strlit("allow_prerace_chat");
    reveal_strlit("auto_start");
    reveal_strlit("chat_message_delay");
    reveal_strlit("custom_goal");
    reveal_strlit("goal");
    reveal_strlit("hide_comments");
    reveal_strlit("info_bot");
    reveal_strlit("info_user");
    reveal_strlit("invitational");
    reveal_strlit("require_even_teams");
    reveal_strlit("start_delay");
    reveal_strlit("streaming_required");
    reveal_strlit("team_race");
    reveal_strlit("time_limit");
    reveal_strlit("time_limit_auto_complete");
    reveal_strlit("unlisted");
    reveal_with_fuel(lex_less, 25);
}

/// The form that creates a room lists its keys in ascending order, as a map
/// ordered by key would, so no key occurs twice.
pub proof fn lemma_start_race_form_ascending(r: StartRace)
    ensures
        keys_ascending(start_race_form(r)),
{
    lemma_form_key_order();
    let f = start_race_form(r);
    assert forall|i: int| 0 <= i < f.len() - 1 implies lex_less(#[trigger] f[i].0, f[i + 1].0) by {
        if r.streaming_required is Some {
            assert(f.len() == 18);
        } else {
            assert(f.len() == 17);
        }
    }
}

/// Whether every key of a form comes strictly before `bound`.
pub open spec fn keys_below(form: Seq<(Seq<char>, Seq<char>)>, bound: Seq<char>) -> bool {
    forall|i: int| 0 <= i < form.len() ==> lex_less(#[trigger] form[i].0, bound)
}

/// Whether every key of a form is `low` or comes after it.
pub open spec fn keys_from(form: Seq<(Seq<char>, Seq<char>)>, low: Seq<char>) -> bool {
    forall|i: int| 0 <= i < form.len() ==> #[trigger] form[i].0 == low || lex_less(low, form[i].0)
}

/// Lexicographic order is transitive.
pub proof fn lemma_lex_less_transitive(a: Seq<char>, b: Seq<char>, c: Seq<char>)
    requires
        lex_less(a, b),
        lex_less(b, c),
    ensures
        lex_less(a, c),
    decreases a.len(),
{
    if a.len() > 0 && a[0] == b[0] && b[0] == c[0] {
        lemma_lex_less_transitive(a.drop_first(), b.drop_first(), c.drop_first());
    }
}

/// Nothing comes strictly before itself.
pub proof fn lemma_lex_less_irreflexive(a: Seq<char>)
    ensures
        !lex_less(a, a),
    decreases a.len(),
{
    if a.len() > 0 {
        lemma_lex_less_irreflexive(a.drop_first());
    }
}

/// A form whose keys ascend holds no key twice.
pub proof fn lemma_ascending_keys_distinct(form: Seq<(Seq<char>, Seq<char>)>, i: int, j: int)
    requires
        keys_ascending(form),
        0 <= i < j < form.len(),
    ensures
        lex_less(form[i].0, form[j].0),
        form[i].0 != form[j].0,
    decreases j - i,
{
    if j > i + 1 {
        lemma_ascending_keys_distinct(form, i, j - 1);
        assert(lex_less(form[j - 1].0, form[j].0));
        lemma_lex_less_transitive(form[i].0, form[j - 1].0, form[j].0);
    } else {
        assert(lex_less(form[i].0, form[i + 1].0));
    }
    lemma_lex_less_irreflexive(form[i].0);
}

/// Appending a field with key `key` (or nothing) to a form whose keys ascend
/// and come before `key` keeps them ascending, and all of them before `next`.
proof fn lemma_extend(
    form: Seq<(Seq<char>, Seq<char>)>,
    field: Seq<(Seq<char>, Seq<char>)>,
    low: Seq<char>,
    key: Seq<char>,
    next: Seq<char>,
)
    requires
        keys_ascending(form),
        keys_below(form, key),
        keys_from(form, low),
        field.len() <= 1,
        field.len() == 1 ==> field[0].0 == key,
        key == low || lex_less(low, key),
        lex_less(key, next),
    ensures
        keys_ascending(form + field),
        keys_below(form + field, next),
        keys_from(form + field, low),
{
    let joined = form + field;
    assert forall|i: int| 0 <= i < joined.len() - 1 implies lex_less(#[trigger] joined[i].0, joined[i + 1].0) by {
        if i + 1 < form.len() {
            assert(joined[i] == form[i] && joined[i + 1] == form[i + 1]);
        } else {
            assert(joined[i] == form[i]);
            assert(joined[i + 1] == field[0]);
        }
    }
    assert forall|i: int| 0 <= i < joined.len() implies lex_less(#[trigger] joined[i].0, next) by {
        if i < form.len() {
            assert(joined[i] == form[i]);
            lemma_lex_less_transitive(form[i].0, key, next);
        } else {
            assert(joined[i] == field[0]);
        }
    }
    assert forall|i: int| 0 <= i < joined.len() implies #[trigger] joined[i].0 == low || lex_less(low, joined[i].0) by {
        if i < form.len() {
            assert(joined[i] == form[i]);
        } else {
            assert(joined[i] == field[0]);
        }
    }
}

/// Joining two forms with ascending keys, the first's before `mid` and the
/// second's from `mid` on, gives ascending keys.
proof fn lemma_join(
    first: Seq<(Seq<char>, Seq<char>)>,
    second: Seq<(Seq<char>, Seq<char>)>,
    low: Seq<char>,
    mid: Seq<char>,
    high: Seq<char>,
)
    requires
        keys_ascending(first),
        keys_from(first, low),
        keys_below(first, mid),
        keys_ascending(second),
        keys_from(second, mid),
        keys_below(second, high),
        low == mid || lex_less(low, mid),
        lex_less(mid, high),
    ensures
        keys_ascending(first + second),
        keys_from(first + second, low),
        keys_below(first + second, high),
{
    let joined = first + second;
    assert forall|i: int| 0 <= i < joined.len() - 1 implies lex_less(#[trigger] joined[i].0, joined[i + 1].0) by {
        if i + 1 < first.len() {
            assert(joined[i] == first[i] && joined[i + 1] == first[i + 1]);
        } else if i >= first.len() {
            assert(joined[i] == second[i - first.len()]);
            assert(joined[i + 1] == second[i + 1 - first.len()]);
        } else {
            assert(joined[i] == first[i]);
            assert(joined[i + 1] == second[0]);
            if second[0].0 != mid {
                lemma_lex_less_transitive(first[i].0, mid, second[0].0);
            }
        }
    }
    assert forall|i: int| 0 <= i < joined.len() implies lex_less(#[trigger] joined[i].0, high) by {
        if i < first.len() {
            assert(joined[i] == first[i]);
            lemma_lex_less_transitive(first[i].0, mid, high);
        } else {
            assert(joined[i] == second[i - first.len()]);
        }
    }
    assert forall|i: int| 0 <= i < joined.len() implies #[trigger] joined[i].0 == low || lex_less(low, joined[i].0) by {
        if i < first.len() {
            assert(joined[i] == first[i]);
        } else {
            assert(joined[i] == second[i - first.len()]);
            let k = second[i - first.len()].0;
            if low != mid && k != mid {
                lemma_lex_less_transitive(low, mid, k);
            }
        }
    }
}

/// The empty form.
pub open spec fn no_fields() -> Seq<(Seq<char>, Seq<char>)> {
    seq![]
}

/// The form that edits a room lists its keys in ascending order, as a map
/// ordered by key would, so no key occurs twice, whichever settings it holds.
pub proof fn lemma_edit_race_form_ascending(r: EditRace)
    ensures
        keys_ascending(edit_race_form(r)),
{
    lemma_form_key_order();
    let e = no_fields();
    // the settings up to `auto_start`
    let c1 = optional_field("allow_comments"@, optional_bool(r.allow_comments));
    let c2 = optional_field("allow_midrace_chat"@, optional_bool(r.allow_midrace_chat));
    let c3 = optional_field("allow_non_entrant_chat"@, optional_bool(r.allow_non_entrant_chat));
    let c4 = optional_field("allow_prerace_chat"@, optional_bool(r.allow_prerace_chat));
    let c5 = optional_field("auto_start"@, optional_bool(r.auto_start));
    let lo = "allow_comments"@;
    lemma_extend(e, c1, lo, "allow_comments"@, "allow_midrace_chat"@);
    assert(e + c1 =~= c1);
    lemma_extend(c1, c2, lo, "allow_midrace_chat"@, "allow_non_entrant_chat"@);
    lemma_extend(c1 + c2, c3, lo, "allow_non_entrant_chat"@, "allow_prerace_chat"@);
    lemma_extend(c1 + c2 + c3, c4, lo, "allow_prerace_chat"@, "auto_start"@);
    lemma_extend(c1 + c2 + c3 + c4, c5, lo, "auto_start"@, "chat_message_delay"@);
    let allow = edit_race_allow(r);
    assert(allow == c1 + c2 + c3 + c4 + c5);
    // the goal
    let goal = edit_race_goal(r);
    let g1 = seq![("chat_message_delay"@, decimal(r.chat_message_delay as nat))];
    let g2 = seq![(goal_key(r.goal_is_custom), r.goal@)];
    lemma_extend(e, g1, "chat_message_delay"@, "chat_message_delay"@, goal_key(r.goal_is_custom));
    assert(e + g1 =~= g1);
    lemma_extend(g1, g2, "chat_message_delay"@, goal_key(r.goal_is_custom), "hide_comments"@);
    assert(goal =~= g1 + g2);
    lemma_join(allow, goal, lo, "chat_message_delay"@, "hide_comments"@);
    // the settings from `hide_comments` to `start_delay`
    let lo2 = "hide_comments"@;
    let i1 = optional_field("hide_comments"@, optional_bool(r.hide_comments));
    let i2 = optional_field("info_bot"@, optional_text(r.info_bot));
    let i3 = optional_field("info_user"@, optional_text(r.info_user));
    let i4 = optional_field("require_even_teams"@, optional_bool(r.require_even_teams));
    let i5 = seq![("start_delay"@, decimal(r.start_delay as nat))];
    lemma_extend(e, i1, lo2, "hide_comments"@, "info_bot"@);
    assert(e + i1 =~= i1);
    lemma_extend(i1, i2, lo2, "info_bot"@, "info_user"@);
    lemma_extend(i1 + i2, i3, lo2, "info_user"@, "require_even_teams"@);
    lemma_extend(i1 + i2 + i3, i4, lo2, "require_even_teams"@, "start_delay"@);
    lemma_extend(i1 + i2 + i3 + i4, i5, lo2, "start_delay"@, "streaming_required"@);
    let info = edit_race_info(r);
    assert(info == i1 + i2 + i3 + i4 + i5);
    lemma_lex_less_transitive(lo, "chat_message_delay"@, "hide_comments"@);
    lemma_join(allow + goal, info, lo, "hide_comments"@, "streaming_required"@);
    // the settings after `start_delay`
    let lo3 = "streaming_required"@;
    let r1 = optional_field("streaming_required"@, optional_bool(r.streaming_required));
    let r2 = optional_field("team_race"@, optional_bool(r.team_race));
    let r3 = seq![("time_limit"@, decimal(r.time_limit as nat))];
    let r4 = optional_field("time_limit_auto_complete"@, optional_bool(r.time_limit_auto_complete));
    let r5 = optional_field("unlisted"@, optional_bool(r.unlisted));
    let end = "unlisted"@ + seq!['_'];
    assert(lex_less("unlisted"@, end)) by {
        reveal_strlit("unlisted");
        reveal_with_fuel(lex_less, 10);
    }
    lemma_extend(e, r1, lo3, "streaming_required"@, "team_race"@);
    assert(e + r1 =~= r1);
    lemma_extend(r1, r2, lo3, "team_race"@, "time_limit"@);
    lemma_extend(r1 + r2, r3, lo3, "time_limit"@, "time_limit_auto_complete"@);
    lemma_extend(r1 + r2 + r3, r4, lo3, "time_limit_auto_complete"@, "unlisted"@);
    lemma_extend(r1 + r2 + r3 + r4, r5, lo3, "unlisted"@, end);
    let rest = edit_race_rest(r);
    assert(rest == r1 + r2 + r3 + r4 + r5);
    lemma_lex_less_transitive("streaming_required"@, "unlisted"@, end);
    lemma_lex_less_transitive(lo, "hide_comments"@, "streaming_required"@);
    lemma_join(allow + goal + info, rest, lo, "streaming_required"@, end);
}

/// The location `/<category>/<slug>` of a room, with both parts non-empty and
/// free of `/`, gives back the slug when read for that category, and is refused
/// for any other category.
pub proof fn lemma_room_slug_round_trip(category: Seq<char>, slug: Seq<char>, other: Seq<char>)
    requires
        category.len() > 0,
        slug.len() > 0,
        slash_free(category, 0, category.len() as int),
        slash_free(slug, 0, slug.len() as int),
        other != category,
    ensures
        room_slug(Some(seq!['/'] + category + seq!['/'] + slug), category) == Ok::<Seq<char>, LocationError>(slug),
        room_slug(Some(seq!['/'] + category + seq!['/'] + slug), other) == Err::<Seq<char>, LocationError>(
            LocationError::Category,
        ),
{
    let loc = seq!['/'] + category + seq!['/'] + slug;
    let k: int = category.len() as int + 1;
    assert forall|i: int| 1 <= i < k implies #[trigger] loc[i] != '/' by {
        assert(loc[i] == category[i - 1]);
    }
    assert forall|i: int| k + 1 <= i < loc.len() implies #[trigger] loc[i] != '/' by {
        assert(loc[i] == slug[i - k - 1]);
    }
    assert(location_shape(loc, k));
    lemma_room_slug_at(loc, category, k);
    lemma_room_slug_at(loc, other, k);
    assert(loc.subrange(1, k) =~= category);
    assert(loc.subrange(k + 1, loc.len() as int) =~= slug);
}

/// The value a form sends under `key`: that of the first field with this key,
/// or `None` where no field has it. (A form whose keys ascend holds each key at
/// most once, so this is the one value sent under the key.)
pub open spec fn form_lookup(form: Seq<(Seq<char>, Seq<char>)>, key: Seq<char>) -> Option<Seq<char>>
    decreases form.len(),
{
    if form.len() == 0 {
        None
    } else if form[0].0 == key {
        Some(form[0].1)
    } else {
        form_lookup(form.drop_first(), key)
    }
}

/// Looking a key up in two forms one after the other finds it in the first,
/// or else in the second.
pub proof fn lemma_lookup_concat(
    a: Seq<(Seq<char>, Seq<char>)>,
    b: Seq<(Seq<char>, Seq<char>)>,
    key: Seq<char>,
)
    ensures
        form_lookup(a + b, key) == if form_lookup(a, key) is Some {
            form_lookup(a, key)
        } else {
            form_lookup(b, key)
        },
    decreases a.len(),
{
    if a.len() == 0 {
        assert(a + b =~= b);
    } else {
        assert((a + b).drop_first() =~= a.drop_first() + b);
        assert((a + b)[0] == a[0]);
        lemma_lookup_concat(a.drop_first(), b, key);
    }
}

/// A form of one field sends its value under its key and nothing else.
proof fn lemma_lookup_single(field: (Seq<char>, Seq<char>), key: Seq<char>)
    ensures
        form_lookup(seq![field], key) == if field.0 == key {
            Some(field.1)
        } else {
            None
        },
{
    assert(seq![field].drop_first() =~= Seq::<(Seq<char>, Seq<char>)>::empty());
    assert(form_lookup(Seq::<(Seq<char>, Seq<char>)>::empty(), key) is None);
}

/// An optional field sends its value, where it has one, under its key and nothing else.
proof fn lemma_lookup_optional(k0: Seq<char>, value: Option<Seq<char>>, key: Seq<char>)
    ensures
        form_lookup(optional_field(k0, value), key) == if k0 == key {
            value
        } else {
            None
        },
{
    match value {
        Some(v) => lemma_lookup_single((k0, v), key),
        None => {},
    }
}

/// The length and two characters of a key, which tell the setting keys apart.
spec fn key_signature(k: Seq<char>) -> (nat, char, char) {
    (k.len(), k[0], if k.len() > 6 {
        k[6]
    } else {
        ' '
    })
}

/// The signatures of the setting keys, all different, so the keys differ.
proof fn lemma_key_signatures()
    ensures
        key_signature("allow_comments"@) == (14nat, 'a', 'c'),
        key_signature("allow_midrace_chat"@) == (18nat, 'a', 'm'),
        key_signature("allow_non_entrant_chat"@) == (22nat, 'a', 'n'),
        key_signature("allow_prerace_chat"@) == (18nat, 'a', 'p'),
        key_signature("auto_start"@) == (10nat, 'a', 't'),
        key_signature("chat_message_delay"@) == (18nat, 'c', 'e'),
        key_signature("custom_goal"@) == (11nat, 'c', '_'),
        key_signature("goal"@) == (4nat, 'g', ' '),
        key_signature("hide_comments"@) == (13nat, 'h', 'o'),
        key_signature("info_bot"@) == (8nat, 'i', 'o'),
        key_signature("info_user"@) == (9nat, 'i', 's'),
        key_signature("invitational"@) == (12nat, 'i', 't'),
        key_signature("require_even_teams"@) == (18nat, 'r', 'e'),
        key_signature("start_delay"@) == (11nat, 's', 'd'),
        key_signature("streaming_required"@) == (18nat, 's', 'i'),
        key_signature("team_race"@) == (9nat, 't', 'a'),
        key_signature("time_limit"@) == (10nat, 't', 'i'),
        key_signature("time_limit_auto_complete"@) == (24nat, 't', 'i'),
        key_signature("unlisted"@) == (8nat, 'u', 'e'),
{
    reveal_strlit("allow_comments");
    reveal_strlit("allow_midrace_chat");
    reveal_strlit("allow_non_entrant_chat");
    reveal_strlit("allow_prerace_chat");
    reveal_strlit("auto_start");
    reveal_strlit("chat_message_delay");
    reveal_strlit("custom_goal");
    reveal_strlit("goal");
    reveal_strlit("hide_comments");
    reveal_strlit("info_bot");
    reveal_strlit("info_user");
    reveal_strlit("invitational");
    reveal_strlit("require_even_teams");
    reveal_strlit("start_delay");
    reveal_strlit("streaming_required");
    reveal_strlit("team_race");
    reveal_strlit("time_limit");
    reveal_strlit("time_limit_auto_complete");
    reveal_strlit("unlisted");
}

/// Whether `k` is the key of one of the settings of a race room.
pub open spec fn is_room_setting_key(k: Seq<char>) -> bool {
    k == "allow_comments"@
        || k == "allow_midrace_chat"@
        || k == "allow_non_entrant_chat"@
        || k == "allow_prerace_chat"@
        || k == "auto_start"@
        || k == "chat_message_delay"@
        || k == "custom_goal"@
        || k == "goal"@
        || k == "hide_comments"@
        || k == "info_bot"@
        || k == "info_user"@
        || k == "invitational"@
        || k == "require_even_teams"@
        || k == "start_delay"@
        || k == "streaming_required"@
        || k == "team_race"@
        || k == "time_limit"@
        || k == "time_limit_auto_complete"@
        || k == "unlisted"@
}

/// The value the form that creates a room sends under `key`, setting by setting.
proof fn lemma_start_race_lookup(r: StartRace, key: Seq<char>)
    ensures
        form_lookup(start_race_form(r), key) == if key == "allow_comments"@ {
            Some(bool_text(r.allow_comments))
        } else if key == "allow_midrace_chat"@ {
            Some(bool_text(r.allow_midrace_chat))
        } else if key == "allow_non_entrant_chat"@ {
            Some(bool_text(r.allow_non_entrant_chat))
        } else if key == "allow_prerace_chat"@ {
            Some(bool_text(r.allow_prerace_chat))
        } else if key == "auto_start"@ {
            Some(bool_text(r.auto_start))
        } else if key == "chat_message_delay"@ {
            Some(decimal(r.chat_message_delay as nat))
        } else if key == goal_key(r.goal_is_custom) {
            Some(r.goal@)
        } else if key == "hide_comments"@ {
            Some(bool_text(r.hide_comments))
        } else if key == "info_bot"@ {
            Some(r.info_bot@)
        } else if key == "info_user"@ {
            Some(r.info_user@)
        } else if key == "invitational"@ {
            Some(bool_text(r.invitational))
        } else if key == "require_even_teams"@ {
            Some(bool_text(r.require_even_teams))
        } else if key == "start_delay"@ {
            Some(decimal(r.start_delay as nat))
        } else if key == "streaming_required"@ {
            optional_bool(r.streaming_required)
        } else if key == "team_race"@ {
            Some(bool_text(r.team_race))
        } else if key == "time_limit"@ {
            Some(decimal(r.time_limit as nat))
        } else if key == "time_limit_auto_complete"@ {
            Some(bool_text(r.time_limit_auto_complete))
        } else if key == "unlisted"@ {
            Some(bool_text(r.unlisted))
        } else {
            None
        },
{
    lemma_key_signatures();
    let h = start_race_head(r);
    let o = optional_field("streaming_required"@, optional_bool(r.streaming_required));
    let t = start_race_tail(r);
    lemma_lookup_concat(h + o, t, key);
    lemma_lookup_concat(h, o, key);
    lemma_lookup_optional("streaming_required"@, optional_bool(r.streaming_required), key);
    let a0 = seq![h[0]];
    lemma_lookup_single(h[0], key);
    let a1 = seq![h[1]];
    lemma_lookup_single(h[1], key);
    let a2 = seq![h[2]];
    lemma_lookup_single(h[2], key);
    let a3 = seq![h[3]];
    lemma_lookup_single(h[3], key);
    let a4 = seq![h[4]];
    lemma_lookup_single(h[4], key);
    let a5 = seq![h[5]];
    lemma_lookup_single(h[5], key);
    let a6 = seq![h[6]];
    lemma_lookup_single(h[6], key);
    let a7 = seq![h[7]];
    lemma_lookup_single(h[7], key);
    let a8 = seq![h[8]];
    lemma_lookup_single(h[8], key);
    let a9 = seq![h[9]];
    lemma_lookup_single(h[9], key);
    let a10 = seq![h[10]];
    lemma_lookup_single(h[10], key);
    let a11 = seq![h[11]];
    lemma_lookup_single(h[11], key);
    let a12 = seq![h[12]];
    lemma_lookup_single(h[12], key);
    let ap0 = a0;
    let ap1 = ap0 + a1;
    lemma_lookup_concat(ap0, a1, key);
    let ap2 = ap1 + a2;
    lemma_lookup_concat(ap1, a2, key);
    let ap3 = ap2 + a3;
    lemma_lookup_concat(ap2, a3, key);
    let ap4 = ap3 + a4;
    lemma_lookup_concat(ap3, a4, key);
    let ap5 = ap4 + a5;
    lemma_lookup_concat(ap4, a5, key);
    let ap6 = ap5 + a6;
    lemma_lookup_concat(ap5, a6, key);
    let ap7 = ap6 + a7;
    lemma_lookup_concat(ap6, a7, key);
    let ap8 = ap7 + a8;
    lemma_lookup_concat(ap7, a8, key);
    let ap9 = ap8 + a9;
    lemma_lookup_concat(ap8, a9, key);
    let ap10 = ap9 + a10;
    lemma_lookup_concat(ap9, a10, key);
    let ap11 = ap10 + a11;
    lemma_lookup_concat(ap10, a11, key);
    let ap12 = ap11 + a12;
    lemma_lookup_concat(ap11, a12, key);
    assert(h =~= ap12);
    let b0 = seq![t[0]];
    lemma_lookup_single(t[0], key);
    let b1 = seq![t[1]];
    lemma_lookup_single(t[1], key);
    let b2 = seq![t[2]];
    lemma_lookup_single(t[2], key);
    let b3 = seq![t[3]];
    lemma_lookup_single(t[3], key);
    let bp0 = b0;
    let bp1 = bp0 + b1;
    lemma_lookup_concat(bp0, b1, key);
    let bp2 = bp1 + b2;
    lemma_lookup_concat(bp1, b2, key);
    let bp3 = bp2 + b3;
    lemma_lookup_concat(bp2, b3, key);
    assert(t =~= bp3);
}

/// The form that creates a room sends, under the key of each setting, the text
/// of that same setting: `true` or `false` for a flag, the decimal number for a
/// count, the text itself for a goal or an info; the goal goes under
/// `custom_goal` or `goal` as it is custom or not, `streaming_required` only
/// where it is given, and nothing goes under any other key.
pub proof fn lemma_start_race_form_fields(r: StartRace)
    ensures
        form_lookup(start_race_form(r), "allow_comments"@) == Some(bool_text(r.allow_comments)),
        form_lookup(start_race_form(r), "allow_midrace_chat"@) == Some(bool_text(r.allow_midrace_chat)),
        form_lookup(start_race_form(r), "allow_non_entrant_chat"@) == Some(bool_text(r.allow_non_entrant_chat)),
        form_lookup(start_race_form(r), "allow_prerace_chat"@) == Some(bool_text(r.allow_prerace_chat)),
        form_lookup(start_race_form(r), "auto_start"@) == Some(bool_text(r.auto_start)),
        form_lookup(start_race_form(r), "chat_message_delay"@) == Some(decimal(r.chat_message_delay as nat)),
        form_lookup(start_race_form(r), "hide_comments"@) == Some(bool_text(r.hide_comments)),
        form_lookup(start_race_form(r), "info_bot"@) == Some(r.info_bot@),
        form_lookup(start_race_form(r), "info_user"@) == Some(r.info_user@),
        form_lookup(start_race_form(r), "invitational"@) == Some(bool_text(r.invitational)),
        form_lookup(start_race_form(r), "require_even_teams"@) == Some(bool_text(r.require_even_teams)),
        form_lookup(start_race_form(r), "start_delay"@) == Some(decimal(r.start_delay as nat)),
        form_lookup(start_race_form(r), "streaming_required"@) == (match r.streaming_required {
            Some(b) => Some(bool_text(b)),
            None => None,
        }),
        form_lookup(start_race_form(r), "team_race"@) == Some(bool_text(r.team_race)),
        form_lookup(start_race_form(r), "time_limit"@) == Some(decimal(r.time_limit as nat)),
        form_lookup(start_race_form(r), "time_limit_auto_complete"@) == Some(bool_text(r.time_limit_auto_complete)),
        form_lookup(start_race_form(r), "unlisted"@) == Some(bool_text(r.unlisted)),
        form_lookup(start_race_form(r), "custom_goal"@) == (if r.goal_is_custom {
            Some(r.goal@)
        } else {
            None
        }),
        form_lookup(start_race_form(r), "goal"@) == (if r.goal_is_custom {
            None
        } else {
            Some(r.goal@)
        }),
        forall|k: Seq<char>| !is_room_setting_key(k) ==> form_lookup(start_race_form(r), k) is None,
{
    lemma_key_signatures();
    lemma_start_race_lookup(r, "allow_comments"@);
    lemma_start_race_lookup(r, "allow_midrace_chat"@);
    lemma_start_race_lookup(r, "allow_non_entrant_chat"@);
    lemma_start_race_lookup(r, "allow_prerace_chat"@);
    lemma_start_race_lookup(r, "auto_start"@);
    lemma_start_race_lookup(r, "chat_message_delay"@);
    lemma_start_race_lookup(r, "custom_goal"@);
    lemma_start_race_lookup(r, "goal"@);
    lemma_start_race_lookup(r, "hide_comments"@);
    lemma_start_race_lookup(r, "info_bot"@);
    lemma_start_race_lookup(r, "info_user"@);
    lemma_start_race_lookup(r, "invitational"@);
    lemma_start_race_lookup(r, "require_even_teams"@);
    lemma_start_race_lookup(r, "start_delay"@);
    lemma_start_race_lookup(r, "streaming_required"@);
    lemma_start_race_lookup(r, "team_race"@);
    lemma_start_race_lookup(r, "time_limit"@);
    lemma_start_race_lookup(r, "time_limit_auto_complete"@);
    lemma_start_race_lookup(r, "unlisted"@);
    assert forall|k: Seq<char>| !is_room_setting_key(k) implies form_lookup(start_race_form(r), k) is None by {
        lemma_start_race_lookup(r, k);
    }
}

/// The value the form that edits a room sends under `key`, setting by setting.
proof fn lemma_edit_race_lookup(r: EditRace, key: Seq<char>)
    ensures
        form_lookup(edit_race_form(r), key) == if key == "allow_comments"@ {
            optional_bool(r.allow_comments)
        } else if key == "allow_midrace_chat"@ {
            optional_bool(r.allow_midrace_chat)
        } else if key == "allow_non_entrant_chat"@ {
            optional_bool(r.allow_non_entrant_chat)
        } else if key == "allow_prerace_chat"@ {
            optional_bool(r.allow_prerace_chat)
        } else if key == "auto_start"@ {
            optional_bool(r.auto_start)
        } else if key == "chat_message_delay"@ {
            Some(decimal(r.chat_message_delay as nat))
        } else if key == goal_key(r.goal_is_custom) {
            Some(r.goal@)
        } else if key == "hide_comments"@ {
            optional_bool(r.hide_comments)
        } else if key == "info_bot"@ {
            optional_text(r.info_bot)
        } else if key == "info_user"@ {
            optional_text(r.info_user)
        } else if key == "require_even_teams"@ {
            optional_bool(r.require_even_teams)
        } else if key == "start_delay"@ {
            Some(decimal(r.start_delay as nat))
        } else if key == "streaming_required"@ {
            optional_bool(r.streaming_required)
        } else if key == "team_race"@ {
            optional_bool(r.team_race)
        } else if key == "time_limit"@ {
            Some(decimal(r.time_limit as nat))
        } else if key == "time_limit_auto_complete"@ {
            optional_bool(r.time_limit_auto_complete)
        } else if key == "unlisted"@ {
            optional_bool(r.unlisted)
        } else {
            None
        },
{
    lemma_key_signatures();
    let allow = edit_race_allow(r);
    let goal = edit_race_goal(r);
    let info = edit_race_info(r);
    let rest = edit_race_rest(r);
    lemma_lookup_concat(allow + goal + info, rest, key);
    lemma_lookup_concat(allow + goal, info, key);
    lemma_lookup_concat(allow, goal, key);
    let c0 = optional_field("allow_comments"@, optional_bool(r.allow_comments));
    lemma_lookup_optional("allow_comments"@, optional_bool(r.allow_comments), key);
    let c1 = optional_field("allow_midrace_chat"@, optional_bool(r.allow_midrace_chat));
    lemma_lookup_optional("allow_midrace_chat"@, optional_bool(r.allow_midrace_chat), key);
    let c2 = optional_field("allow_non_entrant_chat"@, optional_bool(r.allow_non_entrant_chat));
    lemma_lookup_optional("allow_non_entrant_chat"@, optional_bool(r.allow_non_entrant_chat), key);
    let c3 = optional_field("allow_prerace_chat"@, optional_bool(r.allow_prerace_chat));
    lemma_lookup_optional("allow_prerace_chat"@, optional_bool(r.allow_prerace_chat), key);
    let c4 = optional_field("auto_start"@, optional_bool(r.auto_start));
    lemma_lookup_optional("auto_start"@, optional_bool(r.auto_start), key);
    lemma_lookup_concat(c0, c1, key);
    lemma_lookup_concat(c0 + c1, c2, key);
    lemma_lookup_concat(c0 + c1 + c2, c3, key);
    lemma_lookup_concat(c0 + c1 + c2 + c3, c4, key);
    let g0 = ("chat_message_delay"@, decimal(r.chat_message_delay as nat));
    let g1 = (goal_key(r.goal_is_custom), r.goal@);
    assert(goal =~= seq![g0] + seq![g1]);
    lemma_lookup_concat(seq![g0], seq![g1], key);
    lemma_lookup_single(g0, key);
    lemma_lookup_single(g1, key);
    let d0 = optional_field("hide_comments"@, optional_bool(r.hide_comments));
    lemma_lookup_optional("hide_comments"@, optional_bool(r.hide_comments), key);
    let d1 = optional_field("info_bot"@, optional_text(r.info_bot));
    lemma_lookup_optional("info_bot"@, optional_text(r.info_bot), key);
    let d2 = optional_field("info_user"@, optional_text(r.info_user));
    lemma_lookup_optional("info_user"@, optional_text(r.info_user), key);
    let d3 = optional_field("require_even_teams"@, optional_bool(r.require_even_teams));
    lemma_lookup_optional("require_even_teams"@, optional_bool(r.require_even_teams), key);
    let d4 = ("start_delay"@, decimal(r.start_delay as nat));
    lemma_lookup_single(d4, key);
    assert(info =~= d0 + d1 + d2 + d3 + seq![d4]);
    lemma_lookup_concat(d0, d1, key);
    lemma_lookup_concat(d0 + d1, d2, key);
    lemma_lookup_concat(d0 + d1 + d2, d3, key);
    lemma_lookup_concat(d0 + d1 + d2 + d3, seq![d4], key);
    let e0 = optional_field("streaming_required"@, optional_bool(r.streaming_required));
    lemma_lookup_optional("streaming_required"@, optional_bool(r.streaming_required), key);
    let e1 = optional_field("team_race"@, optional_bool(r.team_race));
    lemma_lookup_optional("team_race"@, optional_bool(r.team_race), key);
    let e2 = ("time_limit"@, decimal(r.time_limit as nat));
    lemma_lookup_single(e2, key);
    let e3 = optional_field("time_limit_auto_complete"@, optional_bool(r.time_limit_auto_complete));
    lemma_lookup_optional("time_limit_auto_complete"@, optional_bool(r.time_limit_auto_complete), key);
    let e4 = optional_field("unlisted"@, optional_bool(r.unlisted));
    lemma_lookup_optional("unlisted"@, optional_bool(r.unlisted), key);
    assert(rest =~= e0 + e1 + seq![e2] + e3 + e4);
    lemma_lookup_concat(e0, e1, key);
    lemma_lookup_concat(e0 + e1, seq![e2], key);
    lemma_lookup_concat(e0 + e1 + seq![e2], e3, key);
    lemma_lookup_concat(e0 + e1 + seq![e2] + e3, e4, key);
}

/// The form that edits a room sends each optional setting exactly when it is
/// given, under its own key and with its own value; the goal (under
/// `custom_goal` or `goal`), the start delay, the time limit and the chat
/// message delay always; and nothing under any other key.
pub proof fn lemma_edit_race_form_fields(r: EditRace)
    ensures
        form_lookup(edit_race_form(r), "allow_comments"@) == (match r.allow_comments {
            Some(b) => Some(bool_text(b)),
            None => None,
        }),
        form_lookup(edit_race_form(r), "allow_midrace_chat"@) == (match r.allow_midrace_chat {
            Some(b) => Some(bool_text(b)),
            None => None,
        }),
        form_lookup(edit_race_form(r), "allow_non_entrant_chat"@) == (match r.allow_non_entrant_chat {
            Some(b) => Some(bool_text(b)),
            None => None,
        }),
        form_lookup(edit_race_form(r), "allow_prerace_chat"@) == (match r.allow_prerace_chat {
            Some(b) => Some(bool_text(b)),
            None => None,
        }),
        form_lookup(edit_race_form(r), "auto_start"@) == (match r.auto_start {
            Some(b) => Some(bool_text(b)),
            None => None,
        }),
        form_lookup(edit_race_form(r), "hide_comments"@) == (match r.hide_comments {
            Some(b) => Some(bool_text(b)),
            None => None,
        }),
        form_lookup(edit_race_form(r), "require_even_teams"@) == (match r.require_even_teams {
            Some(b) => Some(bool_text(b)),
            None => None,
        }),
        form_lookup(edit_race_form(r), "streaming_required"@) == (match r.streaming_required {
            Some(b) => Some(bool_text(b)),
            None => None,
        }),
        form_lookup(edit_race_form(r), "team_race"@) == (match r.team_race {
            Some(b) => Some(bool_text(b)),
            None => None,
        }),
        form_lookup(edit_race_form(r), "time_limit_auto_complete"@) == (match r.time_limit_auto_complete {
            Some(b) => Some(bool_text(b)),
            None => None,
        }),
        form_lookup(edit_race_form(r), "unlisted"@) == (match r.unlisted {
            Some(b) => Some(bool_text(b)),
            None => None,
        }),
        form_lookup(edit_race_form(r), "info_bot"@) == (match r.info_bot {
            Some(t) => Some(t@),
            None => None,
        }),
        form_lookup(edit_race_form(r), "info_user"@) == (match r.info_user {
            Some(t) => Some(t@),
            None => None,
        }),
        form_lookup(edit_race_form(r), "chat_message_delay"@) == Some(decimal(r.chat_message_delay as nat)),
        form_lookup(edit_race_form(r), "start_delay"@) == Some(decimal(r.start_delay as nat)),
        form_lookup(edit_race_form(r), "time_limit"@) == Some(decimal(r.time_limit as nat)),
        form_lookup(edit_race_form(r), "custom_goal"@) == (if r.goal_is_custom {
            Some(r.goal@)
        } else {
            None
        }),
        form_lookup(edit_race_form(r), "goal"@) == (if r.goal_is_custom {
            None
        } else {
            Some(r.goal@)
        }),
        form_lookup(edit_race_form(r), "invitational"@) is None,
        forall|k: Seq<char>| !is_room_setting_key(k) ==> form_lookup(edit_race_form(r), k) is None,
{
    lemma_key_signatures();
    lemma_edit_race_lookup(r, "allow_comments"@);
    lemma_edit_race_lookup(r, "allow_midrace_chat"@);
    lemma_edit_race_lookup(r, "allow_non_entrant_chat"@);
    lemma_edit_race_lookup(r, "allow_prerace_chat"@);
    lemma_edit_race_lookup(r, "auto_start"@);
    lemma_edit_race_lookup(r, "chat_message_delay"@);
    lemma_edit_race_lookup(r, "custom_goal"@);
    lemma_edit_race_lookup(r, "goal"@);
    lemma_edit_race_lookup(r, "hide_comments"@);
    lemma_edit_race_lookup(r, "info_bot"@);
    lemma_edit_race_lookup(r, "info_user"@);
    lemma_edit_race_lookup(r, "invitational"@);
    lemma_edit_race_lookup(r, "require_even_teams"@);
    lemma_edit_race_lookup(r, "start_delay"@);
    lemma_edit_race_lookup(r, "streaming_required"@);
    lemma_edit_race_lookup(r, "team_race"@);
    lemma_edit_race_lookup(r, "time_limit"@);
    lemma_edit_race_lookup(r, "time_limit_auto_complete"@);
    lemma_edit_race_lookup(r, "unlisted"@);
    assert forall|k: Seq<char>| !is_room_setting_key(k) implies form_lookup(edit_race_form(r), k) is None by {
        lemma_edit_race_lookup(r, k);
    }
}


} // verus!
