//! The decisions of the bot: how a race room connection reacts to what the
//! server sends and to the handler's answers, when it reconnects, how long it
//! waits before reconnecting, and when it renews its access token.
use vstd::prelude::*;
use vstd::string::*;

use crate::duration::{UDuration, max_nanos};
use crate::text::str_eq;
use vstd::arithmetic::power2::{lemma2_to64, lemma_pow2_unfold, pow2};

verus! {

/// Where in the handling of a race room an error came from.
#[derive(Debug, Clone, Copy, PartialEq, Eq, Structural)]
pub enum HandleErrorContext {
    ChatDelete,
    ChatHistory,
    ChatMessage,
    ChatDm,
    ChatPin,
    ChatUnpin,
    ChatPurge,
    Decode,
    End,
    New,
    Ping,
    Pong,
    RaceData,
    RaceRenders,
    RaceSplit,
    Reconnect,
    Recv,
    ServerError,
    ShouldStop,
}

/// The words that describe each error context.
pub open spec fn context_text(ctx: HandleErrorContext) -> Seq<char> {
    match ctx {
        HandleErrorContext::ChatDelete => "from chat_delete callback"@,
        HandleErrorContext::ChatHistory => "from chat_history callback"@,
        HandleErrorContext::ChatMessage => "from chat_message callback"@,
        HandleErrorContext::ChatDm => "from chat_dm callback"@,
        HandleErrorContext::ChatPin => "from chat_pin callback"@,
        HandleErrorContext::ChatUnpin => "from chat_unpin callback"@,
        HandleErrorContext::ChatPurge => "from chat_purge callback"@,
        HandleErrorContext::Decode => "while decoding server message"@,
        HandleErrorContext::End => "from end callback"@,
        HandleErrorContext::New => "from RaceHandler constructor"@,
        HandleErrorContext::Ping => "while sending ping"@,
        HandleErrorContext::Pong => "from pong callback"@,
        HandleErrorContext::RaceData => "from race_data callback"@,
        HandleErrorContext::RaceRenders => "from race_renders callback"@,
        HandleErrorContext::RaceSplit => "from race_split callback"@,
        HandleErrorContext::Reconnect => "while trying to reconnect"@,
        HandleErrorContext::Recv => "while waiting for message from server"@,
        HandleErrorContext::ServerError => "from error callback"@,
        HandleErrorContext::ShouldStop => "from should_stop callback"@,
    }
}

impl HandleErrorContext {
    /// The words that describe this context, as it is displayed.
    pub fn description(&self) -> (r: String)
        ensures
            r@ == context_text(*self),
    {
        let s = match self {
            HandleErrorContext::ChatDelete => "from chat_delete callback",
            HandleErrorContext::ChatHistory => "from chat_history callback",
            HandleErrorContext::ChatMessage => "from chat_message callback",
            HandleErrorContext::ChatDm => "from chat_dm callback",
            HandleErrorContext::ChatPin => "from chat_pin callback",
            HandleErrorContext::ChatUnpin => "from chat_unpin callback",
            HandleErrorContext::ChatPurge => "from chat_purge callback",
            HandleErrorContext::Decode => "while decoding server message",
            HandleErrorContext::End => "from end callback",
            HandleErrorContext::New => "from RaceHandler constructor",
            HandleErrorContext::Ping => "while sending ping",
            HandleErrorContext::Pong => "from pong callback",
            HandleErrorContext::RaceData => "from race_data callback",
            HandleErrorContext::RaceRenders => "from race_renders callback",
            HandleErrorContext::RaceSplit => "from race_split callback",
            HandleErrorContext::Reconnect => "while trying to reconnect",
            HandleErrorContext::Recv => "while waiting for message from server",
            HandleErrorContext::ServerError => "from error callback",
            HandleErrorContext::ShouldStop => "from should_stop callback",
        };
        String::from_str(s)
    }
}

/// The length and the characters at positions 0, 5 and 10 of a text, which
/// tell the descriptions of the error contexts apart.
spec fn description_signature(t: Seq<char>) -> (nat, char, char, char) {
    (t.len(), t[0], t[5], t[10])
}

/// Different error contexts are described by different words.
pub proof fn lemma_context_descriptions_distinct(a: HandleErrorContext, b: HandleErrorContext)
    requires
        a != b,
    ensures
        context_text(a) != context_text(b),
{
    reveal_strlit("from chat_delete callback");
    reveal_strlit("from chat_history callback");
    reveal_strlit("from chat_message callback");
    reveal_strlit("from chat_dm callback");
    reveal_strlit("from chat_pin callback");
    reveal_strlit("from chat_unpin callback");
    reveal_strlit("from chat_purge callback");
    reveal_strlit("while decoding server message");
    reveal_strlit("from end callback");
    reveal_strlit("from RaceHandler constructor");
    reveal_strlit("while sending ping");
    reveal_strlit("from pong callback");
    reveal_strlit("from race_data callback");
    reveal_strlit("from race_renders callback");
    reveal_strlit("from race_split callback");
    reveal_strlit("while trying to reconnect");
    reveal_strlit("while waiting for message from server");
    reveal_strlit("from error callback");
    reveal_strlit("from should_stop callback");
    assert(description_signature(context_text(a)) != description_signature(context_text(b)));
}

/// Nanoseconds in a second, a minute, an hour.
pub open spec fn second_nanos() -> nat {
    1_000_000_000
}

pub open spec fn minute_nanos() -> nat {
    60 * second_nanos()
}

pub open spec fn hour_nanos() -> nat {
    60 * minute_nanos()
}

/// The longest wait between reconnect attempts: five minutes.
pub open spec fn max_reconnect_wait() -> nat {
    5 * minute_nanos()
}

/// The wait before the next reconnect attempt, in nanoseconds: after a day
/// without network errors it starts over at one second, otherwise it doubles,
/// up to five minutes.
pub open spec fn next_wait(since_last_error: nat, previous: nat) -> nat {
    if since_last_error >= 24 * hour_nanos() {
        second_nanos()
    } else {
        let doubled = if previous * 2 <= max_nanos() { previous * 2 } else { max_nanos() };
        if doubled <= max_reconnect_wait() { doubled } else { max_reconnect_wait() }
    }
}

/// The wait before the first reconnect attempt of a connection: one second.
pub fn initial_reconnect_wait() -> (r: UDuration)
    ensures
        r@ == second_nanos(),
{
    UDuration::from_secs(1)
}

/// The wait before the next reconnect attempt, given the time since the last
/// network error and the previous wait (exponential backoff, reset after a day
/// without errors).
pub fn next_reconnect_wait(since_last_error: UDuration, previous: UDuration) -> (r: UDuration)
    ensures
        r@ == next_wait(since_last_error@, previous@),
{
    if since_last_error.ge(&UDuration::from_hours(24)) {
        UDuration::from_secs(1)
    } else {
        previous.saturating_double().min(UDuration::from_mins(5))
    }
}

/// The wait between reconnect attempts never exceeds five minutes, and once it
/// is at least one second it stays at least one second.
pub proof fn lemma_reconnect_wait_bounded(since_last_error: nat, previous: nat)
    ensures
        next_wait(since_last_error, previous) <= max_reconnect_wait(),
        previous >= second_nanos() ==> next_wait(since_last_error, previous) >= second_nanos(),
{
}

/// While errors keep coming within a day of each other, the wait doubles until
/// it reaches five minutes, and then stays there.
pub proof fn lemma_reconnect_wait_doubles(since_last_error: nat, previous: nat)
    requires
        since_last_error < 24 * hour_nanos(),
        previous <= max_reconnect_wait(),
    ensures
        next_wait(since_last_error, previous) == if previous * 2 <= max_reconnect_wait() {
            previous * 2
        } else {
            max_reconnect_wait()
        },
{
}

/// The wait before a reconnect attempt, where `elapsed[k]` is the time since
/// the last network error when the attempt `k + 1` of a connection is made:
/// the first wait of a connection is one second, each attempt's wait follows
/// from the one before by `next_wait`.
pub open spec fn wait_before_attempt(elapsed: Seq<nat>) -> nat
    decreases elapsed.len(),
{
    if elapsed.len() == 0 {
        second_nanos()
    } else {
        next_wait(elapsed.last(), wait_before_attempt(elapsed.drop_last()))
    }
}

/// While each reconnect attempt comes less than a day after the previous
/// network error, the wait before the `i`-th attempt is `min(2^i s, 5 min)`.
pub proof fn lemma_backoff_closed_form(elapsed: Seq<nat>)
    requires
        forall|k: int| 0 <= k < elapsed.len() ==> #[trigger] elapsed[k] < 24 * hour_nanos(),
    ensures
        wait_before_attempt(elapsed) == if pow2(elapsed.len()) * second_nanos() <= max_reconnect_wait() {
            pow2(elapsed.len()) * second_nanos()
        } else {
            max_reconnect_wait()
        },
    decreases elapsed.len(),
{
    let n = elapsed.len();
    if n == 0 {
        assert(pow2(0) == 1) by {
            lemma2_to64();
        }
    } else {
        let rest = elapsed.drop_last();
        assert forall|k: int| 0 <= k < rest.len() implies #[trigger] rest[k] < 24 * hour_nanos() by {
            assert(rest[k] == elapsed[k]);
        }
        lemma_backoff_closed_form(rest);
        lemma_pow2_unfold(n);
        assert(elapsed.last() == elapsed[n - 1]);
    }
}

/// After a day or more without a network error, the wait starts over at one second.
pub proof fn lemma_backoff_resets_after_a_day(elapsed: Seq<nat>)
    requires
        elapsed.len() > 0,
        elapsed.last() >= 24 * hour_nanos(),
    ensures
        wait_before_attempt(elapsed) == second_nanos(),
{
}

/// How long a fresh access token lasts: the lifetime the server gave, in
/// seconds, or ten hours where it gave none.
pub open spec fn token_lifetime_secs(expires_in: Option<u64>) -> nat {
    match expires_in {
        Some(secs) => secs as nat,
        None => 36000,
    }
}

/// How long a fresh access token lasts.
pub fn token_lifetime(expires_in: Option<u64>) -> (r: UDuration)
    ensures
        r@ == token_lifetime_secs(expires_in) * second_nanos(),
{
    UDuration::from_secs(
        match expires_in {
            Some(secs) => secs,
            None => 36000,
        },
    )
}

/// What came of an attempt to renew the access token.
#[derive(Debug, Clone, Copy)]
pub enum ReauthOutcome {
    /// A new token was issued, with this lifetime.
    Renewed(UDuration),
    /// The request failed in a way that may pass: a network error or a server error.
    Transient,
    /// The request failed for good.
    Failed,
}

/// When to renew the access token next, or to stop the bot.
#[derive(Debug, Clone, Copy)]
pub enum ReauthDecision {
    /// Renew again after this period, and every period after.
    Every(UDuration),
    /// Give up: the bot stops with the error.
    Stop,
}

/// Whether an HTTP failure of the token request may pass: there was no status
/// (a network error), or the status was a server error (500 to 599).
pub open spec fn is_transient_status(status: Option<u16>) -> bool {
    match status {
        None => true,
        Some(code) => 500 <= code < 600,
    }
}

/// Whether an HTTP failure with this status may pass.
pub fn transient_auth_failure(status: Option<u16>) -> (r: bool)
    ensures
        r == is_transient_status(status),
{
    match status {
        None => true,
        Some(code) => 500 <= code && code < 600,
    }
}

/// The renewal period for a token of the given lifetime: half the lifetime,
/// so that it is renewed before it expires.
pub fn reauthorization_period(lifetime: UDuration) -> (r: UDuration)
    ensures
        r@ == lifetime@ / 2,
{
    lifetime.half()
}

/// The next renewal period after a renewal attempt, in nanoseconds, or `None`
/// where the bot stops: a new token is renewed after half its lifetime; after
/// a failure that may pass the attempt is retried after half the current
/// period, unless that is shorter than the scan interval; any other failure
/// stops the bot.
pub open spec fn next_reauth_period(period: nat, scan_races_every: nat, outcome: ReauthOutcome) -> Option<nat> {
    match outcome {
        ReauthOutcome::Renewed(lifetime) => Some(lifetime@ / 2),
        ReauthOutcome::Transient => if period / 2 < scan_races_every {
            None
        } else {
            Some(period / 2)
        },
        ReauthOutcome::Failed => None,
    }
}

/// The period a decision schedules, or `None` where it stops the bot.
pub open spec fn decision_period(decision: ReauthDecision) -> Option<nat> {
    match decision {
        ReauthDecision::Every(p) => Some(p@),
        ReauthDecision::Stop => None,
    }
}

/// The renewal schedule after a renewal attempt, given the current period and
/// the interval at which races are scanned.
pub fn after_reauthorization(period: UDuration, scan_races_every: UDuration, outcome: ReauthOutcome) -> (r: ReauthDecision)
    ensures
        decision_period(r) == next_reauth_period(period@, scan_races_every@, outcome),
{
    match outcome {
        ReauthOutcome::Renewed(lifetime) => ReauthDecision::Every(reauthorization_period(lifetime)),
        ReauthOutcome::Transient => {
            let retry = period.half();
            if retry.lt(&scan_races_every) {
                ReauthDecision::Stop
            } else {
                ReauthDecision::Every(retry)
            }
        },
        ReauthOutcome::Failed => ReauthDecision::Stop,
    }
}

/// A retry after a failure that may pass comes no sooner than the next scan of
/// races and at most half as late as the attempt that failed, so a run of such
/// failures ends the bot after finitely many retries.
pub proof fn lemma_retries_shrink_to_scan_interval(period: nat, scan_races_every: nat)
    ensures
        next_reauth_period(period, scan_races_every, ReauthOutcome::Transient) matches Some(p) ==> (
        scan_races_every <= p && 2 * p <= period),
{
}

/// The names of the race rooms that the bot is handling; no name occurs twice.
///
/// Its view is the set of the names.
pub struct HandledRaces {
    names: Vec<String>,
}

impl HandledRaces {
    #[verifier::type_invariant]
    spec fn distinct(self) -> bool {
        forall|i: int, j: int|
            0 <= i < j < self.names@.len() ==> #[trigger] self.names@[i]@ != #[trigger] self.names@[j]@
    }
}

impl View for HandledRaces {
    type V = Set<Seq<char>>;

    closed spec fn view(&self) -> Set<Seq<char>> {
        Set::new(|n: Seq<char>| exists|i: int| 0 <= i < self.names@.len() && self.names@[i]@ == n)
    }
}

impl HandledRaces {
    /// No race is being handled.
    pub fn new() -> (r: Self)
        ensures
            r@ == Set::<Seq<char>>::empty(),
    {
        let r = HandledRaces { names: Vec::new() };
        assert(r@ =~= Set::<Seq<char>>::empty());
        r
    }

    /// The position of `name` among the names, if it is there.
    fn position(&self, name: &str) -> (r: Option<usize>)
        ensures
            match r {
                Some(i) => i < self.names@.len() && self.names@[i as int]@ == name@,
                None => forall|i: int| 0 <= i < self.names@.len() ==> self.names@[i]@ != name@,
            },
    {
        let mut i: usize = 0;
        while i < self.names.len()
            invariant
                i <= self.names@.len(),
                forall|j: int| 0 <= j < i ==> self.names@[j]@ != name@,
            decreases self.names@.len() - i,
        {
            if str_eq(self.names[i].as_str(), name) {
                return Some(i);
            }
            i = i + 1;
        }
        None
    }

    /// Whether the race with this name is being handled.
    pub fn contains(&self, name: &str) -> (r: bool)
        ensures
            r == self@.contains(name@),
    {
        match self.position(name) {
            Some(_) => true,
            None => false,
        }
    }

    /// The number of races being handled.
    pub fn len(&self) -> (r: usize)
        ensures
            r == self@.len(),
    {
        proof {
            use_type_invariant(self);
            self.lemma_len();
        }
        self.names.len()
    }

    proof fn lemma_len(&self)
        requires
            self.distinct(),
        ensures
            self@.finite(),
            self@.len() == self.names@.len(),
        decreases self.names@.len(),
    {
        let views = self.names@.map_values(|s: String| s@);
        assert(views.no_duplicates()) by {
            assert forall|i: int, j: int|
                0 <= i < views.len() && 0 <= j < views.len() && i != j implies views[i] != views[j] by {
                if i < j {
                    assert(self.names@[i]@ != self.names@[j]@);
                } else {
                    assert(self.names@[j]@ != self.names@[i]@);
                }
            }
        }
        assert forall|n: Seq<char>| #[trigger] self@.contains(n) == views.to_set().contains(n) by {
            if self@.contains(n) {
                let i = choose|i: int| 0 <= i < self.names@.len() && self.names@[i]@ == n;
                assert(views[i] == n);
            }
            if views.to_set().contains(n) {
                assert(views.contains(n));
                let i = choose|i: int| 0 <= i < views.len() && views[i] == n;
                assert(self.names@[i]@ == n);
            }
        }
        assert(self@ =~= views.to_set());
        views.unique_seq_to_set();
    }

    /// Marks the race with this name as handled.
    pub fn insert(&mut self, name: String)
        ensures
            final(self)@ == old(self)@.insert(name@),
    {
        proof {
            use_type_invariant(&*self);
        }
        if self.position(name.as_str()).is_none() {
            let ghost old_names = self.names@;
            let mut names = Vec::new();
            std::mem::swap(&mut names, &mut self.names);
            names.push(name);
            proof {
                assert forall|i: int, j: int|
                    0 <= i < j < names@.len() implies #[trigger] names@[i]@ != #[trigger] names@[j]@ by {
                    assert(names@[i] == old_names[i]);
                    if j < old_names.len() {
                        assert(names@[j] == old_names[j]);
                    }
                }
            }
            self.names = names;
            assert forall|n: Seq<char>| #[trigger] self@.contains(n) == old(self)@.insert(name@).contains(n) by {
                if old(self)@.contains(n) {
                    let i = choose|i: int| 0 <= i < old_names.len() && old_names[i]@ == n;
                    assert(self.names@[i] == old_names[i]);
                }
                if self@.contains(n) {
                    let i = choose|i: int| 0 <= i < self.names@.len() && self.names@[i]@ == n;
                    if i < old_names.len() {
                        assert(self.names@[i] == old_names[i]);
                    }
                }
                if n == name@ {
                    assert(self.names@[old_names.len() as int]@ == n);
                }
            }
            assert(self@ =~= old(self)@.insert(name@));
        } else {
            assert(self@ =~= old(self)@.insert(name@));
        }
    }

    /// Marks the race with this name as no longer handled.
    pub fn remove(&mut self, name: &str)
        ensures
            final(self)@ == old(self)@.remove(name@),
    {
        proof {
            use_type_invariant(&*self);
        }
        match self.position(name) {
            Some(k) => {
                let ghost old_names = self.names@;
                let mut names = Vec::new();
                std::mem::swap(&mut names, &mut self.names);
                names.remove(k);
                proof {
                    assert forall|i: int, j: int|
                        0 <= i < j < names@.len() implies #[trigger] names@[i]@ != #[trigger] names@[j]@ by {
                        let oi = if i < k { i } else { i + 1 };
                        let oj = if j < k { j } else { j + 1 };
                        assert(names@[i] == old_names[oi]);
                        assert(names@[j] == old_names[oj]);
                        assert(old_names[oi]@ != old_names[oj]@);
                    }
                }
                self.names = names;
                assert forall|n: Seq<char>| #[trigger] self@.contains(n) == old(self)@.remove(name@).contains(n) by {
                    if self@.contains(n) {
                        let i = choose|i: int| 0 <= i < self.names@.len() && self.names@[i]@ == n;
                        if i < k {
                            assert(self.names@[i] == old_names[i]);
                            assert(old_names[i]@ != old_names[k as int]@);
                        } else {
                            assert(self.names@[i] == old_names[i + 1]);
                            assert(old_names[k as int]@ != old_names[i + 1]@);
                        }
                    }
                    if old(self)@.remove(name@).contains(n) {
                        let j = choose|j: int| 0 <= j < old_names.len() && old_names[j]@ == n;
                        assert(j != k);
                        if j < k {
                            assert(self.names@[j] == old_names[j]);
                        } else {
                            assert(self.names@[j - 1] == old_names[j]);
                        }
                    }
                }
                assert(self@ =~= old(self)@.remove(name@));
            },
            None => {
                assert(self@ =~= old(self)@.remove(name@));
            },
        }
    }
}

/// The path of the data of a category, with its current races: `/o/<category>/data`.
pub fn category_data_path(category: &str) -> (r: String)
    ensures
        r@ == "/o/"@ + category@ + "/data"@,
{
    String::from_str("/o/").concat(category).concat("/data")
}

/// The name of the race room with this slug in a category: `<category>/<slug>`.
pub fn race_name(category: &str, slug: &str) -> (r: String)
    ensures
        r@ == category@ + "/"@ + slug@,
{
    String::from_str(category).concat("/").concat(slug)
}

/// The path of the data of the race room with this slug in a category:
/// `/<category>/<slug>/data`.
pub fn race_data_path(category: &str, slug: &str) -> (r: String)
    ensures
        r@ == "/"@ + category@ + "/"@ + slug@ + "/data"@,
{
    String::from_str("/").concat(category).concat("/").concat(slug).concat("/data")
}

/// Marking a race as handled and then as no longer handled leaves the set of
/// handled races as it was, where the race was not handled before; marking
/// it twice is the same as marking it once.
pub proof fn lemma_handle_then_release(races: Set<Seq<char>>, name: Seq<char>)
    ensures
        !races.contains(name) ==> races.insert(name).remove(name) == races,
        races.insert(name).insert(name) == races.insert(name),
        races.insert(name).contains(name),
        !races.remove(name).contains(name),
{
    assert(!races.contains(name) ==> races.insert(name).remove(name) =~= races);
    assert(races.insert(name).insert(name) =~= races.insert(name));
}

} // verus!
