//! The settings of a bot before it starts.
use vstd::prelude::*;

use std::sync::Arc;

use crate::HostInfo;
use crate::duration::UDuration;

verus! {

/// The user agent a bot sends by default.
pub const DEFAULT_USER_AGENT: &'static str = "racetime-rs/0.1.0";

/// The settings of a bot: the category it serves, its credentials, the server,
/// the state it shares with its handlers, its user agent, how often it scans
/// for races and how long a network operation may take.
pub struct BotBuilder<'a, 'b, 'c, S: Send + Sync + ?Sized + 'static> {
    pub category_slug: &'a str,
    pub client_id: &'b str,
    pub client_secret: &'c str,
    pub host_info: HostInfo,
    pub state: Arc<S>,
    pub user_agent: &'static str,
    pub scan_races_every: UDuration,
    pub network_timeout: Option<UDuration>,
}

impl<'a, 'b, 'c> BotBuilder<'a, 'b, 'c, ()> {
    /// The settings of a bot for a category with these credentials: racetime.gg
    /// itself, no shared state, the default user agent, a scan every 30 seconds
    /// and a network timeout of one hour.
    pub fn new(category_slug: &'a str, client_id: &'b str, client_secret: &'c str) -> (r: Self)
        ensures
            r.category_slug == category_slug,
            r.client_id == client_id,
            r.client_secret == client_secret,
            r.host_info.hostname@ == crate::RACETIME_HOST@,
            r.host_info.port == 443,
            r.host_info.secure,
            r.user_agent == DEFAULT_USER_AGENT,
            r.scan_races_every@ == 30 * 1_000_000_000,
            r.network_timeout matches Some(t) && t@ == 3600 * 1_000_000_000,
    {
        BotBuilder {
            host_info: HostInfo::default(),
            state: Arc::new(()),
            user_agent: DEFAULT_USER_AGENT,
            scan_races_every: UDuration::from_secs(30),
            network_timeout: Some(UDuration::from_hours(1)),
            category_slug,
            client_id,
            client_secret,
        }
    }

    /// The same settings with this shared state.
    pub fn state<S: Send + Sync + ?Sized + 'static>(self, state: Arc<S>) -> (r: BotBuilder<'a, 'b, 'c, S>)
        ensures
            r.category_slug == self.category_slug,
            r.client_id == self.client_id,
            r.client_secret == self.client_secret,
            r.host_info == self.host_info,
            r.state == state,
            r.user_agent == self.user_agent,
            r.scan_races_every == self.scan_races_every,
            r.network_timeout == self.network_timeout,
    {
        let BotBuilder {
            category_slug,
            client_id,
            client_secret,
            host_info,
            state: _,
            user_agent,
            scan_races_every,
            network_timeout,
        } = self;
        BotBuilder {
            category_slug,
            client_id,
            client_secret,
            host_info,
            state,
            user_agent,
            scan_races_every,
            network_timeout,
        }
    }
}

impl<'a, 'b, 'c, S: Send + Sync + ?Sized + 'static> BotBuilder<'a, 'b, 'c, S> {
    /// The same settings with this server.
    pub fn host(self, host_info: HostInfo) -> (r: Self)
        ensures
            r == (BotBuilder { host_info, ..self }),
    {
        BotBuilder { host_info, ..self }
    }

    /// The same settings with this user agent.
    pub fn user_agent(self, user_agent: &'static str) -> (r: Self)
        ensures
            r == (BotBuilder { user_agent, ..self }),
    {
        BotBuilder { user_agent, ..self }
    }

    /// The same settings with races scanned at this interval. According to
    /// racetime.gg this can be as low as 5 seconds without hitting rate limits.
    pub fn scan_races_every(self, scan_races_every: UDuration) -> (r: Self)
        ensures
            r == (BotBuilder { scan_races_every, ..self }),
    {
        BotBuilder { scan_races_every, ..self }
    }

    /// The same settings with this network timeout: a network operation (an
    /// HTTP request or a websocket write) that takes longer is an error. After
    /// a websocket read is silent this long, the bot sends one liveness probe;
    /// if the connection stays silent for another interval, it reconnects.
    pub fn network_timeout(self, network_timeout: Option<UDuration>) -> (r: Self)
        ensures
            r == (BotBuilder { network_timeout, ..self }),
    {
        BotBuilder { network_timeout, ..self }
    }
}

} // verus!
