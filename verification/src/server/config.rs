//! The server's config descriptor and its builder.
//!
//! This is the descriptor the server installs for the game client before it
//! starts listening; every optional field of the builder resolves to its
//! documented default at build time, so the descriptor itself carries no
//! missing state.

use vstd::prelude::*;

use crate::config::auth_has_key;
use crate::config::auth_keys_distinct;
use crate::config::auth_upsert;
use crate::config::clone_auth;
use crate::config::data_of;
use crate::config::subs_contain;
use crate::config::subs_distinct;
use crate::config::subs_extend;
use crate::config::subs_insert;
use crate::config::unrestricted_seq;
use crate::config::unrestricted_set;
use crate::config::uri_of;
use crate::config::ConfigFile;
use crate::config::Data;
use crate::config::Precision;
use crate::config::Subscription;
use crate::duration::Duration;
use crate::vdf;
use vstd::string::StringExecFns;

verus! {

/// Configuration for the game client's state push feature.
#[derive(Debug, Clone, PartialEq, Eq)]
pub struct Config {
    /// The name of the service.
    pub service_name: String,
    /// The port of the service.
    pub service_port: u16,
    /// The time the client will wait for a response until it considers an
    /// update as received.
    pub timeout: Duration,
    /// The client will wait this much time collecting events before sending
    /// them.
    pub buffer: Duration,
    /// The client will wait at least this duration between sending events.
    pub throttle: Duration,
    /// The client will wait this duration between sending game updates even
    /// though nothing has changed.
    pub heartbeat: Duration,
    /// Authorization key/value pairs, each key at most once.
    pub auth: Vec<(String, String)>,
    /// How many digits after the decimal point get reported in time values.
    pub precision_time: u8,
    /// How many digits after the decimal point get reported in position
    /// values.
    pub precision_position: u8,
    /// How many digits after the decimal point get reported in vector
    /// values.
    pub precision_vector: u8,
    /// The events to subscribe to, each at most once.
    pub subscriptions: Vec<Subscription>,
}

impl Config {
    /// The default buffer delay, in milliseconds.
    pub const DEFAULT_BUFFER_MS: u64 = 100;

    /// The default heartbeat interval, in milliseconds.
    pub const DEFAULT_HEARTBEAT_MS: u64 = 60000;

    /// The default precision for reported decimal values.
    pub const DEFAULT_PRECISION: u8 = 3;

    /// The default throttle delay, in milliseconds.
    pub const DEFAULT_THROTTLE_MS: u64 = 1000;

    /// The default timeout, in milliseconds.
    pub const DEFAULT_TIMEOUT_MS: u64 = 1000;

    /// The descriptor's internal invariant: no duplicate auth keys, no
    /// duplicate subscriptions.
    pub open spec fn wf(&self) -> bool {
        auth_keys_distinct(self.auth@) && subs_distinct(self.subscriptions@)
    }

    /// Constructs a default builder for a [`Config`].
    pub fn builder() -> (b: ConfigBuilder)
        ensures
            b == ConfigBuilder::default_spec(),
            b.wf(),
    {
        ConfigBuilder {
            timeout: None,
            buffer: None,
            throttle: None,
            heartbeat: None,
            auth: None,
            precision_time: None,
            precision_position: None,
            precision_vector: None,
            subscriptions: None,
        }
    }

    /// The name of the file the artifact is written to.
    pub fn filename(&self) -> (r: String)
        ensures
            r@ == "gamestate_integration_"@ + self.service_name@ + ".cfg"@,
    {
        let mut r = String::new();
        r.append("gamestate_integration_");
        r.append(self.service_name.as_str());
        r.append(".cfg");
        proof {
            assert(r@ =~= "gamestate_integration_"@ + self.service_name@ + ".cfg"@);
        }
        r
    }

    /// Compute the rendered artifact for this descriptor.
    ///
    /// Writing it to the client's config folder is the caller's business;
    /// the artifact itself is a pure function of the descriptor.
    pub fn artifact(&self) -> (r: ConfigFile)
        ensures
            r.title@ == "This file has been generated automatically. Do not edit."@,
            r.uri@ == uri_of(self.service_port as nat),
            r.timeout == self.timeout,
            r.buffer == self.buffer,
            r.throttle == self.throttle,
            r.heartbeat == self.heartbeat,
            r.auth@ == self.auth@,
            r.output == (Precision {
                precision_time: self.precision_time,
                precision_position: self.precision_position,
                precision_vector: self.precision_vector,
            }),
            r.data == data_of(self.subscriptions@.to_set()),
    {
        let mut uri = String::new();
        uri.append("http://127.0.0.1:");
        vdf::push_u64(&mut uri, self.service_port as u64);
        proof {
            assert(uri@ =~= uri_of(self.service_port as nat));
        }
        let subs = &self.subscriptions;
        ConfigFile {
            title: "This file has been generated automatically. Do not edit.".to_owned(),
            uri,
            timeout: self.timeout,
            buffer: self.buffer,
            throttle: self.throttle,
            heartbeat: self.heartbeat,
            auth: clone_auth(&self.auth),
            output: Precision {
                precision_time: self.precision_time,
                precision_position: self.precision_position,
                precision_vector: self.precision_vector,
            },
            data: Data {
                map_round_wins: subs_contain(subs, Subscription::MapRoundWins),
                map: subs_contain(subs, Subscription::MapInfo),
                player_id: subs_contain(subs, Subscription::PlayerID),
                player_match_stats: subs_contain(subs, Subscription::PlayerMatchStats),
                player_state: subs_contain(subs, Subscription::PlayerState),
                player_weapons: subs_contain(subs, Subscription::PlayerWeapons),
                provider: subs_contain(subs, Subscription::Provider),
                round: subs_contain(subs, Subscription::Round),
                allgrenades: subs_contain(subs, Subscription::AllGrenades),
                allplayers_id: subs_contain(subs, Subscription::AllPlayersID),
                allplayers_match_stats: subs_contain(subs, Subscription::AllPlayersMatchStats),
                allplayers_position: subs_contain(subs, Subscription::AllPlayersPosition),
                allplayers_state: subs_contain(subs, Subscription::AllPlayersState),
                allplayers_weapons: subs_contain(subs, Subscription::AllPlayersWeapons),
                bomb: subs_contain(subs, Subscription::Bomb),
                phase_countdowns: subs_contain(subs, Subscription::PhaseCountdowns),
                player_position: subs_contain(subs, Subscription::PlayerPosition),
            },
        }
    }
}

/// The authorization pairs a builder holds so far.
pub open spec fn opt_auth(o: Option<Vec<(String, String)>>) -> Seq<(String, String)> {
    match o {
        None => Seq::empty(),
        Some(v) => v@,
    }
}

/// The subscriptions a builder holds so far, where `None` still means
/// "nothing explicitly chosen".
pub open spec fn opt_subs(o: Option<Vec<Subscription>>) -> Seq<Subscription> {
    match o {
        None => Seq::empty(),
        Some(v) => v@,
    }
}

/// Builder for a [`Config`].
#[derive(Debug, Clone)]
pub struct ConfigBuilder {
    /// The timeout, if set.
    pub timeout: Option<Duration>,
    /// The buffer delay, if set.
    pub buffer: Option<Duration>,
    /// The throttle delay, if set.
    pub throttle: Option<Duration>,
    /// The heartbeat interval, if set.
    pub heartbeat: Option<Duration>,
    /// The authorization pairs, once one was added.
    pub auth: Option<Vec<(String, String)>>,
    /// The time precision, if set.
    pub precision_time: Option<u8>,
    /// The position precision, if set.
    pub precision_position: Option<u8>,
    /// The vector precision, if set.
    pub precision_vector: Option<u8>,
    /// The chosen subscriptions, once one was chosen.
    pub subscriptions: Option<Vec<Subscription>>,
}

impl ConfigBuilder {
    /// The builder with nothing set.
    pub open spec fn default_spec() -> ConfigBuilder {
        ConfigBuilder {
            timeout: None,
            buffer: None,
            throttle: None,
            heartbeat: None,
            auth: None,
            precision_time: None,
            precision_position: None,
            precision_vector: None,
            subscriptions: None,
        }
    }

    /// The builder's internal invariant: no duplicate auth keys, no
    /// duplicate subscriptions.
    pub open spec fn wf(&self) -> bool {
        auth_keys_distinct(opt_auth(self.auth)) && subs_distinct(opt_subs(self.subscriptions))
    }

    /// Set the timeout. Default is 1s.
    pub fn timeout(self, timeout: Duration) -> (b: Self)
        ensures
            b == (ConfigBuilder { timeout: Some(timeout), ..self }),
    {
        ConfigBuilder { timeout: Some(timeout), ..self }
    }

    /// Set the buffer delay. Default is 100ms.
    pub fn buffer(self, buffer: Duration) -> (b: Self)
        ensures
            b == (ConfigBuilder { buffer: Some(buffer), ..self }),
    {
        ConfigBuilder { buffer: Some(buffer), ..self }
    }

    /// Set the throttle delay. Default is 1s.
    pub fn throttle(self, throttle: Duration) -> (b: Self)
        ensures
            b == (ConfigBuilder { throttle: Some(throttle), ..self }),
    {
        ConfigBuilder { throttle: Some(throttle), ..self }
    }

    /// Set the heartbeat interval. Default is 60s.
    pub fn heartbeat(self, heartbeat: Duration) -> (b: Self)
        ensures
            b == (ConfigBuilder { heartbeat: Some(heartbeat), ..self }),
    {
        ConfigBuilder { heartbeat: Some(heartbeat), ..self }
    }

    /// Add an authorization key/value pair; adding the same key again
    /// replaces its value (the last write per key wins).
    pub fn auth(self, key: String, value: String) -> (b: Self)
        requires
            self.wf(),
        ensures
            b.wf(),
            b.timeout == self.timeout,
            b.buffer == self.buffer,
            b.throttle == self.throttle,
            b.heartbeat == self.heartbeat,
            b.precision_time == self.precision_time,
            b.precision_position == self.precision_position,
            b.precision_vector == self.precision_vector,
            b.subscriptions == self.subscriptions,
            !auth_has_key(opt_auth(self.auth), key@) ==> opt_auth(b.auth) == opt_auth(
                self.auth,
            ).push((key, value)),
            auth_has_key(opt_auth(self.auth), key@) ==> exists|i: int|
                0 <= i < opt_auth(self.auth).len() && opt_auth(self.auth)[i].0@ == key@ && opt_auth(
                    b.auth,
                ) == opt_auth(self.auth).update(i, (opt_auth(self.auth)[i].0, value)),
    {
        let ConfigBuilder {
            timeout,
            buffer,
            throttle,
            heartbeat,
            auth,
            precision_time,
            precision_position,
            precision_vector,
            subscriptions,
        } = self;
        let pairs = match auth {
            None => Vec::new(),
            Some(v) => v,
        };
        let auth = Some(auth_upsert(pairs, key, value));
        ConfigBuilder {
            timeout,
            buffer,
            throttle,
            heartbeat,
            auth,
            precision_time,
            precision_position,
            precision_vector,
            subscriptions,
        }
    }

    /// Set the time precision. Default is 3 digits.
    pub fn precision_time(self, precision_time: u8) -> (b: Self)
        ensures
            b == (ConfigBuilder { precision_time: Some(precision_time), ..self }),
    {
        ConfigBuilder { precision_time: Some(precision_time), ..self }
    }

    /// Set the position precision. Default is 3 digits.
    pub fn precision_position(self, precision_position: u8) -> (b: Self)
        ensures
            b == (ConfigBuilder { precision_position: Some(precision_position), ..self }),
    {
        ConfigBuilder { precision_position: Some(precision_position), ..self }
    }

    /// Set the vector precision. Default is 3 digits.
    pub fn precision_vector(self, precision_vector: u8) -> (b: Self)
        ensures
            b == (ConfigBuilder { precision_vector: Some(precision_vector), ..self }),
    {
        ConfigBuilder { precision_vector: Some(precision_vector), ..self }
    }

    /// Subscribe to a single category of state; subscribing twice to the
    /// same category is the same as subscribing once.
    pub fn subscribe(self, subscription: Subscription) -> (b: Self)
        requires
            self.wf(),
        ensures
            b.wf(),
            b.timeout == self.timeout,
            b.buffer == self.buffer,
            b.throttle == self.throttle,
            b.heartbeat == self.heartbeat,
            b.auth == self.auth,
            b.precision_time == self.precision_time,
            b.precision_position == self.precision_position,
            b.precision_vector == self.precision_vector,
            b.subscriptions is Some,
            opt_subs(b.subscriptions).to_set() == opt_subs(self.subscriptions).to_set().insert(
                subscription,
            ),
    {
        let ConfigBuilder {
            timeout,
            buffer,
            throttle,
            heartbeat,
            auth,
            precision_time,
            precision_position,
            precision_vector,
            subscriptions,
        } = self;
        let chosen = match subscriptions {
            None => Vec::new(),
            Some(v) => v,
        };
        let subscriptions = Some(subs_insert(chosen, subscription));
        ConfigBuilder {
            timeout,
            buffer,
            throttle,
            heartbeat,
            auth,
            precision_time,
            precision_position,
            precision_vector,
            subscriptions,
        }
    }

    /// Subscribe to multiple categories of state at once; the subscription
    /// set grows by the union of the given categories.
    pub fn subscribe_multiple(self, subscriptions: Vec<Subscription>) -> (b: Self)
        requires
            self.wf(),
        ensures
            b.wf(),
            b.timeout == self.timeout,
            b.buffer == self.buffer,
            b.throttle == self.throttle,
            b.heartbeat == self.heartbeat,
            b.auth == self.auth,
            b.precision_time == self.precision_time,
            b.precision_position == self.precision_position,
            b.precision_vector == self.precision_vector,
            b.subscriptions is Some,
            opt_subs(b.subscriptions).to_set() == opt_subs(self.subscriptions).to_set().union(
                subscriptions@.to_set(),
            ),
    {
        let given = subscriptions;
        let ConfigBuilder {
            timeout,
            buffer,
            throttle,
            heartbeat,
            auth,
            precision_time,
            precision_position,
            precision_vector,
            subscriptions,
        } = self;
        let chosen = match subscriptions {
            None => Vec::new(),
            Some(v) => v,
        };
        let subscriptions = Some(subs_extend(chosen, given));
        ConfigBuilder {
            timeout,
            buffer,
            throttle,
            heartbeat,
            auth,
            precision_time,
            precision_position,
            precision_vector,
            subscriptions,
        }
    }

    /// Build the config, consuming the builder: every unset field takes its
    /// documented default, and when no subscription was explicitly chosen
    /// the subscription set defaults to the unrestricted set.
    pub fn build(self, service_name: String, service_port: u16) -> (c: Config)
        requires
            self.wf(),
        ensures
            c.wf(),
            c.service_name == service_name,
            c.service_port == service_port,
            c.timeout == self.timeout.unwrap_or(Duration { millis: Config::DEFAULT_TIMEOUT_MS }),
            c.buffer == self.buffer.unwrap_or(Duration { millis: Config::DEFAULT_BUFFER_MS }),
            c.throttle == self.throttle.unwrap_or(
                Duration { millis: Config::DEFAULT_THROTTLE_MS },
            ),
            c.heartbeat == self.heartbeat.unwrap_or(
                Duration { millis: Config::DEFAULT_HEARTBEAT_MS },
            ),
            c.auth@ == opt_auth(self.auth),
            c.precision_time == self.precision_time.unwrap_or(Config::DEFAULT_PRECISION),
            c.precision_position == self.precision_position.unwrap_or(Config::DEFAULT_PRECISION),
            c.precision_vector == self.precision_vector.unwrap_or(Config::DEFAULT_PRECISION),
            self.subscriptions is None ==> c.subscriptions@ == unrestricted_seq(),
            self.subscriptions is None ==> c.subscriptions@.to_set() == unrestricted_set(),
            self.subscriptions matches Some(v) ==> c.subscriptions == v,
    {
        let subscriptions = match self.subscriptions {
            None => {
                let v = Subscription::unrestricted();
                proof {
                    assert(subs_distinct(v@));
                }
                v
            },
            Some(v) => v,
        };
        Config {
            service_name,
            service_port,
            timeout: match self.timeout {
                Some(t) => t,
                None => Duration { millis: Config::DEFAULT_TIMEOUT_MS },
            },
            buffer: match self.buffer {
                Some(t) => t,
                None => Duration { millis: Config::DEFAULT_BUFFER_MS },
            },
            throttle: match self.throttle {
                Some(t) => t,
                None => Duration { millis: Config::DEFAULT_THROTTLE_MS },
            },
            heartbeat: match self.heartbeat {
                Some(t) => t,
                None => Duration { millis: Config::DEFAULT_HEARTBEAT_MS },
            },
            auth: match self.auth {
                None => Vec::new(),
                Some(v) => v,
            },
            precision_time: match self.precision_time {
                Some(p) => p,
                None => Config::DEFAULT_PRECISION,
            },
            precision_position: match self.precision_position {
                Some(p) => p,
                None => Config::DEFAULT_PRECISION,
            },
            precision_vector: match self.precision_vector {
                Some(p) => p,
                None => Config::DEFAULT_PRECISION,
            },
            subscriptions,
        }
    }
}

impl Default for ConfigBuilder {
    /// The builder with nothing set.
    fn default() -> (b: Self)
        ensures
            b == ConfigBuilder::default_spec(),
    {
        Config::builder()
    }
}

} // verus!
