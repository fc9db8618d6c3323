//! The config descriptor the game client reads, its builder, and the rendered
//! config artifact.

use vstd::prelude::*;
use vstd::string::StringExecFns;

use crate::duration::Duration;
use crate::error::Error;
use crate::vdf;

verus! {

/// The different categories of state one can subscribe to.
#[derive(Debug, Clone, Copy, PartialEq, Eq, PartialOrd, Ord, Hash, Structural)]
pub enum Subscription {
    /// History of round wins.
    MapRoundWins,
    /// Mode, map, phase, team scores.
    MapInfo,
    /// The player's platform id.
    PlayerID,
    /// Scoreboard info.
    PlayerMatchStats,
    /// Armor, flashed, equip_value, health, and so on.
    PlayerState,
    /// List of player weapons and weapon state.
    PlayerWeapons,
    /// Info about the game providing info.
    Provider,
    /// Round phase and the winning team.
    Round,
    /// Grenade effecttime, lifetime, owner, position, type, velocity.
    AllGrenades,
    /// The platform id of each player.
    AllPlayersID,
    /// The scoreboard info for each player.
    AllPlayersMatchStats,
    /// player_position but for each player.
    AllPlayersPosition,
    /// The player_state for each player.
    AllPlayersState,
    /// The player_weapons for each player.
    AllPlayersWeapons,
    /// Location of the bomb, who's carrying it, dropped or not.
    Bomb,
    /// Time remaining in tenths of a second, which phase.
    PhaseCountdowns,
    /// Forward direction, position for currently spectated player.
    PlayerPosition,
}

/// The subscriptions that are available in any context, in their fixed order.
pub open spec fn unrestricted_seq() -> Seq<Subscription> {
    seq![
        Subscription::MapRoundWins,
        Subscription::MapInfo,
        Subscription::PlayerID,
        Subscription::PlayerMatchStats,
        Subscription::PlayerState,
        Subscription::PlayerWeapons,
        Subscription::Provider,
        Subscription::Round,
    ]
}

/// The set of subscriptions that are available in any context.
pub open spec fn unrestricted_set() -> Set<Subscription> {
    unrestricted_seq().to_set()
}

impl Subscription {
    /// All subscriptions that are available in any context.
    pub fn unrestricted() -> (v: Vec<Subscription>)
        ensures
            v@ == unrestricted_seq(),
            v@.to_set() == unrestricted_set(),
    {
        let mut v: Vec<Subscription> = Vec::new();
        v.push(Subscription::MapRoundWins);
        v.push(Subscription::MapInfo);
        v.push(Subscription::PlayerID);
        v.push(Subscription::PlayerMatchStats);
        v.push(Subscription::PlayerState);
        v.push(Subscription::PlayerWeapons);
        v.push(Subscription::Provider);
        v.push(Subscription::Round);
        proof {
            assert(v@ =~= unrestricted_seq());
        }
        v
    }
}

/// Whether an authorization list maps each key at most once.
pub open spec fn auth_keys_distinct(a: Seq<(String, String)>) -> bool {
    forall|i: int, j: int| 0 <= i < j < a.len() ==> a[i].0@ != a[j].0@
}

/// Whether a key occurs in an authorization list.
pub open spec fn auth_has_key(a: Seq<(String, String)>, k: Seq<char>) -> bool {
    exists|i: int| 0 <= i < a.len() && a[i].0@ == k
}

/// Whether a subscription list holds each subscription at most once.
pub open spec fn subs_distinct(s: Seq<Subscription>) -> bool {
    forall|i: int, j: int| 0 <= i < j < s.len() ==> s[i] != s[j]
}

/// Insert or replace one key/value pair in an authorization list: the last
/// write per key wins, and keys stay unique.
pub(crate) fn auth_upsert(a: Vec<(String, String)>, key: String, value: String) -> (r: Vec<
    (String, String),
>)
    requires
        auth_keys_distinct(a@),
    ensures
        auth_keys_distinct(r@),
        !auth_has_key(a@, key@) ==> r@ == a@.push((key, value)),
        auth_has_key(a@, key@) ==> exists|i: int|
            0 <= i < a@.len() && a@[i].0@ == key@ && r@ == a@.update(i, (a@[i].0, value)),
{
    let mut b = a;
    let len = b.len();
    let mut i: usize = 0;
    while i < len
        invariant
            auth_keys_distinct(a@),
            b == a,
            len == a@.len(),
            i <= len,
            forall|j: int| 0 <= j < i ==> a@[j].0@ != key@,
        decreases len - i,
    {
        if b[i].0 == key {
            b[i].1 = value;
            proof {
                let ghost a0 = a@;
                assert(b@ == a0.update(i as int, (a0[i as int].0, value)));
                assert forall|p: int, q: int|
                    0 <= p < q < b@.len() implies b@[p].0@ != b@[q].0@ by {
                    assert(b@[p].0 == a0[p].0);
                    assert(b@[q].0 == a0[q].0);
                }
            }
            return b;
        }
        i = i + 1;
    }
    b.push((key, value));
    proof {
        assert(!auth_has_key(a@, key@));
        assert forall|p: int, q: int| 0 <= p < q < b@.len() implies b@[p].0@ != b@[q].0@ by {
            if q < a@.len() {
                assert(b@[p].0 == a@[p].0);
                assert(b@[q].0 == a@[q].0);
            } else {
                assert(b@[q] == (key, value));
                assert(b@[p].0 == a@[p].0);
            }
        }
    }
    b
}

/// Insert one subscription into a duplicate-free list; inserting it again
/// changes nothing.
pub(crate) fn subs_insert(s: Vec<Subscription>, sub: Subscription) -> (r: Vec<Subscription>)
    requires
        subs_distinct(s@),
    ensures
        subs_distinct(r@),
        s@.contains(sub) ==> r == s,
        !s@.contains(sub) ==> r@ == s@.push(sub),
        r@.to_set() == s@.to_set().insert(sub),
{
    let mut b = s;
    let len = b.len();
    let mut i: usize = 0;
    while i < len
        invariant
            subs_distinct(s@),
            b == s,
            len == s@.len(),
            i <= len,
            forall|j: int| 0 <= j < i ==> s@[j] != sub,
        decreases len - i,
    {
        if b[i] == sub {
            proof {
                assert(s@.to_set().contains(sub)) by {
                    assert(s@[i as int] == sub);
                }
                assert(b@.to_set() =~= s@.to_set().insert(sub));
            }
            return b;
        }
        i = i + 1;
    }
    b.push(sub);
    proof {
        let ghost s0 = s@;
        assert forall|x: Subscription| b@.contains(x) implies s0.contains(x) || x == sub by {
            let k = choose|k: int| 0 <= k < b@.len() && b@[k] == x;
            if k < s0.len() {
                assert(s0[k] == x);
            }
        }
        assert forall|x: Subscription| s0.contains(x) implies b@.contains(x) by {
            let k = choose|k: int| 0 <= k < s0.len() && s0[k] == x;
            assert(b@[k] == x);
        }
        assert(b@.contains(sub)) by {
            assert(b@[s0.len() as int] == sub);
        }
        assert(b@.to_set() =~= s0.to_set().insert(sub));
    }
    b
}

/// Add every subscription of `other` to a duplicate-free list: the result
/// holds the union of both.
pub(crate) fn subs_extend(s: Vec<Subscription>, other: Vec<Subscription>) -> (r: Vec<Subscription>)
    requires
        subs_distinct(s@),
    ensures
        subs_distinct(r@),
        r@.to_set() == s@.to_set().union(other@.to_set()),
{
    let mut b = s;
    let len = other.len();
    let mut i: usize = 0;
    while i < len
        invariant
            subs_distinct(b@),
            len == other@.len(),
            i <= len,
            b@.to_set() == s@.to_set().union(other@.take(i as int).to_set()),
        decreases len - i,
    {
        b = subs_insert(b, other[i]);
        proof {
            other@.lemma_take_succ_push(i as int);
            Seq::lemma_to_set_insert_commutes(other@.take(i as int), other@[i as int]);
            assert(other@.take(i as int).push(other@[i as int]) =~= other@.take(i as int)
                + seq![other@[i as int]]);
            assert(other@.take(i + 1).to_set() =~= other@.take(i as int).to_set().insert(
                other@[i as int],
            ));
            assert(b@.to_set() =~= s@.to_set().union(other@.take(i + 1).to_set()));
        }
        i = i + 1;
    }
    proof {
        assert(other@.take(len as int) =~= other@);
    }
    b
}

/// Builder for a [`GSIConfig`].
///
/// Every field left unset resolves to its documented default when the
/// descriptor is built.
#[derive(Debug, Clone)]
pub struct GSIConfigBuilder {
    /// The name of the service, used to derive the artifact's filename.
    pub service_name: String,
    /// The time the client waits for a response before treating an update as
    /// received.
    pub timeout: Option<Duration>,
    /// Minimum wait time collecting events before sending updates.
    pub buffer: Option<Duration>,
    /// Minimum wait between one update and the next.
    pub throttle: Option<Duration>,
    /// Time between updates even when nothing has changed.
    pub heartbeat: Option<Duration>,
    /// Authorization key/value pairs, each key at most once.
    pub auth: Vec<(String, String)>,
    /// Digits after the decimal point in time values.
    pub precision_time: Option<u8>,
    /// Digits after the decimal point in position values.
    pub precision_position: Option<u8>,
    /// Digits after the decimal point in vector values.
    pub precision_vector: Option<u8>,
    /// The chosen subscriptions, each at most once.
    pub subscriptions: Vec<Subscription>,
}

impl GSIConfigBuilder {
    /// The builder's internal invariant: no duplicate auth keys, no duplicate
    /// subscriptions.
    pub open spec fn wf(&self) -> bool {
        auth_keys_distinct(self.auth@) && subs_distinct(self.subscriptions@)
    }

    /// Construct a new config builder seeded with the service name and no
    /// other field set.
    pub fn new(service_name: String) -> (b: Self)
        ensures
            b.service_name == service_name,
            b.timeout is None,
            b.buffer is None,
            b.throttle is None,
            b.heartbeat is None,
            b.auth@ == Seq::<(String, String)>::empty(),
            b.precision_time is None,
            b.precision_position is None,
            b.precision_vector is None,
            b.subscriptions@ == Seq::<Subscription>::empty(),
            b.wf(),
    {
        GSIConfigBuilder {
            service_name,
            timeout: None,
            buffer: None,
            throttle: None,
            heartbeat: None,
            auth: Vec::new(),
            precision_time: None,
            precision_position: None,
            precision_vector: None,
            subscriptions: Vec::new(),
        }
    }

    /// Set the timeout for requests. Default is 1s.
    pub fn timeout(self, timeout: Duration) -> (b: Self)
        ensures
            b == (GSIConfigBuilder { timeout: Some(timeout), ..self }),
    {
        GSIConfigBuilder { timeout: Some(timeout), ..self }
    }

    /// Minimum wait time between sending updates. Default is 100ms.
    pub fn buffer(self, buffer: Duration) -> (b: Self)
        ensures
            b == (GSIConfigBuilder { buffer: Some(buffer), ..self }),
    {
        GSIConfigBuilder { buffer: Some(buffer), ..self }
    }

    /// Minimum wait between responding to one update and sending the next
    /// one. Default is 1s.
    pub fn throttle(self, throttle: Duration) -> (b: Self)
        ensures
            b == (GSIConfigBuilder { throttle: Some(throttle), ..self }),
    {
        GSIConfigBuilder { throttle: Some(throttle), ..self }
    }

    /// Minimum time between updates. Default is 30s.
    pub fn heartbeat(self, heartbeat: Duration) -> (b: Self)
        ensures
            b == (GSIConfigBuilder { heartbeat: Some(heartbeat), ..self }),
    {
        GSIConfigBuilder { heartbeat: Some(heartbeat), ..self }
    }

    /// Add an authorization key/value pair; adding the same key again
    /// replaces its value (the last write per key wins).
    pub fn auth(self, key: String, value: String) -> (b: Self)
        requires
            self.wf(),
        ensures
            b.wf(),
            b.service_name == self.service_name,
            b.timeout == self.timeout,
            b.buffer == self.buffer,
            b.throttle == self.throttle,
            b.heartbeat == self.heartbeat,
            b.precision_time == self.precision_time,
            b.precision_position == self.precision_position,
            b.precision_vector == self.precision_vector,
            b.subscriptions == self.subscriptions,
            !auth_has_key(self.auth@, key@) ==> b.auth@ == self.auth@.push((key, value)),
            auth_has_key(self.auth@, key@) ==> exists|i: int|
                0 <= i < self.auth@.len() && self.auth@[i].0@ == key@ && b.auth@
                    == self.auth@.update(i, (self.auth@[i].0, value)),
    {
        let GSIConfigBuilder {
            service_name,
            timeout,
            buffer,
            throttle,
            heartbeat,
            auth,
            precision_time,
            precision_position,
            precision_vector,
            subscriptions,
        } = self;
        let auth = auth_upsert(auth, key, value);
        GSIConfigBuilder {
            service_name,
            timeout,
            buffer,
            throttle,
            heartbeat,
            auth,
            precision_time,
            precision_position,
            precision_vector,
            subscriptions,
        }
    }

    /// Digits after the decimal point in time values. Default is 3.
    pub fn precision_time(self, precision_time: u8) -> (b: Self)
        ensures
            b == (GSIConfigBuilder { precision_time: Some(precision_time), ..self }),
    {
        GSIConfigBuilder { precision_time: Some(precision_time), ..self }
    }

    /// Digits after the decimal point in position values. Default is 3.
    pub fn precision_position(self, precision_position: u8) -> (b: Self)
        ensures
            b == (GSIConfigBuilder { precision_position: Some(precision_position), ..self }),
    {
        GSIConfigBuilder { precision_position: Some(precision_position), ..self }
    }

    /// Digits after the decimal point in vector values. Default is 3.
    pub fn precision_vector(self, precision_vector: u8) -> (b: Self)
        ensures
            b == (GSIConfigBuilder { precision_vector: Some(precision_vector), ..self }),
    {
        GSIConfigBuilder { precision_vector: Some(precision_vector), ..self }
    }

    /// Subscribe to a single category of state; subscribing twice to the same
    /// category is the same as subscribing once.
    pub fn subscribe(self, subscription: Subscription) -> (b: Self)
        requires
            self.wf(),
        ensures
            b.wf(),
            b.service_name == self.service_name,
            b.timeout == self.timeout,
            b.buffer == self.buffer,
            b.throttle == self.throttle,
            b.heartbeat == self.heartbeat,
            b.auth == self.auth,
            b.precision_time == self.precision_time,
            b.precision_position == self.precision_position,
            b.precision_vector == self.precision_vector,
            self.subscriptions@.contains(subscription) ==> b.subscriptions == self.subscriptions,
            !self.subscriptions@.contains(subscription) ==> b.subscriptions@
                == self.subscriptions@.push(subscription),
            b.subscriptions@.to_set() == self.subscriptions@.to_set().insert(subscription),
    {
        let GSIConfigBuilder {
            service_name,
            timeout,
            buffer,
            throttle,
            heartbeat,
            auth,
            precision_time,
            precision_position,
            precision_vector,
            subscriptions,
        } = self;
        let subscriptions = subs_insert(subscriptions, subscription);
        GSIConfigBuilder {
            service_name,
            timeout,
            buffer,
            throttle,
            heartbeat,
            auth,
            precision_time,
            precision_position,
            precision_vector,
            subscriptions,
        }
    }

    /// Subscribe to multiple categories of state at once; the subscription
    /// set grows by the union of the given categories.
    pub fn subscribe_multiple(self, subscriptions: Vec<Subscription>) -> (b: Self)
        requires
            self.wf(),
        ensures
            b.wf(),
            b.service_name == self.service_name,
            b.timeout == self.timeout,
            b.buffer == self.buffer,
            b.throttle == self.throttle,
            b.heartbeat == self.heartbeat,
            b.auth == self.auth,
            b.precision_time == self.precision_time,
            b.precision_position == self.precision_position,
            b.precision_vector == self.precision_vector,
            b.subscriptions@.to_set() == self.subscriptions@.to_set().union(
                subscriptions@.to_set(),
            ),
    {
        let chosen = subscriptions;
        let GSIConfigBuilder {
            service_name,
            timeout,
            buffer,
            throttle,
            heartbeat,
            auth,
            precision_time,
            precision_position,
            precision_vector,
            subscriptions,
        } = self;
        let subscriptions = subs_extend(subscriptions, chosen);
        GSIConfigBuilder {
            service_name,
            timeout,
            buffer,
            throttle,
            heartbeat,
            auth,
            precision_time,
            precision_position,
            precision_vector,
            subscriptions,
        }
    }

    /// Build the config: every unset field takes its documented default, and
    /// an empty subscription choice defaults to the unrestricted set.
    pub fn build(self) -> (c: GSIConfig)
        requires
            self.wf(),
        ensures
            c.wf(),
            c.service_name == self.service_name,
            c.timeout == self.timeout.unwrap_or(Duration { millis: 1000 }),
            c.buffer == self.buffer.unwrap_or(Duration { millis: 100 }),
            c.throttle == self.throttle.unwrap_or(Duration { millis: 1000 }),
            c.heartbeat == self.heartbeat.unwrap_or(Duration { millis: 30000 }),
            c.auth == self.auth,
            c.precision_time == self.precision_time.unwrap_or(3u8),
            c.precision_position == self.precision_position.unwrap_or(3u8),
            c.precision_vector == self.precision_vector.unwrap_or(3u8),
            self.subscriptions@.len() == 0 ==> c.subscriptions@ == unrestricted_seq(),
            self.subscriptions@.len() > 0 ==> c.subscriptions == self.subscriptions,
            self.subscriptions@.len() == 0 ==> c.subscriptions@.to_set() == unrestricted_set(),
            self.subscriptions@.len() > 0 ==> c.subscriptions@.to_set()
                == self.subscriptions@.to_set(),
    {
        let subscriptions = if self.subscriptions.len() == 0 {
            let v = Subscription::unrestricted();
            proof {
                assert(subs_distinct(v@));
            }
            v
        } else {
            self.subscriptions
        };
        GSIConfig {
            service_name: self.service_name,
            timeout: match self.timeout {
                Some(t) => t,
                None => Duration { millis: 1000 },
            },
            buffer: match self.buffer {
                Some(t) => t,
                None => Duration { millis: 100 },
            },
            throttle: match self.throttle {
                Some(t) => t,
                None => Duration { millis: 1000 },
            },
            heartbeat: match self.heartbeat {
                Some(t) => t,
                None => Duration { millis: 30000 },
            },
            auth: self.auth,
            precision_time: match self.precision_time {
                Some(p) => p,
                None => 3,
            },
            precision_position: match self.precision_position {
                Some(p) => p,
                None => 3,
            },
            precision_vector: match self.precision_vector {
                Some(p) => p,
                None => 3,
            },
            subscriptions,
        }
    }
}

/// The immutable config descriptor: every field is concrete, and the
/// serializer consumes it as-is.
#[derive(Debug, Clone)]
pub struct GSIConfig {
    /// The name of the service, used to derive the artifact's filename.
    pub service_name: String,
    /// The time the client waits for a response before treating an update as
    /// received.
    pub timeout: Duration,
    /// Minimum wait time collecting events before sending updates.
    pub buffer: Duration,
    /// Minimum wait between one update and the next.
    pub throttle: Duration,
    /// Time between updates even when nothing has changed.
    pub heartbeat: Duration,
    /// Authorization key/value pairs, each key at most once.
    pub auth: Vec<(String, String)>,
    /// Digits after the decimal point in time values.
    pub precision_time: u8,
    /// Digits after the decimal point in position values.
    pub precision_position: u8,
    /// Digits after the decimal point in vector values.
    pub precision_vector: u8,
    /// The subscription set, each subscription at most once.
    pub subscriptions: Vec<Subscription>,
}

impl GSIConfig {
    /// The descriptor's internal invariant: no duplicate auth keys, no
    /// duplicate subscriptions.
    pub open spec fn wf(&self) -> bool {
        auth_keys_distinct(self.auth@) && subs_distinct(self.subscriptions@)
    }

    /// The name of the file the artifact is written to.
    pub fn filename(&self) -> (r: String)
        ensures
            r@ == "gamestate_integration_"@ + self.service_name@ + ".cfg"@,
    {
        let mut r = String::new();
        r.append("gamestate_integration_");
        r.append(self.service_name.as_str());
        r.append(".cfg");
        proof {
            assert(r@ =~= "gamestate_integration_"@ + self.service_name@ + ".cfg"@);
        }
        r
    }
}

/// The precision block of the rendered artifact.
#[derive(Debug, Clone, Copy, PartialEq, Eq, Hash, Structural)]
pub struct Precision {
    /// Digits after the decimal point in time values.
    pub precision_time: u8,
    /// Digits after the decimal point in position values.
    pub precision_position: u8,
    /// Digits after the decimal point in vector values.
    pub precision_vector: u8,
}

/// The boolean block of the rendered artifact: one flag per subscription,
/// always all of them, so the client sees the complete schema.
#[derive(Debug, Clone, Copy, PartialEq, Eq, Hash, Structural)]
#[allow(missing_docs)]
pub struct Data {
    pub map_round_wins: bool,
    pub map: bool,
    pub player_id: bool,
    pub player_match_stats: bool,
    pub player_state: bool,
    pub player_weapons: bool,
    pub provider: bool,
    pub round: bool,
    pub allgrenades: bool,
    pub allplayers_id: bool,
    pub allplayers_match_stats: bool,
    pub allplayers_position: bool,
    pub allplayers_state: bool,
    pub allplayers_weapons: bool,
    pub bomb: bool,
    pub phase_countdowns: bool,
    pub player_position: bool,
}

/// The boolean block determined by a subscription set alone: each flag is
/// true exactly when the corresponding subscription is in the set, so the
/// block cannot depend on any order in which the set is walked.
pub open spec fn data_of(subs: Set<Subscription>) -> Data {
    Data {
        map_round_wins: subs.contains(Subscription::MapRoundWins),
        map: subs.contains(Subscription::MapInfo),
        player_id: subs.contains(Subscription::PlayerID),
        player_match_stats: subs.contains(Subscription::PlayerMatchStats),
        player_state: subs.contains(Subscription::PlayerState),
        player_weapons: subs.contains(Subscription::PlayerWeapons),
        provider: subs.contains(Subscription::Provider),
        round: subs.contains(Subscription::Round),
        allgrenades: subs.contains(Subscription::AllGrenades),
        allplayers_id: subs.contains(Subscription::AllPlayersID),
        allplayers_match_stats: subs.contains(Subscription::AllPlayersMatchStats),
        allplayers_position: subs.contains(Subscription::AllPlayersPosition),
        allplayers_state: subs.contains(Subscription::AllPlayersState),
        allplayers_weapons: subs.contains(Subscription::AllPlayersWeapons),
        bomb: subs.contains(Subscription::Bomb),
        phase_countdowns: subs.contains(Subscription::PhaseCountdowns),
        player_position: subs.contains(Subscription::PlayerPosition),
    }
}

/// The boolean block holds exactly one flag per subscription, and each flag
/// is true exactly when that subscription is in the set, whatever else the
/// set holds.
pub proof fn lemma_boolean_block_exact(subs: Set<Subscription>)
    ensures
        data_of(subs).map_round_wins == subs.contains(Subscription::MapRoundWins),
        data_of(subs).map == subs.contains(Subscription::MapInfo),
        data_of(subs).player_id == subs.contains(Subscription::PlayerID),
        data_of(subs).player_match_stats == subs.contains(Subscription::PlayerMatchStats),
        data_of(subs).player_state == subs.contains(Subscription::PlayerState),
        data_of(subs).player_weapons == subs.contains(Subscription::PlayerWeapons),
        data_of(subs).provider == subs.contains(Subscription::Provider),
        data_of(subs).round == subs.contains(Subscription::Round),
        data_of(subs).allgrenades == subs.contains(Subscription::AllGrenades),
        data_of(subs).allplayers_id == subs.contains(Subscription::AllPlayersID),
        data_of(subs).allplayers_match_stats == subs.contains(Subscription::AllPlayersMatchStats),
        data_of(subs).allplayers_position == subs.contains(Subscription::AllPlayersPosition),
        data_of(subs).allplayers_state == subs.contains(Subscription::AllPlayersState),
        data_of(subs).allplayers_weapons == subs.contains(Subscription::AllPlayersWeapons),
        data_of(subs).bomb == subs.contains(Subscription::Bomb),
        data_of(subs).phase_countdowns == subs.contains(Subscription::PhaseCountdowns),
        data_of(subs).player_position == subs.contains(Subscription::PlayerPosition),
{
}

/// The URI the client sends its updates to, for a given port.
pub open spec fn uri_of(port: nat) -> Seq<char> {
    "http://127.0.0.1:"@ + vdf::dec_rep(port)
}

/// One rendered auth line per key/value pair, in list order, keys and values
/// escaped.
pub open spec fn auth_lines(a: Seq<(String, String)>) -> Seq<char>
    decreases a.len(),
{
    if a.len() == 0 {
        Seq::empty()
    } else {
        auth_lines(a.drop_last()) + vdf::kv_line(
            seq!['\t', '\t'],
            vdf::escape_str(a.last().0@),
            vdf::escape_str(a.last().1@),
        )
    }
}

/// Whether the config file format can encode every string of the artifact.
pub open spec fn encodable_file(cf: ConfigFile) -> bool {
    &&& vdf::encodable(cf.title@)
    &&& vdf::encodable(cf.uri@)
    &&& forall|i: int|
        0 <= i < cf.auth@.len() ==> vdf::encodable((#[trigger] cf.auth@[i]).0@) && vdf::encodable(
            cf.auth@[i].1@,
        )
}

/// The artifact's opening: title line, opening brace, uri and the four
/// timing values as decimal seconds.
pub open spec fn header_spec(cf: ConfigFile) -> Seq<char> {
    vdf::quoted(cf.title@) + seq!['\n', '{', '\n'] + vdf::kv_line(
        seq!['\t'],
        "uri"@,
        vdf::escape_str(cf.uri@),
    ) + vdf::kv_line(seq!['\t'], "timeout"@, vdf::secs_rep(cf.timeout.millis as nat))
        + vdf::kv_line(seq!['\t'], "buffer"@, vdf::secs_rep(cf.buffer.millis as nat))
        + vdf::kv_line(seq!['\t'], "throttle"@, vdf::secs_rep(cf.throttle.millis as nat))
        + vdf::kv_line(seq!['\t'], "heartbeat"@, vdf::secs_rep(cf.heartbeat.millis as nat))
}

/// The artifact's auth block.
pub open spec fn auth_block_spec(a: Seq<(String, String)>) -> Seq<char> {
    vdf::block_open("auth"@) + auth_lines(a) + vdf::block_close()
}

/// The artifact's precision block.
pub open spec fn output_block_spec(p: Precision) -> Seq<char> {
    vdf::block_open("output"@) + vdf::kv_line(
        seq!['\t', '\t'],
        "precision_time"@,
        vdf::dec_rep(p.precision_time as nat),
    ) + vdf::kv_line(
        seq!['\t', '\t'],
        "precision_position"@,
        vdf::dec_rep(p.precision_position as nat),
    ) + vdf::kv_line(
        seq!['\t', '\t'],
        "precision_vector"@,
        vdf::dec_rep(p.precision_vector as nat),
    ) + vdf::block_close()
}

/// One line of the boolean block.
pub open spec fn flag_line(key: Seq<char>, b: bool) -> Seq<char> {
    vdf::kv_line("\t\t"@, key, vdf::bool_rep(b))
}

/// The first six lines of the boolean block.
pub open spec fn data_lines_a(d: Data) -> Seq<char> {
    flag_line("map_round_wins"@, d.map_round_wins) + flag_line("map"@, d.map) + flag_line(
        "player_id"@,
        d.player_id,
    ) + flag_line("player_match_stats"@, d.player_match_stats) + flag_line(
        "player_state"@,
        d.player_state,
    ) + flag_line("player_weapons"@, d.player_weapons)
}

/// The next six lines of the boolean block.
pub open spec fn data_lines_b(d: Data) -> Seq<char> {
    flag_line("provider"@, d.provider) + flag_line("round"@, d.round) + flag_line(
        "allgrenades"@,
        d.allgrenades,
    ) + flag_line("allplayers_id"@, d.allplayers_id) + flag_line(
        "allplayers_match_stats"@,
        d.allplayers_match_stats,
    ) + flag_line("allplayers_position"@, d.allplayers_position)
}

/// The last five lines of the boolean block.
pub open spec fn data_lines_c(d: Data) -> Seq<char> {
    flag_line("allplayers_state"@, d.allplayers_state) + flag_line(
        "allplayers_weapons"@,
        d.allplayers_weapons,
    ) + flag_line("bomb"@, d.bomb) + flag_line("phase_countdowns"@, d.phase_countdowns)
        + flag_line("player_position"@, d.player_position)
}

/// The artifact's boolean block, all subscription flags in their fixed order.
pub open spec fn data_block_spec(d: Data) -> Seq<char> {
    vdf::block_open("data"@) + data_lines_a(d) + data_lines_b(d) + data_lines_c(d)
        + vdf::block_close()
}

/// The full text of the rendered artifact.
pub open spec fn render_spec(cf: ConfigFile) -> Seq<char> {
    header_spec(cf) + auth_block_spec(cf.auth@) + output_block_spec(cf.output) + data_block_spec(
        cf.data,
    ) + seq!['}']
}

/// Two authorization lists with the same keys and values render the same
/// lines, whatever distinct string values carry them.
proof fn lemma_auth_lines_congruent(x: Seq<(String, String)>, y: Seq<(String, String)>)
    requires
        x.len() == y.len(),
        forall|i: int|
            0 <= i < x.len() ==> (#[trigger] x[i]).0@ == y[i].0@ && x[i].1@ == y[i].1@,
    ensures
        auth_lines(x) == auth_lines(y),
    decreases x.len(),
{
    if x.len() > 0 {
        lemma_auth_lines_congruent(x.drop_last(), y.drop_last());
    }
}

/// Rendering is deterministic: the artifact's text depends on nothing but
/// the content of the descriptor's strings, timings, precisions and flags,
/// so re-rendering the same descriptor yields a byte-identical artifact.
pub proof fn lemma_render_deterministic(a: ConfigFile, b: ConfigFile)
    requires
        a.title@ == b.title@,
        a.uri@ == b.uri@,
        a.timeout == b.timeout,
        a.buffer == b.buffer,
        a.throttle == b.throttle,
        a.heartbeat == b.heartbeat,
        a.auth@.len() == b.auth@.len(),
        forall|i: int|
            0 <= i < a.auth@.len() ==> (#[trigger] a.auth@[i]).0@ == b.auth@[i].0@ && a.auth@[i].1@
                == b.auth@[i].1@,
        a.output == b.output,
        a.data == b.data,
    ensures
        render_spec(a) == render_spec(b),
        encodable_file(a) == encodable_file(b),
{
    lemma_auth_lines_congruent(a.auth@, b.auth@);
    assert(header_spec(a) == header_spec(b));
    if encodable_file(a) {
        assert forall|i: int|
            0 <= i < b.auth@.len() implies vdf::encodable((#[trigger] b.auth@[i]).0@)
            && vdf::encodable(b.auth@[i].1@) by {
            assert(vdf::encodable(a.auth@[i].0@));
            assert(vdf::encodable(a.auth@[i].1@));
        }
        assert(encodable_file(b));
    }
    if encodable_file(b) {
        assert forall|i: int|
            0 <= i < a.auth@.len() implies vdf::encodable((#[trigger] a.auth@[i]).0@)
            && vdf::encodable(a.auth@[i].1@) by {
            assert(vdf::encodable(b.auth@[i].0@));
            assert(vdf::encodable(b.auth@[i].1@));
        }
        assert(encodable_file(a));
    }
}

/// The rendered config artifact, returned to the caller for inspection and
/// written to the client's config folder.
#[derive(Debug, Clone)]
pub struct ConfigFile {
    /// The title line of the artifact.
    pub title: String,
    /// Where the client sends its updates.
    pub uri: String,
    /// The time the client waits for a response before treating an update as
    /// received.
    pub timeout: Duration,
    /// Minimum wait time collecting events before sending updates.
    pub buffer: Duration,
    /// Minimum wait between one update and the next.
    pub throttle: Duration,
    /// Time between updates even when nothing has changed.
    pub heartbeat: Duration,
    /// Authorization key/value pairs.
    pub auth: Vec<(String, String)>,
    /// The precision block.
    pub output: Precision,
    /// The boolean block.
    pub data: Data,
}

/// Append the artifact's opening: title, opening brace, uri, timing values.
fn push_header(out: &mut String, cf: &ConfigFile)
    ensures
        final(out)@ == old(out)@ + header_spec(*cf),
{
    proof {
        reveal_strlit("\t");
        assert("\t"@ =~= seq!['\t']);
    }
    vdf::push_quoted_raw(out, cf.title.as_str());
    out.push('\n');
    out.push('{');
    out.push('\n');
    vdf::push_kv_str(out, "\t", "uri", cf.uri.as_str());
    vdf::push_kv_secs(out, "\t", "timeout", cf.timeout.millis);
    vdf::push_kv_secs(out, "\t", "buffer", cf.buffer.millis);
    vdf::push_kv_secs(out, "\t", "throttle", cf.throttle.millis);
    vdf::push_kv_secs(out, "\t", "heartbeat", cf.heartbeat.millis);
    proof {
        assert(final(out)@ =~= old(out)@ + header_spec(*cf));
    }
}

/// Append the artifact's auth block, one line per key/value pair.
fn push_auth_block(out: &mut String, auth: &Vec<(String, String)>)
    ensures
        final(out)@ == old(out)@ + auth_block_spec(auth@),
{
    vdf::push_block_open(out, "auth");
    let len = auth.len();
    let ghost pre = out@;
    let mut i: usize = 0;
    while i < len
        invariant
            len == auth@.len(),
            i <= len,
            out@ == pre + auth_lines(auth@.take(i as int)),
        decreases len - i,
    {
        vdf::push_kv_pair(out, "\t\t", auth[i].0.as_str(), auth[i].1.as_str());
        proof {
            reveal_strlit("\t\t");
            assert("\t\t"@ =~= seq!['\t', '\t']);
            assert(auth@.take(i + 1).drop_last() =~= auth@.take(i as int));
            assert(auth@.take(i + 1).last() == auth@[i as int]);
            assert(out@ =~= pre + auth_lines(auth@.take(i + 1)));
        }
        i = i + 1;
    }
    proof {
        auth@.lemma_take_len();
    }
    vdf::push_block_close(out);
    proof {
        assert(final(out)@ =~= old(out)@ + auth_block_spec(auth@));
    }
}

/// Append the artifact's precision block.
fn push_output_block(out: &mut String, p: &Precision)
    ensures
        final(out)@ == old(out)@ + output_block_spec(*p),
{
    vdf::push_block_open(out, "output");
    vdf::push_kv_u64(out, "\t\t", "precision_time", p.precision_time as u64);
    vdf::push_kv_u64(out, "\t\t", "precision_position", p.precision_position as u64);
    vdf::push_kv_u64(out, "\t\t", "precision_vector", p.precision_vector as u64);
    vdf::push_block_close(out);
    proof {
        reveal_strlit("\t\t");
        assert("\t\t"@ =~= seq!['\t', '\t']);
        assert(final(out)@ =~= old(out)@ + output_block_spec(*p));
    }
}

/// Append the first six lines of the boolean block.
fn push_data_lines_a(out: &mut String, d: &Data)
    ensures
        final(out)@ == old(out)@ + data_lines_a(*d),
{
    let ghost o = out@;
    vdf::push_kv_bool(out, "\t\t", "map_round_wins", d.map_round_wins);
    let ghost mut p = flag_line("map_round_wins"@, d.map_round_wins);
    vdf::push_kv_bool(out, "\t\t", "map", d.map);
    proof {
        let c = flag_line("map"@, d.map);
        vdf::lemma_concat_shift(o, p, c);
        p = p + c;
    }
    vdf::push_kv_bool(out, "\t\t", "player_id", d.player_id);
    proof {
        let c = flag_line("player_id"@, d.player_id);
        vdf::lemma_concat_shift(o, p, c);
        p = p + c;
    }
    vdf::push_kv_bool(out, "\t\t", "player_match_stats", d.player_match_stats);
    proof {
        let c = flag_line("player_match_stats"@, d.player_match_stats);
        vdf::lemma_concat_shift(o, p, c);
        p = p + c;
    }
    vdf::push_kv_bool(out, "\t\t", "player_state", d.player_state);
    proof {
        let c = flag_line("player_state"@, d.player_state);
        vdf::lemma_concat_shift(o, p, c);
        p = p + c;
    }
    vdf::push_kv_bool(out, "\t\t", "player_weapons", d.player_weapons);
    proof {
        let c = flag_line("player_weapons"@, d.player_weapons);
        vdf::lemma_concat_shift(o, p, c);
        p = p + c;
    }
    proof {
        assert(p == data_lines_a(*d));
    }
}

/// Append the next six lines of the boolean block.
fn push_data_lines_b(out: &mut String, d: &Data)
    ensures
        final(out)@ == old(out)@ + data_lines_b(*d),
{
    let ghost o = out@;
    vdf::push_kv_bool(out, "\t\t", "provider", d.provider);
    let ghost mut p = flag_line("provider"@, d.provider);
    vdf::push_kv_bool(out, "\t\t", "round", d.round);
    proof {
        let c = flag_line("round"@, d.round);
        vdf::lemma_concat_shift(o, p, c);
        p = p + c;
    }
    vdf::push_kv_bool(out, "\t\t", "allgrenades", d.allgrenades);
    proof {
        let c = flag_line("allgrenades"@, d.allgrenades);
        vdf::lemma_concat_shift(o, p, c);
        p = p + c;
    }
    vdf::push_kv_bool(out, "\t\t", "allplayers_id", d.allplayers_id);
    proof {
        let c = flag_line("allplayers_id"@, d.allplayers_id);
        vdf::lemma_concat_shift(o, p, c);
        p = p + c;
    }
    vdf::push_kv_bool(out, "\t\t", "allplayers_match_stats", d.allplayers_match_stats);
    proof {
        let c = flag_line("allplayers_match_stats"@, d.allplayers_match_stats);
        vdf::lemma_concat_shift(o, p, c);
        p = p + c;
    }
    vdf::push_kv_bool(out, "\t\t", "allplayers_position", d.allplayers_position);
    proof {
        let c = flag_line("allplayers_position"@, d.allplayers_position);
        vdf::lemma_concat_shift(o, p, c);
        p = p + c;
    }
    proof {
        assert(p == data_lines_b(*d));
    }
}

/// Append the last five lines of the boolean block.
fn push_data_lines_c(out: &mut String, d: &Data)
    ensures
        final(out)@ == old(out)@ + data_lines_c(*d),
{
    let ghost o = out@;
    vdf::push_kv_bool(out, "\t\t", "allplayers_state", d.allplayers_state);
    let ghost mut p = flag_line("allplayers_state"@, d.allplayers_state);
    vdf::push_kv_bool(out, "\t\t", "allplayers_weapons", d.allplayers_weapons);
    proof {
        let c = flag_line("allplayers_weapons"@, d.allplayers_weapons);
        vdf::lemma_concat_shift(o, p, c);
        p = p + c;
    }
    vdf::push_kv_bool(out, "\t\t", "bomb", d.bomb);
    proof {
        let c = flag_line("bomb"@, d.bomb);
        vdf::lemma_concat_shift(o, p, c);
        p = p + c;
    }
    vdf::push_kv_bool(out, "\t\t", "phase_countdowns", d.phase_countdowns);
    proof {
        let c = flag_line("phase_countdowns"@, d.phase_countdowns);
        vdf::lemma_concat_shift(o, p, c);
        p = p + c;
    }
    vdf::push_kv_bool(out, "\t\t", "player_position", d.player_position);
    proof {
        let c = flag_line("player_position"@, d.player_position);
        vdf::lemma_concat_shift(o, p, c);
        p = p + c;
    }
    proof {
        assert(p == data_lines_c(*d));
    }
}

/// Append the artifact's boolean block, all flags in their fixed order.
fn push_data_block(out: &mut String, d: &Data)
    ensures
        final(out)@ == old(out)@ + data_block_spec(*d),
{
    vdf::push_block_open(out, "data");
    push_data_lines_a(out, d);
    push_data_lines_b(out, d);
    push_data_lines_c(out, d);
    vdf::push_block_close(out);
    proof {
        assert(final(out)@ =~= old(out)@ + data_block_spec(*d));
    }
}

/// Copy an authorization list pair by pair.
pub(crate) fn clone_auth(a: &Vec<(String, String)>) -> (r: Vec<(String, String)>)
    ensures
        r@ == a@,
{
    let mut r: Vec<(String, String)> = Vec::new();
    let len = a.len();
    let mut i: usize = 0;
    while i < len
        invariant
            len == a@.len(),
            i <= len,
            r@ == a@.take(i as int),
        decreases len - i,
    {
        r.push((a[i].0.clone(), a[i].1.clone()));
        proof {
            a@.lemma_take_succ_push(i as int);
        }
        i = i + 1;
    }
    proof {
        a@.lemma_take_len();
    }
    r
}

/// Whether a subscription list holds the given subscription.
pub(crate) fn subs_contain(subs: &Vec<Subscription>, s: Subscription) -> (b: bool)
    ensures
        b == subs@.to_set().contains(s),
{
    let len = subs.len();
    let mut i: usize = 0;
    while i < len
        invariant
            len == subs@.len(),
            i <= len,
            forall|j: int| 0 <= j < i ==> subs@[j] != s,
        decreases len - i,
    {
        if subs[i] == s {
            proof {
                assert(subs@.contains(s)) by {
                    assert(subs@[i as int] == s);
                }
            }
            return true;
        }
        i = i + 1;
    }
    proof {
        assert(!subs@.contains(s));
    }
    false
}

impl ConfigFile {
    /// Compute the rendered artifact for a descriptor and the port the
    /// service listens on.
    pub fn new(config: &GSIConfig, port: u16) -> (r: Self)
        ensures
            r.title@ == "Auto-generated by csgo_gsi."@,
            r.uri@ == uri_of(port as nat),
            r.timeout == config.timeout,
            r.buffer == config.buffer,
            r.throttle == config.throttle,
            r.heartbeat == config.heartbeat,
            r.auth@ == config.auth@,
            r.output == (Precision {
                precision_time: config.precision_time,
                precision_position: config.precision_position,
                precision_vector: config.precision_vector,
            }),
            r.data == data_of(config.subscriptions@.to_set()),
    {
        let mut uri = String::new();
        uri.append("http://127.0.0.1:");
        vdf::push_u64(&mut uri, port as u64);
        proof {
            assert(uri@ =~= uri_of(port as nat));
        }
        let subs = &config.subscriptions;
        ConfigFile {
            title: "Auto-generated by csgo_gsi.".to_owned(),
            uri,
            timeout: config.timeout,
            buffer: config.buffer,
            throttle: config.throttle,
            heartbeat: config.heartbeat,
            auth: clone_auth(&config.auth),
            output: Precision {
                precision_time: config.precision_time,
                precision_position: config.precision_position,
                precision_vector: config.precision_vector,
            },
            data: Data {
                map_round_wins: subs_contain(subs, Subscription::MapRoundWins),
                map: subs_contain(subs, Subscription::MapInfo),
                player_id: subs_contain(subs, Subscription::PlayerID),
                player_match_stats: subs_contain(subs, Subscription::PlayerMatchStats),
                player_state: subs_contain(subs, Subscription::PlayerState),
                player_weapons: subs_contain(subs, Subscription::PlayerWeapons),
                provider: subs_contain(subs, Subscription::Provider),
                round: subs_contain(subs, Subscription::Round),
                allgrenades: subs_contain(subs, Subscription::AllGrenades),
                allplayers_id: subs_contain(subs, Subscription::AllPlayersID),
                allplayers_match_stats: subs_contain(subs, Subscription::AllPlayersMatchStats),
                allplayers_position: subs_contain(subs, Subscription::AllPlayersPosition),
                allplayers_state: subs_contain(subs, Subscription::AllPlayersState),
                allplayers_weapons: subs_contain(subs, Subscription::AllPlayersWeapons),
                bomb: subs_contain(subs, Subscription::Bomb),
                phase_countdowns: subs_contain(subs, Subscription::PhaseCountdowns),
                player_position: subs_contain(subs, Subscription::PlayerPosition),
            },
        }
    }

    /// Render the artifact into the client's key/value config file format.
    ///
    /// Succeeds exactly when every string of the artifact can be encoded;
    /// otherwise nothing is rendered and the serialization failure is
    /// reported.
    pub fn render(&self) -> (r: Result<String, Error>)
        ensures
            r is Ok <==> encodable_file(*self),
            r matches Ok(text) ==> text@ == render_spec(*self),
            r matches Err(e) ==> e matches Error::SerializeConfig(m) && m@
                == "a config value holds a character the config file format cannot encode"@,
    {
        if !self.encodable() {
            return Err(
                Error::SerializeConfig(
                    String::from_str(
                        "a config value holds a character the config file format cannot encode",
                    ),
                ),
            );
        }
        let mut out = String::new();
        push_header(&mut out, self);
        push_auth_block(&mut out, &self.auth);
        push_output_block(&mut out, &self.output);
        push_data_block(&mut out, &self.data);
        out.push('}');
        proof {
            assert(out@ =~= render_spec(*self));
        }
        Ok(out)
    }

    /// Whether the config file format can encode every string of this
    /// artifact.
    pub fn encodable(&self) -> (b: bool)
        ensures
            b == encodable_file(*self),
    {
        if !vdf::str_encodable(self.title.as_str()) {
            return false;
        }
        if !vdf::str_encodable(self.uri.as_str()) {
            return false;
        }
        let len = self.auth.len();
        let mut i: usize = 0;
        while i < len
            invariant
                len == self.auth@.len(),
                i <= len,
                forall|j: int|
                    0 <= j < i ==> vdf::encodable((#[trigger] self.auth@[j]).0@) && vdf::encodable(
                        self.auth@[j].1@,
                    ),
            decreases len - i,
        {
            if !vdf::str_encodable(self.auth[i].0.as_str()) {
                return false;
            }
            if !vdf::str_encodable(self.auth[i].1.as_str()) {
                return false;
            }
            proof {
                assert(vdf::encodable(self.auth@[i as int].0@));
                assert(vdf::encodable(self.auth@[i as int].1@));
                assert forall|j: int|
                    0 <= j < i + 1 implies vdf::encodable((#[trigger] self.auth@[j]).0@)
                    && vdf::encodable(self.auth@[j].1@) by {
                    if j == i as int {
                        assert(vdf::encodable(self.auth@[j].0@));
                        assert(vdf::encodable(self.auth@[j].1@));
                    }
                }
            }
            i = i + 1;
        }
        proof {
            assert(vdf::encodable(self.title@));
            assert(vdf::encodable(self.uri@));
            assert(encodable_file(*self));
        }
        true
    }
}

} // verus!
