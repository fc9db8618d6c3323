//! The server side: the descriptor the server installs, the decision the
//! ingestion endpoint takes for each request, and the installation state of
//! the server.
//!
//! Listening on a socket, decoding request bodies and waking waiting
//! subscribers are the embedding program's business; everything that decides
//! or computes lives here, as plain functions over plain values.

use vstd::prelude::*;

mod config;

pub use config::Config;
pub use config::ConfigBuilder;
pub use crate::config::ConfigFile;
pub use crate::config::Subscription;

use crate::config::GSIConfig;
use crate::csgo::Event;
use crate::hub::spec_publish;
use crate::hub::Hub;
use crate::hub::HubState;

verus! {

/// The status code replied to a well-formed request.
pub const STATUS_OK: u16 = 200;

/// The status code replied when the request body cannot be decoded.
pub const STATUS_BAD_REQUEST: u16 = 400;

/// The ingestion endpoint's decision for one request, given the outcome of
/// decoding its body.
///
/// A decoded event is published to the hub and the request is answered with
/// success, whether or not anyone is subscribed — a broadcast to no one is a
/// no-op, not a failure. A body that could not be decoded is answered with a
/// client error and leaves the hub exactly as it was, so no subscriber can
/// ever observe an event for it.
pub fn handle_update(hub: &mut Hub, decoded: Option<Event>) -> (status: u16)
    requires
        old(hub)@.wf(),
        old(hub)@.total() < u64::MAX,
    ensures
        final(hub)@.wf(),
        decoded is None ==> final(hub)@ == old(hub)@ && status == STATUS_BAD_REQUEST,
        decoded is Some ==> status == STATUS_OK,
        decoded matches Some(e) ==> (old(hub)@.state == HubState::Running ==> final(hub)@
            == spec_publish(old(hub)@, e)),
        decoded is Some && old(hub)@.state != HubState::Running ==> final(hub)@ == old(hub)@,
{
    match decoded {
        None => STATUS_BAD_REQUEST,
        Some(event) => {
            let _ = hub.publish(event);
            STATUS_OK
        },
    }
}

/// The server holding a descriptor for the game client, with an explicit
/// installation state: the artifact is installed at most once, checked
/// before every install attempt.
#[derive(Debug)]
pub struct GSIServer {
    /// The port to listen on.
    pub port: u16,
    /// The config to install for the game client.
    pub config: GSIConfig,
    /// Whether the server's config artifact is already in place.
    pub installed: bool,
}

impl GSIServer {
    /// Create a new server, not yet installed.
    pub fn new(config: GSIConfig, port: u16) -> (s: Self)
        ensures
            s.config == config,
            s.port == port,
            !s.installed,
    {
        GSIServer { port, config, installed: false }
    }

    /// Whether an install attempt still has work to do.
    pub fn needs_install(&self) -> (b: bool)
        ensures
            b == !self.installed,
    {
        !self.installed
    }

    /// The artifact an install writes for this server.
    pub fn install_artifact(&self) -> (r: ConfigFile)
        ensures
            r.title@ == "Auto-generated by csgo_gsi."@,
            r.uri@ == crate::config::uri_of(self.port as nat),
            r.timeout == self.config.timeout,
            r.buffer == self.config.buffer,
            r.throttle == self.config.throttle,
            r.heartbeat == self.config.heartbeat,
            r.auth@ == self.config.auth@,
            r.output == (crate::config::Precision {
                precision_time: self.config.precision_time,
                precision_position: self.config.precision_position,
                precision_vector: self.config.precision_vector,
            }),
            r.data == crate::config::data_of(self.config.subscriptions@.to_set()),
    {
        ConfigFile::new(&self.config, self.port)
    }

    /// Record that the artifact is in place, so that no further install
    /// attempt rewrites it.
    pub fn mark_installed(&mut self)
        ensures
            *final(self) == (GSIServer { installed: true, ..*old(self) }),
    {
        self.installed = true;
    }
}

} // verus!
