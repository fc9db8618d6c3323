//! Game-state-integration support for a game client's "state push" feature.
//!
//! The library builds the configuration descriptor the client reads, renders
//! it into the client's key/value config format, and distributes received
//! state events to any number of independent subscribers through a bounded
//! broadcast hub.

mod config;
/// The game-specific state types carried by an event.
pub mod csgo;
mod duration;
mod error;
/// The event envelope delivered to subscribers.
pub mod event;
mod hub;
/// The server side: its config descriptor, the ingestion decision, and the
/// server's installation state.
pub mod server;
mod vdf;

pub use config::ConfigFile;
pub use config::GSIConfig;
pub use config::GSIConfigBuilder;
pub use config::Subscription;
pub use csgo::Event;
pub use duration::Duration;
pub use error::Error;
pub use hub::Hub;
pub use hub::HubState;
pub use hub::HubView;
pub use hub::ReadOutcome;
pub use hub::SubscriberHandle;
pub use server::Config;
pub use server::GSIServer;

