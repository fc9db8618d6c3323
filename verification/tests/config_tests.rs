use csgo_gsi::Duration;
use csgo_gsi::GSIConfigBuilder;
use csgo_gsi::Subscription;
use csgo_gsi::server::Config;

fn unrestricted() -> Vec<Subscription> {
    vec![
        Subscription::MapRoundWins,
        Subscription::MapInfo,
        Subscription::PlayerID,
        Subscription::PlayerMatchStats,
        Subscription::PlayerState,
        Subscription::PlayerWeapons,
        Subscription::Provider,
        Subscription::Round,
    ]
}

#[test]
fn build_without_subscriptions_defaults_to_unrestricted() {
    let config = GSIConfigBuilder::new(String::from("svc")).build();
    assert_eq!(config.subscriptions, unrestricted());
}

#[test]
fn server_build_without_subscriptions_defaults_to_unrestricted() {
    let config = Config::builder().build(String::from("svc"), 3000u16);
    assert_eq!(config.subscriptions, unrestricted());
}

#[test]
fn build_applies_documented_defaults() {
    let config = GSIConfigBuilder::new(String::from("svc")).build();
    assert_eq!(config.timeout, Duration::from_millis(1000));
    assert_eq!(config.buffer, Duration::from_millis(100));
    assert_eq!(config.throttle, Duration::from_millis(1000));
    assert_eq!(config.heartbeat, Duration::from_millis(30000));
    assert_eq!(config.precision_time, 3u8);
    assert_eq!(config.precision_position, 3u8);
    assert_eq!(config.precision_vector, 3u8);
    assert!(config.auth.is_empty());
}

#[test]
fn server_build_applies_documented_defaults() {
    let config = Config::builder().build(String::from("svc"), 3000u16);
    assert_eq!(config.timeout, Duration::from_millis(1000));
    assert_eq!(config.buffer, Duration::from_millis(100));
    assert_eq!(config.throttle, Duration::from_millis(1000));
    assert_eq!(config.heartbeat, Duration::from_millis(60000));
    assert_eq!(config.precision_time, 3u8);
    assert_eq!(config.service_name, String::from("svc"));
    assert_eq!(config.service_port, 3000u16);
    assert!(config.auth.is_empty());
}

#[test]
fn build_keeps_explicit_settings() {
    let config = GSIConfigBuilder::new(String::from("svc"))
        .timeout(Duration::from_millis(250))
        .buffer(Duration::from_millis(50))
        .throttle(Duration::from_millis(2000))
        .heartbeat(Duration::from_secs(5))
        .precision_time(1)
        .precision_position(2)
        .precision_vector(4)
        .build();
    assert_eq!(config.timeout, Duration::from_millis(250));
    assert_eq!(config.buffer, Duration::from_millis(50));
    assert_eq!(config.throttle, Duration::from_millis(2000));
    assert_eq!(config.heartbeat, Duration::from_millis(5000));
    assert_eq!(config.precision_time, 1u8);
    assert_eq!(config.precision_position, 2u8);
    assert_eq!(config.precision_vector, 4u8);
}

#[test]
fn auth_last_write_per_key_wins() {
    let config = GSIConfigBuilder::new(String::from("svc"))
        .auth(String::from("token"), String::from("first"))
        .auth(String::from("token"), String::from("second"))
        .build();
    assert_eq!(config.auth, vec![(String::from("token"), String::from("second"))]);
}

#[test]
fn auth_keeps_distinct_keys_in_insertion_order() {
    let config = GSIConfigBuilder::new(String::from("svc"))
        .auth(String::from("a"), String::from("1"))
        .auth(String::from("b"), String::from("2"))
        .auth(String::from("a"), String::from("3"))
        .build();
    assert_eq!(
        config.auth,
        vec![(String::from("a"), String::from("3")), (String::from("b"), String::from("2"))]
    );
}

#[test]
fn subscribe_collapses_duplicates() {
    let config = GSIConfigBuilder::new(String::from("svc"))
        .subscribe(Subscription::Bomb)
        .subscribe(Subscription::Bomb)
        .build();
    assert_eq!(config.subscriptions, vec![Subscription::Bomb]);
}

#[test]
fn subscribe_multiple_takes_the_union() {
    let config = GSIConfigBuilder::new(String::from("svc"))
        .subscribe(Subscription::Bomb)
        .subscribe_multiple(vec![Subscription::Bomb, Subscription::MapInfo, Subscription::Round])
        .build();
    assert_eq!(
        config.subscriptions,
        vec![Subscription::Bomb, Subscription::MapInfo, Subscription::Round]
    );
}

#[test]
fn server_builder_collapses_duplicates_and_unions() {
    let config = Config::builder()
        .subscribe(Subscription::PhaseCountdowns)
        .subscribe_multiple(vec![Subscription::PhaseCountdowns, Subscription::Bomb])
        .build(String::from("svc"), 4000u16);
    assert_eq!(config.subscriptions, vec![Subscription::PhaseCountdowns, Subscription::Bomb]);
}

#[test]
fn server_builder_auth_last_write_wins() {
    let config = Config::builder()
        .auth(String::from("token"), String::from("first"))
        .auth(String::from("token"), String::from("second"))
        .build(String::from("svc"), 4000u16);
    assert_eq!(config.auth, vec![(String::from("token"), String::from("second"))]);
}

#[test]
fn filename_derives_from_service_name() {
    let config = GSIConfigBuilder::new(String::from("testbot")).build();
    assert_eq!(config.filename(), String::from("gamestate_integration_testbot.cfg"));
    let server_config = Config::builder().build(String::from("testbot"), 4000u16);
    assert_eq!(server_config.filename(), String::from("gamestate_integration_testbot.cfg"));
}

#[test]
fn error_messages_describe_the_failure() {
    let err = csgo_gsi::Error::NoCfgDir;
    assert_eq!(err.message(), String::from("Failed to find the game's config folder"));
    let err = csgo_gsi::Error::SaveConfig(String::from("denied"));
    assert_eq!(err.message(), String::from("Failed to save config file to disk: denied"));
}

#[test]
fn duration_constructors_agree() {
    assert_eq!(Duration::from_secs(2), Duration::from_millis(2000));
    assert_eq!(Duration::from_millis(5).as_millis(), 5u64);
}
