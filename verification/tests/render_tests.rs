use csgo_gsi::ConfigFile;
use csgo_gsi::Duration;
use csgo_gsi::Error;
use csgo_gsi::GSIConfigBuilder;
use csgo_gsi::Subscription;
use csgo_gsi::server::Config;

fn testbot_artifact() -> ConfigFile {
    let config = GSIConfigBuilder::new(String::from("testbot"))
        .subscribe(Subscription::MapInfo)
        .subscribe(Subscription::Round)
        .build();
    ConfigFile::new(&config, 4000u16)
}

#[test]
fn artifact_uri_names_loopback_and_port() {
    let artifact = testbot_artifact();
    assert_eq!(artifact.uri, String::from("http://127.0.0.1:4000"));
}

#[test]
fn boolean_block_reflects_the_subscription_set() {
    let data = testbot_artifact().data;
    assert!(data.map);
    assert!(data.round);
    assert!(!data.map_round_wins);
    assert!(!data.player_id);
    assert!(!data.player_match_stats);
    assert!(!data.player_state);
    assert!(!data.player_weapons);
    assert!(!data.provider);
    assert!(!data.allgrenades);
    assert!(!data.allplayers_id);
    assert!(!data.allplayers_match_stats);
    assert!(!data.allplayers_position);
    assert!(!data.allplayers_state);
    assert!(!data.allplayers_weapons);
    assert!(!data.bomb);
    assert!(!data.phase_countdowns);
    assert!(!data.player_position);
}

#[test]
fn boolean_block_ignores_subscription_order() {
    let forward = GSIConfigBuilder::new(String::from("svc"))
        .subscribe(Subscription::MapInfo)
        .subscribe(Subscription::Round)
        .build();
    let backward = GSIConfigBuilder::new(String::from("svc"))
        .subscribe(Subscription::Round)
        .subscribe(Subscription::MapInfo)
        .build();
    let a = ConfigFile::new(&forward, 4000u16);
    let b = ConfigFile::new(&backward, 4000u16);
    assert_eq!(a.data, b.data);
}

#[test]
fn rendered_artifact_matches_the_format_exactly() {
    let artifact = testbot_artifact();
    let text = artifact.render().unwrap();
    let expected = "\"Auto-generated by csgo_gsi.\"\n{\n\t\"uri\"\t\"http://127.0.0.1:4000\"\n\t\"timeout\"\t\"1\"\n\t\"buffer\"\t\"0.1\"\n\t\"throttle\"\t\"1\"\n\t\"heartbeat\"\t\"30\"\n\t\"auth\"\n\t{\n\t}\n\t\"output\"\n\t{\n\t\t\"precision_time\"\t\"3\"\n\t\t\"precision_position\"\t\"3\"\n\t\t\"precision_vector\"\t\"3\"\n\t}\n\t\"data\"\n\t{\n\t\t\"map_round_wins\"\t\"0\"\n\t\t\"map\"\t\"1\"\n\t\t\"player_id\"\t\"0\"\n\t\t\"player_match_stats\"\t\"0\"\n\t\t\"player_state\"\t\"0\"\n\t\t\"player_weapons\"\t\"0\"\n\t\t\"provider\"\t\"0\"\n\t\t\"round\"\t\"1\"\n\t\t\"allgrenades\"\t\"0\"\n\t\t\"allplayers_id\"\t\"0\"\n\t\t\"allplayers_match_stats\"\t\"0\"\n\t\t\"allplayers_position\"\t\"0\"\n\t\t\"allplayers_state\"\t\"0\"\n\t\t\"allplayers_weapons\"\t\"0\"\n\t\t\"bomb\"\t\"0\"\n\t\t\"phase_countdowns\"\t\"0\"\n\t\t\"player_position\"\t\"0\"\n\t}\n}";
    assert_eq!(text, String::from(expected));
}

#[test]
fn rendering_twice_is_byte_identical() {
    let artifact = testbot_artifact();
    let first = artifact.render().unwrap();
    let second = artifact.render().unwrap();
    assert_eq!(first, second);
    let again = testbot_artifact().render().unwrap();
    assert_eq!(first, again);
}

#[test]
fn durations_render_as_decimal_seconds() {
    let config = GSIConfigBuilder::new(String::from("svc"))
        .timeout(Duration::from_millis(1500))
        .buffer(Duration::from_millis(1234))
        .throttle(Duration::from_millis(5))
        .heartbeat(Duration::from_millis(61000))
        .build();
    let text = ConfigFile::new(&config, 1u16).render().unwrap();
    assert!(text.contains("\t\"timeout\"\t\"1.5\"\n"));
    assert!(text.contains("\t\"buffer\"\t\"1.234\"\n"));
    assert!(text.contains("\t\"throttle\"\t\"0.005\"\n"));
    assert!(text.contains("\t\"heartbeat\"\t\"61\"\n"));
}

#[test]
fn zero_duration_renders_as_zero_seconds() {
    let config = GSIConfigBuilder::new(String::from("svc"))
        .buffer(Duration::from_millis(0))
        .build();
    let text = ConfigFile::new(&config, 1u16).render().unwrap();
    assert!(text.contains("\t\"buffer\"\t\"0\"\n"));
}

#[test]
fn auth_pairs_render_inside_the_auth_block() {
    let config = GSIConfigBuilder::new(String::from("svc"))
        .auth(String::from("token"), String::from("abc123"))
        .build();
    let text = ConfigFile::new(&config, 1u16).render().unwrap();
    assert!(text.contains("\t\"auth\"\n\t{\n\t\t\"token\"\t\"abc123\"\n\t}\n"));
}

#[test]
fn quotes_and_backslashes_are_escaped() {
    let config = GSIConfigBuilder::new(String::from("svc"))
        .auth(String::from("key"), String::from("a\"b\\c"))
        .build();
    let text = ConfigFile::new(&config, 1u16).render().unwrap();
    assert!(text.contains("\t\t\"key\"\t\"a\\\"b\\\\c\"\n"));
}

#[test]
fn newline_and_tab_values_are_escaped() {
    let config = GSIConfigBuilder::new(String::from("svc"))
        .auth(String::from("key"), String::from("a\nb\tc"))
        .build();
    let text = ConfigFile::new(&config, 1u16).render().unwrap();
    assert!(text.contains("\t\t\"key\"\t\"a\\nb\\tc\"\n"));
}

#[test]
fn unencodable_value_fails_serialization() {
    let config = GSIConfigBuilder::new(String::from("svc"))
        .auth(String::from("key"), String::from("bad\u{1}value"))
        .build();
    let artifact = ConfigFile::new(&config, 1u16);
    let result = artifact.render();
    assert!(matches!(result, Err(Error::SerializeConfig(_))));
}

#[test]
fn server_config_artifact_carries_its_own_title() {
    let config = Config::builder()
        .subscribe(Subscription::MapInfo)
        .subscribe(Subscription::Round)
        .build(String::from("testbot"), 4000u16);
    let artifact = config.artifact();
    assert_eq!(artifact.uri, String::from("http://127.0.0.1:4000"));
    assert!(artifact.data.map);
    assert!(artifact.data.round);
    assert!(!artifact.data.bomb);
    let text = artifact.render().unwrap();
    assert!(
        text.starts_with("\"This file has been generated automatically. Do not edit.\"\n{\n")
    );
}
