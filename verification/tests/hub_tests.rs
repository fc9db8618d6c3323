use std::collections::HashMap;

use csgo_gsi::csgo::GameInfo;
use csgo_gsi::server::handle_update;
use csgo_gsi::Event;
use csgo_gsi::Hub;
use csgo_gsi::HubState;
use csgo_gsi::ReadOutcome;

fn event(name: &str) -> Event {
    Event {
        provider: Some(GameInfo {
            name: String::from(name),
            app_id: 730,
            version: 1,
            steam_id: String::from("76561199000000000"),
            timestamp: 0,
        }),
        auth: HashMap::new(),
        player: None,
        map: None,
        round: None,
    }
}

fn running_hub(capacity: usize) -> Hub {
    let mut hub = Hub::new(capacity);
    hub.start();
    hub
}

#[test]
fn publishing_n_events_delivers_them_in_order() {
    let mut hub = running_hub(3);
    let mut sub = hub.subscribe();
    let events = vec![event("a"), event("b"), event("c")];
    for e in &events {
        assert!(hub.publish(e.clone()));
    }
    for expected in &events {
        match hub.try_read(&mut sub) {
            ReadOutcome::Received(e) => assert_eq!(e, expected),
            _ => panic!("expected an event"),
        }
    }
    assert!(matches!(hub.try_read(&mut sub), ReadOutcome::Empty));
}

#[test]
fn late_subscriber_sees_at_most_the_last_two_of_three() {
    let mut hub = running_hub(2);
    assert!(hub.publish(event("a")));
    assert!(hub.publish(event("b")));
    assert!(hub.publish(event("c")));
    let mut sub = hub.subscribe();
    match hub.try_read(&mut sub) {
        ReadOutcome::Received(e) => assert_eq!(e, &event("b")),
        _ => panic!("expected an event"),
    }
    match hub.try_read(&mut sub) {
        ReadOutcome::Received(e) => assert_eq!(e, &event("c")),
        _ => panic!("expected an event"),
    }
    assert!(matches!(hub.try_read(&mut sub), ReadOutcome::Empty));
}

#[test]
fn lagging_subscriber_observes_a_gap_not_a_block() {
    let mut hub = running_hub(2);
    let mut sub = hub.subscribe();
    assert!(hub.publish(event("a")));
    assert!(hub.publish(event("b")));
    assert!(hub.publish(event("c")));
    match hub.try_read(&mut sub) {
        ReadOutcome::Received(e) => assert_eq!(e, &event("b")),
        _ => panic!("expected an event"),
    }
    match hub.try_read(&mut sub) {
        ReadOutcome::Received(e) => assert_eq!(e, &event("c")),
        _ => panic!("expected an event"),
    }
    assert!(matches!(hub.try_read(&mut sub), ReadOutcome::Empty));
}

#[test]
fn subscribers_read_independently() {
    let mut hub = running_hub(4);
    let mut first = hub.subscribe();
    let mut second = hub.subscribe();
    assert!(hub.publish(event("a")));
    assert!(hub.publish(event("b")));
    match hub.try_read(&mut first) {
        ReadOutcome::Received(e) => assert_eq!(e, &event("a")),
        _ => panic!("expected an event"),
    }
    match hub.try_read(&mut second) {
        ReadOutcome::Received(e) => assert_eq!(e, &event("a")),
        _ => panic!("expected an event"),
    }
    match hub.try_read(&mut second) {
        ReadOutcome::Received(e) => assert_eq!(e, &event("b")),
        _ => panic!("expected an event"),
    }
    assert!(matches!(hub.try_read(&mut second), ReadOutcome::Empty));
    match hub.try_read(&mut first) {
        ReadOutcome::Received(e) => assert_eq!(e, &event("b")),
        _ => panic!("expected an event"),
    }
}

#[test]
fn subscriber_created_after_kill_observes_closed_at_once() {
    let mut hub = running_hub(2);
    assert!(hub.publish(event("a")));
    hub.begin_shutdown();
    hub.stop();
    let mut sub = hub.subscribe();
    assert!(matches!(hub.try_read(&mut sub), ReadOutcome::Closed));
}

#[test]
fn subscriber_during_shutdown_drains_then_sees_closed() {
    let mut hub = running_hub(2);
    let mut sub = hub.subscribe();
    assert!(hub.publish(event("a")));
    hub.begin_shutdown();
    match hub.try_read(&mut sub) {
        ReadOutcome::Received(e) => assert_eq!(e, &event("a")),
        _ => panic!("expected an event"),
    }
    assert!(matches!(hub.try_read(&mut sub), ReadOutcome::Closed));
}

#[test]
fn stopped_hub_closes_every_read() {
    let mut hub = running_hub(2);
    let mut sub = hub.subscribe();
    assert!(hub.publish(event("a")));
    hub.begin_shutdown();
    hub.stop();
    assert!(matches!(hub.try_read(&mut sub), ReadOutcome::Closed));
}

#[test]
fn publish_is_rejected_outside_running() {
    let mut hub = Hub::new(2);
    assert!(!hub.publish(event("a")));
    hub.start();
    assert!(hub.publish(event("a")));
    hub.begin_shutdown();
    assert!(!hub.publish(event("b")));
    hub.stop();
    assert!(!hub.publish(event("c")));
}

#[test]
fn hub_walks_its_lifecycle_states() {
    let mut hub = Hub::new(1);
    assert_eq!(hub.state(), HubState::Created);
    hub.start();
    assert_eq!(hub.state(), HubState::Running);
    hub.begin_shutdown();
    assert_eq!(hub.state(), HubState::ShuttingDown);
    hub.stop();
    assert_eq!(hub.state(), HubState::Stopped);
    assert_eq!(hub.capacity(), 1);
}

#[test]
fn publish_with_no_subscriber_succeeds_silently() {
    let mut hub = running_hub(2);
    assert!(hub.publish(event("a")));
    assert_eq!(hub.total(), 1);
}

#[test]
fn bad_request_publishes_nothing() {
    let mut hub = running_hub(2);
    let mut sub = hub.subscribe();
    let status = handle_update(&mut hub, None);
    assert_eq!(status, 400u16);
    assert!(matches!(hub.try_read(&mut sub), ReadOutcome::Empty));
}

#[test]
fn decoded_request_is_published_and_acknowledged() {
    let mut hub = running_hub(2);
    let mut sub = hub.subscribe();
    let status = handle_update(&mut hub, Some(event("a")));
    assert_eq!(status, 200u16);
    match hub.try_read(&mut sub) {
        ReadOutcome::Received(e) => assert_eq!(e, &event("a")),
        _ => panic!("expected an event"),
    }
}

#[test]
fn server_tracks_its_installation_state() {
    let config = csgo_gsi::GSIConfigBuilder::new(String::from("svc")).build();
    let mut server = csgo_gsi::GSIServer::new(config, 3000u16);
    assert!(server.needs_install());
    let artifact = server.install_artifact();
    assert_eq!(artifact.uri, String::from("http://127.0.0.1:3000"));
    server.mark_installed();
    assert!(!server.needs_install());
}
