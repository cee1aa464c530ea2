//! The event fan-out queues: independent readers, late registration, and
//! the lifecycle scenario of pumping one event through.

use discord_game_sdk::{CreateFlags, Discord, Event, EventCategory};
use discord_game_sdk::Error;

fn new_handle() -> Discord {
    Discord::new(12345, 0, 0).unwrap()
}

#[test]
fn reader_independence() {
    let mut d = new_handle();
    let mut reader_a = d.overlay_events_reader();
    let mut reader_b = d.overlay_events_reader();

    let n = 5;
    for i in 0..n {
        d.push_overlay_event(Event::OverlayToggle { closed: i % 2 == 0 });
    }

    // Draining A does not affect what B subsequently drains.
    let drained_a = d.overlay_events(&mut reader_a);
    let drained_b = d.overlay_events(&mut reader_b);
    assert_eq!(drained_a.len(), n);
    assert_eq!(drained_b.len(), n);
    assert_eq!(drained_a, drained_b);
    for (i, event) in drained_a.iter().enumerate() {
        assert_eq!(*event, Event::OverlayToggle { closed: i % 2 == 0 });
    }

    // Both cursors stand at the tail now.
    assert!(d.overlay_events(&mut reader_a).is_empty());
    assert!(d.overlay_events(&mut reader_b).is_empty());
}

#[test]
fn readers_drain_at_their_own_pace() {
    let mut d = new_handle();
    let mut reader_a = d.overlay_events_reader();
    let mut reader_b = d.overlay_events_reader();

    d.push_overlay_event(Event::OverlayToggle { closed: true });
    assert_eq!(d.overlay_events(&mut reader_a).len(), 1);

    d.push_overlay_event(Event::OverlayToggle { closed: false });
    // A sees only the new event; B sees both, in enqueue order.
    assert_eq!(
        d.overlay_events(&mut reader_a),
        vec![Event::OverlayToggle { closed: false }]
    );
    assert_eq!(
        d.overlay_events(&mut reader_b),
        vec![
            Event::OverlayToggle { closed: true },
            Event::OverlayToggle { closed: false },
        ]
    );
}

#[test]
fn late_registration_sees_nothing_old() {
    let mut d = new_handle();
    let m = 7;
    for i in 0..m {
        d.push_lobby_event(Event::LobbyUpdate { lobby_id: i });
    }

    // A reader registered after M events observes none of them.
    let mut late = d.lobby_events_reader();
    assert!(d.lobby_events(&mut late).is_empty());

    // It observes what comes after.
    d.push_lobby_event(Event::LobbyDelete { lobby_id: 3, reason: 1 });
    assert_eq!(
        d.lobby_events(&mut late),
        vec![Event::LobbyDelete { lobby_id: 3, reason: 1 }]
    );
}

#[test]
fn lifecycle_scenario_one_lobby_update() {
    // Construction against a mock native layer returning success.
    let mut d = Discord::with_create_flags(12345, &CreateFlags::Default, 0, 0).unwrap();
    assert_eq!(d.client_id(), 12345);
    assert_eq!(d.create_flags(), CreateFlags::Default);

    // A reader registered beforehand.
    let mut reader = d.lobby_events_reader();

    // Pump once; the mock fires a lobby update for lobby 42.
    d.run_callbacks(0).unwrap();
    d.push_lobby_event(Event::LobbyUpdate { lobby_id: 42 });

    let drained = d.lobby_events(&mut reader);
    assert_eq!(drained, vec![Event::LobbyUpdate { lobby_id: 42 }]);

    // Teardown: exactly one destroy call, reporting success.
    assert!(d.destroy(0).is_none());
}

#[test]
fn teardown_without_pump_is_quiet() {
    // Construct then immediately tear down without ever pumping: no
    // trampoline was registered, nothing is pending, no error surfaces.
    let d = Discord::new(12345, 0, 0).unwrap();
    assert_eq!(d.pending_callbacks(), 0);
    assert!(d.destroy(0).is_none());
}

#[test]
fn teardown_failure_is_surfaced_for_logging_only() {
    let d = new_handle();
    assert_eq!(d.destroy(4), Some(Error::InternalError));
}

#[test]
fn overlay_and_lobby_queues_are_independent() {
    let mut d = new_handle();
    let mut overlay = d.overlay_events_reader();
    let mut lobby = d.lobby_events_reader();

    d.push_overlay_event(Event::OverlayToggle { closed: true });
    d.push_lobby_event(Event::MemberConnect { lobby_id: 1, member_id: 2 });

    let drained_overlay = d.overlay_events(&mut overlay);
    let drained_lobby = d.lobby_events(&mut lobby);
    assert_eq!(drained_overlay.len(), 1);
    assert_eq!(drained_lobby.len(), 1);
    assert_eq!(drained_overlay[0].category(), EventCategory::Overlay);
    assert_eq!(drained_lobby[0].category(), EventCategory::Lobby);
}

#[test]
fn event_categories() {
    assert_eq!(
        Event::UserAchievementUpdate { user_id: 1, achievement_id: 2, percent_complete: 50 }
            .category(),
        EventCategory::Achievement
    );
    assert_eq!(
        Event::ActivityJoin { secret: String::from("s") }.category(),
        EventCategory::Activity
    );
    assert_eq!(Event::LobbyMessage { lobby_id: 1, member_id: 2, data: vec![1, 2] }.category(),
        EventCategory::Lobby);
    assert_eq!(
        Event::NetworkMessage { peer_id: 1, channel_id: 0, data: vec![] }.category(),
        EventCategory::Network
    );
    assert_eq!(Event::OverlayToggle { closed: false }.category(), EventCategory::Overlay);
    assert_eq!(Event::RelationshipsRefresh.category(), EventCategory::Relationship);
    assert_eq!(Event::EntitlementCreate { entitlement_id: 9 }.category(), EventCategory::Store);
    assert_eq!(Event::CurrentUserUpdate.category(), EventCategory::User);
    assert_eq!(Event::VoiceSettingsUpdate.category(), EventCategory::Voice);
}
