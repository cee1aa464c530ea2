//! Routing events to a long-lived handler.

use discord_game_sdk::event_handler::{dispatch_event, route};
use discord_game_sdk::HandlerCall;
use discord_game_sdk::{Action, Discord, Event, EventHandler};

#[derive(Default)]
struct Recorder {
    toggles: Vec<bool>,
    lobby_updates: Vec<i64>,
    invites: Vec<(Action, i64)>,
    messages: Vec<(i64, i64, Vec<u8>)>,
    refreshes: u32,
}

impl EventHandler for Recorder {
    fn on_overlay_toggle(&mut self, _discord: &Discord, closed: bool) {
        self.toggles.push(closed);
    }

    fn on_lobby_update(&mut self, _discord: &Discord, lobby_id: i64) {
        self.lobby_updates.push(lobby_id);
    }

    fn on_activity_invite(&mut self, _discord: &Discord, action: Action, user_id: i64) {
        self.invites.push((action, user_id));
    }

    fn on_lobby_message(
        &mut self,
        _discord: &Discord,
        lobby_id: i64,
        member_id: i64,
        data: &Vec<u8>,
    ) {
        self.messages.push((lobby_id, member_id, data.clone()));
    }

    fn on_relationships_refresh(&mut self, _discord: &Discord) {
        self.refreshes += 1;
    }
}

#[test]
fn each_event_kind_reaches_its_method() {
    let d = Discord::new(1, 0, 0).unwrap();
    let mut handler = Recorder::default();

    dispatch_event(&d, &mut handler, Event::OverlayToggle { closed: true });
    dispatch_event(&d, &mut handler, Event::LobbyUpdate { lobby_id: 42 });
    dispatch_event(&d, &mut handler, Event::ActivityInvite { action: Action::Spectate, user_id: 7 });
    dispatch_event(
        &d,
        &mut handler,
        Event::LobbyMessage { lobby_id: 1, member_id: 2, data: vec![3, 4] },
    );
    dispatch_event(&d, &mut handler, Event::RelationshipsRefresh);
    // A kind the handler does not implement falls through to the empty default.
    dispatch_event(&d, &mut handler, Event::CurrentUserUpdate);

    assert_eq!(handler.toggles, vec![true]);
    assert_eq!(handler.lobby_updates, vec![42]);
    assert_eq!(handler.invites, vec![(Action::Spectate, 7)]);
    assert_eq!(handler.messages, vec![(1, 2, vec![3, 4])]);
    assert_eq!(handler.refreshes, 1);
}

#[test]
fn routing_table_maps_each_kind_to_its_method() {
    assert_eq!(
        route(Event::OverlayToggle { closed: true }),
        HandlerCall::OnOverlayToggle { closed: true }
    );
    assert_eq!(
        route(Event::LobbyUpdate { lobby_id: 42 }),
        HandlerCall::OnLobbyUpdate { lobby_id: 42 }
    );
    assert_eq!(
        route(Event::LobbyDelete { lobby_id: 3, reason: 9 }),
        HandlerCall::OnLobbyDelete { lobby_id: 3, reason: 9 }
    );
    assert_eq!(
        route(Event::ActivityJoin { secret: String::from("s") }),
        HandlerCall::OnActivityJoin { secret: String::from("s") }
    );
    assert_eq!(
        route(Event::UserAchievementUpdate { user_id: 1, achievement_id: 2, percent_complete: 50 }),
        HandlerCall::OnUserAchievementUpdate { user_id: 1, achievement_id: 2, percent_complete: 50 }
    );
    assert_eq!(
        route(Event::NetworkMessage { peer_id: 5, channel_id: 1, data: vec![7, 8] }),
        HandlerCall::OnNetworkMessage { peer_id: 5, channel_id: 1, data: vec![7, 8] }
    );
    assert_eq!(
        route(Event::Speaking { lobby_id: 1, member_id: 2, speaking: true }),
        HandlerCall::OnSpeaking { lobby_id: 1, member_id: 2, speaking: true }
    );
    assert_eq!(route(Event::RelationshipsRefresh), HandlerCall::OnRelationshipsRefresh);
    assert_eq!(
        route(Event::EntitlementDelete { entitlement_id: 4 }),
        HandlerCall::OnEntitlementDelete { entitlement_id: 4 }
    );
    assert_eq!(route(Event::CurrentUserUpdate), HandlerCall::OnCurrentUserUpdate);
    assert_eq!(route(Event::VoiceSettingsUpdate), HandlerCall::OnVoiceSettingsUpdate);
}
