//! The long-lived event handler: the second trampoline variant.
//!
//! Besides cursor-based readers, a caller may register one handler for the
//! whole life of the handle and have each event kind routed to a method of
//! its own. The native runtime delivers event notifications through a
//! closed set of per-category function tables; the driver turns each entry
//! into an [`Event`] value, [`route`] decides — verifiably — which handler
//! method the event belongs to and with which arguments, and
//! [`dispatch_event`] performs the one dynamic call that the chosen
//! [`HandlerCall`] describes. Every method has an empty default, so a
//! handler implements only what it cares about.

use vstd::prelude::*;

use crate::discord::Discord;
use crate::event::{Action, Event, LobbyID, NetworkChannelID, NetworkPeerID, UserID};
use crate::logging::LogLevel;

verus! {

/// Callbacks for the events of the native runtime. All methods have an
/// empty default implementation.
pub trait EventHandler {
    /// Fired for every message of the native runtime's log hook. The
    /// default does nothing; the driver also forwards every record to the
    /// process logging facility.
    #[allow(unused_variables)]
    fn on_log_message(&mut self, discord: &Discord, level: LogLevel, message: &str) {
    }

    /// Fired when an achievement of the current user is updated.
    #[allow(unused_variables)]
    fn on_user_achievement_update(
        &mut self,
        discord: &Discord,
        user_id: UserID,
        achievement_id: i64,
        percent_complete: u8,
    ) {
    }

    /// Fired when the current user accepts an invitation to join.
    #[allow(unused_variables)]
    fn on_activity_join(&mut self, discord: &Discord, secret: &str) {
    }

    /// Fired when the current user accepts an invitation to spectate.
    #[allow(unused_variables)]
    fn on_activity_spectate(&mut self, discord: &Discord, secret: &str) {
    }

    /// Fired when a user asks to join the current user's game.
    #[allow(unused_variables)]
    fn on_activity_join_request(&mut self, discord: &Discord, user_id: UserID) {
    }

    /// Fired when the current user receives an invitation to join or
    /// spectate.
    #[allow(unused_variables)]
    fn on_activity_invite(&mut self, discord: &Discord, action: Action, user_id: UserID) {
    }

    /// Fired when a lobby is updated.
    #[allow(unused_variables)]
    fn on_lobby_update(&mut self, discord: &Discord, lobby_id: LobbyID) {
    }

    /// Fired when a lobby is deleted.
    #[allow(unused_variables)]
    fn on_lobby_delete(&mut self, discord: &Discord, lobby_id: LobbyID, reason: u32) {
    }

    /// Fired when a member joins a lobby.
    #[allow(unused_variables)]
    fn on_member_connect(&mut self, discord: &Discord, lobby_id: LobbyID, member_id: UserID) {
    }

    /// Fired when the data of a lobby member is updated.
    #[allow(unused_variables)]
    fn on_member_update(&mut self, discord: &Discord, lobby_id: LobbyID, member_id: UserID) {
    }

    /// Fired when a member leaves a lobby.
    #[allow(unused_variables)]
    fn on_member_disconnect(&mut self, discord: &Discord, lobby_id: LobbyID, member_id: UserID) {
    }

    /// Fired when a message is sent to a lobby.
    #[allow(unused_variables)]
    fn on_lobby_message(
        &mut self,
        discord: &Discord,
        lobby_id: LobbyID,
        member_id: UserID,
        data: &Vec<u8>,
    ) {
    }

    /// Fired when a member of a voice lobby starts or stops speaking.
    #[allow(unused_variables)]
    fn on_speaking(
        &mut self,
        discord: &Discord,
        lobby_id: LobbyID,
        member_id: UserID,
        speaking: bool,
    ) {
    }

    /// Fired when a message arrives on a lobby's networking layer.
    #[allow(unused_variables)]
    fn on_lobby_network_message(
        &mut self,
        discord: &Discord,
        lobby_id: LobbyID,
        member_id: UserID,
        channel_id: NetworkChannelID,
        data: &Vec<u8>,
    ) {
    }

    /// Fired when data arrives from another user over an open channel.
    #[allow(unused_variables)]
    fn on_network_message(
        &mut self,
        discord: &Discord,
        peer_id: NetworkPeerID,
        channel_id: NetworkChannelID,
        data: &Vec<u8>,
    ) {
    }

    /// Fired when the current user's network route changes.
    #[allow(unused_variables)]
    fn on_network_route_update(&mut self, discord: &Discord, route: &str) {
    }

    /// Fired when the overlay is opened or closed.
    #[allow(unused_variables)]
    fn on_overlay_toggle(&mut self, discord: &Discord, closed: bool) {
    }

    /// Fired once the native runtime has cached a snapshot of all
    /// relationships of the current user.
    #[allow(unused_variables)]
    fn on_relationships_refresh(&mut self, discord: &Discord) {
    }

    /// Fired when a relationship in the filtered list changes.
    #[allow(unused_variables)]
    fn on_relationship_update(&mut self, discord: &Discord, user_id: UserID) {
    }

    /// Fired when the current user receives an entitlement.
    #[allow(unused_variables)]
    fn on_entitlement_create(&mut self, discord: &Discord, entitlement_id: i64) {
    }

    /// Fired when the current user loses an entitlement.
    #[allow(unused_variables)]
    fn on_entitlement_delete(&mut self, discord: &Discord, entitlement_id: i64) {
    }

    /// Fired when the current user's own record changes.
    #[allow(unused_variables)]
    fn on_current_user_update(&mut self, discord: &Discord) {
    }

    /// Fired when the current user's voice settings change.
    #[allow(unused_variables)]
    fn on_voice_settings_update(&mut self, discord: &Discord) {
    }
}

/// The handler method an event is routed to, with the arguments it is
/// called with: one variant per method of [`EventHandler`] that events
/// reach. The routing decision is a value of this type, so it carries a
/// contract; the dynamic call itself cannot.
#[derive(Clone, PartialEq, Eq, Debug)]
pub enum HandlerCall {
    OnUserAchievementUpdate { user_id: UserID, achievement_id: i64, percent_complete: u8 },
    OnActivityJoin { secret: String },
    OnActivitySpectate { secret: String },
    OnActivityJoinRequest { user_id: UserID },
    OnActivityInvite { action: Action, user_id: UserID },
    OnLobbyUpdate { lobby_id: LobbyID },
    OnLobbyDelete { lobby_id: LobbyID, reason: u32 },
    OnMemberConnect { lobby_id: LobbyID, member_id: UserID },
    OnMemberUpdate { lobby_id: LobbyID, member_id: UserID },
    OnMemberDisconnect { lobby_id: LobbyID, member_id: UserID },
    OnLobbyMessage { lobby_id: LobbyID, member_id: UserID, data: Vec<u8> },
    OnSpeaking { lobby_id: LobbyID, member_id: UserID, speaking: bool },
    OnLobbyNetworkMessage {
        lobby_id: LobbyID,
        member_id: UserID,
        channel_id: NetworkChannelID,
        data: Vec<u8>,
    },
    OnNetworkMessage { peer_id: NetworkPeerID, channel_id: NetworkChannelID, data: Vec<u8> },
    OnNetworkRouteUpdate { route: String },
    OnOverlayToggle { closed: bool },
    OnRelationshipsRefresh,
    OnRelationshipUpdate { user_id: UserID },
    OnEntitlementCreate { entitlement_id: i64 },
    OnEntitlementDelete { entitlement_id: i64 },
    OnCurrentUserUpdate,
    OnVoiceSettingsUpdate,
}

/// The routing table: which handler method each event kind reaches, and
/// with which arguments — each kind to exactly one method, every payload
/// field carried over unchanged.
pub open spec fn spec_route(event: Event) -> HandlerCall {
    match event {
        Event::UserAchievementUpdate { user_id, achievement_id, percent_complete } =>
            HandlerCall::OnUserAchievementUpdate { user_id, achievement_id, percent_complete },
        Event::ActivityJoin { secret } => HandlerCall::OnActivityJoin { secret },
        Event::ActivitySpectate { secret } => HandlerCall::OnActivitySpectate { secret },
        Event::ActivityJoinRequest { user_id } => HandlerCall::OnActivityJoinRequest { user_id },
        Event::ActivityInvite { action, user_id } => HandlerCall::OnActivityInvite {
            action,
            user_id,
        },
        Event::LobbyUpdate { lobby_id } => HandlerCall::OnLobbyUpdate { lobby_id },
        Event::LobbyDelete { lobby_id, reason } => HandlerCall::OnLobbyDelete {
            lobby_id,
            reason,
        },
        Event::MemberConnect { lobby_id, member_id } => HandlerCall::OnMemberConnect {
            lobby_id,
            member_id,
        },
        Event::MemberUpdate { lobby_id, member_id } => HandlerCall::OnMemberUpdate {
            lobby_id,
            member_id,
        },
        Event::MemberDisconnect { lobby_id, member_id } => HandlerCall::OnMemberDisconnect {
            lobby_id,
            member_id,
        },
        Event::LobbyMessage { lobby_id, member_id, data } => HandlerCall::OnLobbyMessage {
            lobby_id,
            member_id,
            data,
        },
        Event::Speaking { lobby_id, member_id, speaking } => HandlerCall::OnSpeaking {
            lobby_id,
            member_id,
            speaking,
        },
        Event::LobbyNetworkMessage { lobby_id, member_id, channel_id, data } =>
            HandlerCall::OnLobbyNetworkMessage { lobby_id, member_id, channel_id, data },
        Event::NetworkMessage { peer_id, channel_id, data } => HandlerCall::OnNetworkMessage {
            peer_id,
            channel_id,
            data,
        },
        Event::NetworkRouteUpdate { route } => HandlerCall::OnNetworkRouteUpdate { route },
        Event::OverlayToggle { closed } => HandlerCall::OnOverlayToggle { closed },
        Event::RelationshipsRefresh => HandlerCall::OnRelationshipsRefresh,
        Event::RelationshipUpdate { user_id } => HandlerCall::OnRelationshipUpdate { user_id },
        Event::EntitlementCreate { entitlement_id } => HandlerCall::OnEntitlementCreate {
            entitlement_id,
        },
        Event::EntitlementDelete { entitlement_id } => HandlerCall::OnEntitlementDelete {
            entitlement_id,
        },
        Event::CurrentUserUpdate => HandlerCall::OnCurrentUserUpdate,
        Event::VoiceSettingsUpdate => HandlerCall::OnVoiceSettingsUpdate,
    }
}

/// Decides which handler method an event reaches, per [`spec_route`].
pub fn route(event: Event) -> (r: HandlerCall)
    ensures
        r == spec_route(event),
{
    match event {
        Event::UserAchievementUpdate { user_id, achievement_id, percent_complete } =>
            HandlerCall::OnUserAchievementUpdate { user_id, achievement_id, percent_complete },
        Event::ActivityJoin { secret } => HandlerCall::OnActivityJoin { secret },
        Event::ActivitySpectate { secret } => HandlerCall::OnActivitySpectate { secret },
        Event::ActivityJoinRequest { user_id } => HandlerCall::OnActivityJoinRequest { user_id },
        Event::ActivityInvite { action, user_id } => HandlerCall::OnActivityInvite {
            action,
            user_id,
        },
        Event::LobbyUpdate { lobby_id } => HandlerCall::OnLobbyUpdate { lobby_id },
        Event::LobbyDelete { lobby_id, reason } => HandlerCall::OnLobbyDelete {
            lobby_id,
            reason,
        },
        Event::MemberConnect { lobby_id, member_id } => HandlerCall::OnMemberConnect {
            lobby_id,
            member_id,
        },
        Event::MemberUpdate { lobby_id, member_id } => HandlerCall::OnMemberUpdate {
            lobby_id,
            member_id,
        },
        Event::MemberDisconnect { lobby_id, member_id } => HandlerCall::OnMemberDisconnect {
            lobby_id,
            member_id,
        },
        Event::LobbyMessage { lobby_id, member_id, data } => HandlerCall::OnLobbyMessage {
            lobby_id,
            member_id,
            data,
        },
        Event::Speaking { lobby_id, member_id, speaking } => HandlerCall::OnSpeaking {
            lobby_id,
            member_id,
            speaking,
        },
        Event::LobbyNetworkMessage { lobby_id, member_id, channel_id, data } =>
            HandlerCall::OnLobbyNetworkMessage { lobby_id, member_id, channel_id, data },
        Event::NetworkMessage { peer_id, channel_id, data } => HandlerCall::OnNetworkMessage {
            peer_id,
            channel_id,
            data,
        },
        Event::NetworkRouteUpdate { route } => HandlerCall::OnNetworkRouteUpdate { route },
        Event::OverlayToggle { closed } => HandlerCall::OnOverlayToggle { closed },
        Event::RelationshipsRefresh => HandlerCall::OnRelationshipsRefresh,
        Event::RelationshipUpdate { user_id } => HandlerCall::OnRelationshipUpdate { user_id },
        Event::EntitlementCreate { entitlement_id } => HandlerCall::OnEntitlementCreate {
            entitlement_id,
        },
        Event::EntitlementDelete { entitlement_id } => HandlerCall::OnEntitlementDelete {
            entitlement_id,
        },
        Event::CurrentUserUpdate => HandlerCall::OnCurrentUserUpdate,
        Event::VoiceSettingsUpdate => HandlerCall::OnVoiceSettingsUpdate,
    }
}

/// Routes one event to the handler method of its kind: [`route`] decides
/// the method and arguments under its contract, and this function performs
/// the one dynamic call that the descriptor names.
pub fn dispatch_event<H: EventHandler>(discord: &Discord, handler: &mut H, event: Event) {
    match route(event) {
        HandlerCall::OnUserAchievementUpdate { user_id, achievement_id, percent_complete } => {
            handler.on_user_achievement_update(discord, user_id, achievement_id, percent_complete);
        }
        HandlerCall::OnActivityJoin { secret } => {
            handler.on_activity_join(discord, secret.as_str());
        }
        HandlerCall::OnActivitySpectate { secret } => {
            handler.on_activity_spectate(discord, secret.as_str());
        }
        HandlerCall::OnActivityJoinRequest { user_id } => {
            handler.on_activity_join_request(discord, user_id);
        }
        HandlerCall::OnActivityInvite { action, user_id } => {
            handler.on_activity_invite(discord, action, user_id);
        }
        HandlerCall::OnLobbyUpdate { lobby_id } => {
            handler.on_lobby_update(discord, lobby_id);
        }
        HandlerCall::OnLobbyDelete { lobby_id, reason } => {
            handler.on_lobby_delete(discord, lobby_id, reason);
        }
        HandlerCall::OnMemberConnect { lobby_id, member_id } => {
            handler.on_member_connect(discord, lobby_id, member_id);
        }
        HandlerCall::OnMemberUpdate { lobby_id, member_id } => {
            handler.on_member_update(discord, lobby_id, member_id);
        }
        HandlerCall::OnMemberDisconnect { lobby_id, member_id } => {
            handler.on_member_disconnect(discord, lobby_id, member_id);
        }
        HandlerCall::OnLobbyMessage { lobby_id, member_id, data } => {
            handler.on_lobby_message(discord, lobby_id, member_id, &data);
        }
        HandlerCall::OnSpeaking { lobby_id, member_id, speaking } => {
            handler.on_speaking(discord, lobby_id, member_id, speaking);
        }
        HandlerCall::OnLobbyNetworkMessage { lobby_id, member_id, channel_id, data } => {
            handler.on_lobby_network_message(discord, lobby_id, member_id, channel_id, &data);
        }
        HandlerCall::OnNetworkMessage { peer_id, channel_id, data } => {
            handler.on_network_message(discord, peer_id, channel_id, &data);
        }
        HandlerCall::OnNetworkRouteUpdate { route } => {
            handler.on_network_route_update(discord, route.as_str());
        }
        HandlerCall::OnOverlayToggle { closed } => {
            handler.on_overlay_toggle(discord, closed);
        }
        HandlerCall::OnRelationshipsRefresh => {
            handler.on_relationships_refresh(discord);
        }
        HandlerCall::OnRelationshipUpdate { user_id } => {
            handler.on_relationship_update(discord, user_id);
        }
        HandlerCall::OnEntitlementCreate { entitlement_id } => {
            handler.on_entitlement_create(discord, entitlement_id);
        }
        HandlerCall::OnEntitlementDelete { entitlement_id } => {
            handler.on_entitlement_delete(discord, entitlement_id);
        }
        HandlerCall::OnCurrentUserUpdate => {
            handler.on_current_user_update(discord);
        }
        HandlerCall::OnVoiceSettingsUpdate => {
            handler.on_voice_settings_update(discord);
        }
    }
}

} // verus!
