//! Events of the native runtime, as plain values.
//!
//! Every push-style notification the native runtime delivers during a pump
//! is turned into one immutable [`Event`] value, tagged with the category
//! of the manager it came from. The fan-out queues of [`crate::discord`]
//! buffer these values per category.

use vstd::prelude::*;

verus! {

/// Identifier of a lobby.
pub type LobbyID = i64;

/// Identifier of a user.
pub type UserID = i64;

/// Identifier of a remote peer on the network layer.
pub type NetworkPeerID = u64;

/// Identifier of a channel on the network layer.
pub type NetworkChannelID = u8;

/// What an invitation asks the invitee to do.
#[derive(Clone, Copy, PartialEq, Eq, Structural, Debug)]
pub enum Action {
    Join,
    Spectate,
}

/// The manager of the native runtime an event comes from; each category has
/// its own fan-out queue.
#[derive(Clone, Copy, PartialEq, Eq, Structural, Debug)]
pub enum EventCategory {
    Achievement,
    Activity,
    Lobby,
    Network,
    Overlay,
    Relationship,
    Store,
    User,
    Voice,
}

/// One notification of the native runtime, immutable once enqueued.
#[derive(Clone, PartialEq, Eq, Debug)]
pub enum Event {
    UserAchievementUpdate { user_id: UserID, achievement_id: i64, percent_complete: u8 },
    ActivityJoin { secret: String },
    ActivitySpectate { secret: String },
    ActivityJoinRequest { user_id: UserID },
    ActivityInvite { action: Action, user_id: UserID },
    LobbyUpdate { lobby_id: LobbyID },
    LobbyDelete { lobby_id: LobbyID, reason: u32 },
    MemberConnect { lobby_id: LobbyID, member_id: UserID },
    MemberUpdate { lobby_id: LobbyID, member_id: UserID },
    MemberDisconnect { lobby_id: LobbyID, member_id: UserID },
    LobbyMessage { lobby_id: LobbyID, member_id: UserID, data: Vec<u8> },
    Speaking { lobby_id: LobbyID, member_id: UserID, speaking: bool },
    LobbyNetworkMessage {
        lobby_id: LobbyID,
        member_id: UserID,
        channel_id: NetworkChannelID,
        data: Vec<u8>,
    },
    NetworkMessage { peer_id: NetworkPeerID, channel_id: NetworkChannelID, data: Vec<u8> },
    NetworkRouteUpdate { route: String },
    OverlayToggle { closed: bool },
    RelationshipsRefresh,
    RelationshipUpdate { user_id: UserID },
    EntitlementCreate { entitlement_id: i64 },
    EntitlementDelete { entitlement_id: i64 },
    CurrentUserUpdate,
    VoiceSettingsUpdate,
}

impl Event {
    /// The category whose queue this event belongs in.
    pub open spec fn spec_category(self) -> EventCategory {
        match self {
            Event::UserAchievementUpdate { .. } => EventCategory::Achievement,
            Event::ActivityJoin { .. } => EventCategory::Activity,
            Event::ActivitySpectate { .. } => EventCategory::Activity,
            Event::ActivityJoinRequest { .. } => EventCategory::Activity,
            Event::ActivityInvite { .. } => EventCategory::Activity,
            Event::LobbyUpdate { .. } => EventCategory::Lobby,
            Event::LobbyDelete { .. } => EventCategory::Lobby,
            Event::MemberConnect { .. } => EventCategory::Lobby,
            Event::MemberUpdate { .. } => EventCategory::Lobby,
            Event::MemberDisconnect { .. } => EventCategory::Lobby,
            Event::LobbyMessage { .. } => EventCategory::Lobby,
            Event::Speaking { .. } => EventCategory::Lobby,
            Event::LobbyNetworkMessage { .. } => EventCategory::Lobby,
            Event::NetworkMessage { .. } => EventCategory::Network,
            Event::NetworkRouteUpdate { .. } => EventCategory::Network,
            Event::OverlayToggle { .. } => EventCategory::Overlay,
            Event::RelationshipsRefresh => EventCategory::Relationship,
            Event::RelationshipUpdate { .. } => EventCategory::Relationship,
            Event::EntitlementCreate { .. } => EventCategory::Store,
            Event::EntitlementDelete { .. } => EventCategory::Store,
            Event::CurrentUserUpdate => EventCategory::User,
            Event::VoiceSettingsUpdate => EventCategory::Voice,
        }
    }

    /// Returns the category whose queue this event belongs in.
    pub fn category(&self) -> (c: EventCategory)
        ensures
            c == self.spec_category(),
    {
        match self {
            Event::UserAchievementUpdate { .. } => EventCategory::Achievement,
            Event::ActivityJoin { .. } => EventCategory::Activity,
            Event::ActivitySpectate { .. } => EventCategory::Activity,
            Event::ActivityJoinRequest { .. } => EventCategory::Activity,
            Event::ActivityInvite { .. } => EventCategory::Activity,
            Event::LobbyUpdate { .. } => EventCategory::Lobby,
            Event::LobbyDelete { .. } => EventCategory::Lobby,
            Event::MemberConnect { .. } => EventCategory::Lobby,
            Event::MemberUpdate { .. } => EventCategory::Lobby,
            Event::MemberDisconnect { .. } => EventCategory::Lobby,
            Event::LobbyMessage { .. } => EventCategory::Lobby,
            Event::Speaking { .. } => EventCategory::Lobby,
            Event::LobbyNetworkMessage { .. } => EventCategory::Lobby,
            Event::NetworkMessage { .. } => EventCategory::Network,
            Event::NetworkRouteUpdate { .. } => EventCategory::Network,
            Event::OverlayToggle { .. } => EventCategory::Overlay,
            Event::RelationshipsRefresh => EventCategory::Relationship,
            Event::RelationshipUpdate { .. } => EventCategory::Relationship,
            Event::EntitlementCreate { .. } => EventCategory::Store,
            Event::EntitlementDelete { .. } => EventCategory::Store,
            Event::CurrentUserUpdate => EventCategory::User,
            Event::VoiceSettingsUpdate => EventCategory::Voice,
        }
    }
}

} // verus!
