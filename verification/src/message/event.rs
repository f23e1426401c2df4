//! What the gateway pushes to the bot: messages and events.
//!
//! [`EventPacket`] wraps everything a fetch can return. Unknown event
//! shapes land in `Unsupported` with their raw JSON value kept, so that a
//! newer gateway never breaks a fetch. [`MessagePackage`] is the older
//! flat shape of the same data.

use vstd::prelude::*;

use crate::Target;
use crate::json::{JVal, JsonValue};
use crate::message::element::{FriendMember, FriendMemberV, Group, GroupMember, GroupMemberV, GroupV};
use crate::message::message::{MessageID, TimeStamp};
use crate::message::single::{singles_view, SingleMessage, SingleV};

verus! {

/// Model of a [`MessageEvent`].
#[verifier::ext_equal]
pub enum MessageEventV {
    GroupMessage { message_chain: Seq<SingleV>, sender: GroupMemberV },
    FriendMessage { message_chain: Seq<SingleV>, sender: FriendMemberV },
}

/// A message pushed by the gateway, from a group or from a friend.
#[derive(Debug, PartialEq)]
pub enum MessageEvent {
    GroupMessage { message_chain: Vec<SingleMessage>, sender: GroupMember },
    FriendMessage { message_chain: Vec<SingleMessage>, sender: FriendMember },
}

impl View for MessageEvent {
    type V = MessageEventV;

    open spec fn view(&self) -> MessageEventV {
        match self {
            MessageEvent::GroupMessage { message_chain, sender } => MessageEventV::GroupMessage {
                message_chain: singles_view(message_chain@),
                sender: sender@,
            },
            MessageEvent::FriendMessage { message_chain, sender } => MessageEventV::FriendMessage {
                message_chain: singles_view(message_chain@),
                sender: sender@,
            },
        }
    }
}

impl MessageEvent {
    /// Whether the message came from a group.
    pub fn is_group(&self) -> (r: bool)
        ensures
            r == (self@ is GroupMessage),
    {
        if let MessageEvent::GroupMessage { .. } = self {
            true
        } else {
            false
        }
    }

    /// Whether the message came from a friend.
    pub fn is_friend(&self) -> (r: bool)
        ensures
            r == (self@ is FriendMessage),
    {
        if let MessageEvent::FriendMessage { .. } = self {
            true
        } else {
            false
        }
    }
}

/// Model of a [`RecallEvent`].
#[verifier::ext_equal]
pub enum RecallEventV {
    GroupRecallEvent {
        author_id: Target,
        message_id: MessageID,
        time: TimeStamp,
        group: GroupV,
        operator: Option<GroupMemberV>,
    },
    FriendRecallEvent {
        author_id: Target,
        message_id: MessageID,
        time: TimeStamp,
        operator: Target,
    },
}

/// Someone recalled a message. A missing group operator means the bot
/// itself recalled it.
#[derive(Debug, Clone, PartialEq)]
pub enum RecallEvent {
    GroupRecallEvent {
        author_id: Target,
        message_id: MessageID,
        time: TimeStamp,
        group: Group,
        operator: Option<GroupMember>,
    },
    FriendRecallEvent {
        author_id: Target,
        message_id: MessageID,
        time: TimeStamp,
        operator: Target,
    },
}

impl View for RecallEvent {
    type V = RecallEventV;

    open spec fn view(&self) -> RecallEventV {
        match self {
            RecallEvent::GroupRecallEvent { author_id, message_id, time, group, operator } => {
                RecallEventV::GroupRecallEvent {
                    author_id: *author_id,
                    message_id: *message_id,
                    time: *time,
                    group: group@,
                    operator: match operator {
                        Some(m) => Some(m@),
                        None => None,
                    },
                }
            },
            RecallEvent::FriendRecallEvent { author_id, message_id, time, operator } => {
                RecallEventV::FriendRecallEvent {
                    author_id: *author_id,
                    message_id: *message_id,
                    time: *time,
                    operator: *operator,
                }
            },
        }
    }
}

/// How the bot's own connection changed.
#[derive(Debug, Clone, Copy, PartialEq, Eq, Structural)]
pub enum BotLoginEventKind {
    BotOnlineEvent,
    BotOfflineEventActive,
    BotOfflineEventForce,
    BotOfflineEventDropped,
    BotReloginEvent,
}

/// The bot's connection changed for the given account.
#[derive(Debug, Clone, Copy, PartialEq, Eq, Structural)]
pub struct BotLoginEvent {
    pub kind: BotLoginEventKind,
    pub qq: Target,
}

impl BotLoginEvent {
    /// Builds the event from its parts.
    pub fn new(kind: BotLoginEventKind, qq: Target) -> (r: BotLoginEvent)
        ensures
            r == (BotLoginEvent { kind, qq }),
    {
        BotLoginEvent { kind, qq }
    }
}

/// How the bot's group membership changed.
#[derive(Debug, Clone, Copy, PartialEq, Eq, Structural)]
pub enum BotGroupEventKind {
    BotJoinGroupEvent,
    BotLeaveEventActive,
    BotLeaveEventKick,
}

/// Model of a [`BotGroupEvent`].
#[verifier::ext_equal]
pub struct BotGroupEventV {
    pub kind: BotGroupEventKind,
    pub group: GroupV,
}

/// The bot joined or left a group.
#[derive(Debug, Clone, PartialEq)]
pub struct BotGroupEvent {
    pub kind: BotGroupEventKind,
    pub group: Group,
}

impl View for BotGroupEvent {
    type V = BotGroupEventV;

    open spec fn view(&self) -> BotGroupEventV {
        BotGroupEventV { kind: self.kind, group: self.group@ }
    }
}

/// Model of a [`BotMuteEvent`].
#[verifier::ext_equal]
pub enum BotMuteEventV {
    BotMuteEvent { duration: u32, operator: GroupMemberV },
    BotUnmuteEvent { operator: GroupMemberV },
}

/// The bot was muted for a number of seconds, or unmuted.
#[derive(Debug, Clone, PartialEq)]
pub enum BotMuteEvent {
    BotMuteEvent { duration: u32, operator: GroupMember },
    BotUnmuteEvent { operator: GroupMember },
}

impl View for BotMuteEvent {
    type V = BotMuteEventV;

    open spec fn view(&self) -> BotMuteEventV {
        match self {
            BotMuteEvent::BotMuteEvent { duration, operator } => BotMuteEventV::BotMuteEvent {
                duration: *duration,
                operator: operator@,
            },
            BotMuteEvent::BotUnmuteEvent { operator } => BotMuteEventV::BotUnmuteEvent {
                operator: operator@,
            },
        }
    }
}

/// Which group setting changed.
#[derive(Debug, Clone, Copy, PartialEq, Eq, Structural)]
pub enum GroupChangeEventKind {
    GroupNameChangeEvent,
    GroupEntranceAnnouncementChangeEvent,
    GroupMuteAllEvent,
    GroupAllowAnonymousChatEvent,
    GroupAllowMemberInviteEvent,
}

/// Model of a [`ChangeType`].
#[verifier::ext_equal]
pub enum ChangeTypeV {
    Text { origin: Seq<char>, current: Seq<char> },
    Bool { origin: bool, current: bool },
}

/// The old and new value of a changed setting: text or a switch.
#[derive(Debug, Clone, PartialEq)]
pub enum ChangeType {
    Text { origin: String, current: String },
    Bool { origin: bool, current: bool },
}

impl View for ChangeType {
    type V = ChangeTypeV;

    open spec fn view(&self) -> ChangeTypeV {
        match self {
            ChangeType::Text { origin, current } => ChangeTypeV::Text {
                origin: origin@,
                current: current@,
            },
            ChangeType::Bool { origin, current } => ChangeTypeV::Bool {
                origin: *origin,
                current: *current,
            },
        }
    }
}

/// Model of a [`GroupChangeEvent`].
#[verifier::ext_equal]
pub struct GroupChangeEventV {
    pub kind: GroupChangeEventKind,
    pub change: ChangeTypeV,
    pub group: GroupV,
    pub operator: Option<GroupMemberV>,
}

/// A group setting changed. A missing operator means the bot changed it.
#[derive(Debug, Clone, PartialEq)]
pub struct GroupChangeEvent {
    pub kind: GroupChangeEventKind,
    pub change: ChangeType,
    pub group: Group,
    pub operator: Option<GroupMember>,
}

impl View for GroupChangeEvent {
    type V = GroupChangeEventV;

    open spec fn view(&self) -> GroupChangeEventV {
        GroupChangeEventV {
            kind: self.kind,
            change: self.change@,
            group: self.group@,
            operator: match &self.operator {
                Some(m) => Some(m@),
                None => None,
            },
        }
    }
}

/// Model of an [`EventPacket`].
#[verifier::ext_equal]
pub enum EventPacketV {
    MessageEvent(MessageEventV),
    BotLoginEvent(BotLoginEvent),
    BotMuteEvent(BotMuteEventV),
    RecallEvent(RecallEventV),
    GroupChangeEvent(GroupChangeEventV),
    Unsupported(JVal),
}

/// Anything a fetch can return. An event this crate does not model keeps
/// its raw JSON value under `Unsupported`.
#[derive(Debug, PartialEq)]
pub enum EventPacket {
    MessageEvent(MessageEvent),
    BotLoginEvent(BotLoginEvent),
    BotMuteEvent(BotMuteEvent),
    RecallEvent(RecallEvent),
    GroupChangeEvent(GroupChangeEvent),
    Unsupported(JsonValue),
}

impl View for EventPacket {
    type V = EventPacketV;

    open spec fn view(&self) -> EventPacketV {
        match self {
            EventPacket::MessageEvent(e) => EventPacketV::MessageEvent(e@),
            EventPacket::BotLoginEvent(e) => EventPacketV::BotLoginEvent(*e),
            EventPacket::BotMuteEvent(e) => EventPacketV::BotMuteEvent(e@),
            EventPacket::RecallEvent(e) => EventPacketV::RecallEvent(e@),
            EventPacket::GroupChangeEvent(e) => EventPacketV::GroupChangeEvent(e@),
            EventPacket::Unsupported(v) => EventPacketV::Unsupported(v@),
        }
    }
}

impl EventPacket {
    /// Whether the packet is a message rather than an event.
    pub fn is_message(&self) -> (r: bool)
        ensures
            r == (self@ is MessageEvent),
    {
        match self {
            EventPacket::MessageEvent(_) => true,
            _ => false,
        }
    }
}

/// Model of a [`MessagePackage`].
#[verifier::ext_equal]
pub enum MessagePackageV {
    GroupMessage { message_chain: Seq<SingleV>, sender: GroupMemberV },
    FriendMessage { message_chain: Seq<SingleV>, sender: FriendMemberV },
    GroupRecallEvent {
        author_id: Target,
        message_id: MessageID,
        time: TimeStamp,
        group: GroupV,
        operator: GroupMemberV,
    },
    FriendRecallEvent {
        author_id: Target,
        message_id: MessageID,
        time: TimeStamp,
        operator: Target,
    },
    Unsupported,
}

/// The older flat shape of a fetched packet: a message, a recall, or an
/// unsupported remainder with nothing kept.
#[derive(Debug, PartialEq)]
pub enum MessagePackage {
    GroupMessage { message_chain: Vec<SingleMessage>, sender: GroupMember },
    FriendMessage { message_chain: Vec<SingleMessage>, sender: FriendMember },
    GroupRecallEvent {
        author_id: Target,
        message_id: MessageID,
        time: TimeStamp,
        group: Group,
        operator: GroupMember,
    },
    FriendRecallEvent {
        author_id: Target,
        message_id: MessageID,
        time: TimeStamp,
        operator: Target,
    },
    Unsupported,
}

impl View for MessagePackage {
    type V = MessagePackageV;

    open spec fn view(&self) -> MessagePackageV {
        match self {
            MessagePackage::GroupMessage { message_chain, sender } => {
                MessagePackageV::GroupMessage {
                    message_chain: singles_view(message_chain@),
                    sender: sender@,
                }
            },
            MessagePackage::FriendMessage { message_chain, sender } => {
                MessagePackageV::FriendMessage {
                    message_chain: singles_view(message_chain@),
                    sender: sender@,
                }
            },
            MessagePackage::GroupRecallEvent { author_id, message_id, time, group, operator } => {
                MessagePackageV::GroupRecallEvent {
                    author_id: *author_id,
                    message_id: *message_id,
                    time: *time,
                    group: group@,
                    operator: operator@,
                }
            },
            MessagePackage::FriendRecallEvent { author_id, message_id, time, operator } => {
                MessagePackageV::FriendRecallEvent {
                    author_id: *author_id,
                    message_id: *message_id,
                    time: *time,
                    operator: *operator,
                }
            },
            MessagePackage::Unsupported => MessagePackageV::Unsupported,
        }
    }
}

} // verus!
