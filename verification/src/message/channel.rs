//! Where a message goes: to a friend, to a group, or to a group member in
//! a temporary session.

use vstd::prelude::*;

use crate::Target;
use crate::message::element::{FriendMember, Group, GroupMember};

verus! {

/// The three channel shapes.
#[derive(Debug, Clone, Copy, PartialEq, Eq, Structural)]
pub enum ChannelKind {
    Friend,
    Group,
    Temp,
}

/// A send target: a friend, a group, or a member within a group.
#[derive(Debug, Clone, Copy, PartialEq, Eq, Structural)]
pub enum MessageChannel {
    Friend(Target),
    Group(Target),
    Temp { qq: Target, group: Target },
}

/// The kind a channel value has.
pub open spec fn spec_kind(c: MessageChannel) -> ChannelKind {
    match c {
        MessageChannel::Friend(_) => ChannelKind::Friend,
        MessageChannel::Group(_) => ChannelKind::Group,
        MessageChannel::Temp { .. } => ChannelKind::Temp,
    }
}

/// The error of unwrapping a channel as the wrong kind.
#[derive(Debug, Clone, Copy, PartialEq, Eq, Structural)]
pub struct UnwrapError {
    expected: ChannelKind,
    got: MessageChannel,
}

impl UnwrapError {
    /// Records the kind that was expected and the channel that came.
    pub fn new(expected: ChannelKind, got: MessageChannel) -> (r: UnwrapError)
        ensures
            r.spec_expected() == expected,
            r.spec_got() == got,
    {
        UnwrapError { expected, got }
    }

    /// The kind the caller expected.
    pub closed spec fn spec_expected(self) -> ChannelKind {
        self.expected
    }

    /// The channel that actually came.
    pub closed spec fn spec_got(self) -> MessageChannel {
        self.got
    }
}

impl MessageChannel {
    /// The group id, exactly when this is a group channel.
    pub fn group(self) -> (r: Result<Target, UnwrapError>)
        ensures
            r is Ok <==> self is Group,
            r is Ok ==> self == MessageChannel::Group(r->Ok_0),
            r is Err ==> r->Err_0.spec_expected() == ChannelKind::Group && r->Err_0.spec_got()
                == self,
    {
        if let MessageChannel::Group(group) = self {
            Ok(group)
        } else {
            Err(UnwrapError::new(ChannelKind::Group, self))
        }
    }

    /// The friend id, exactly when this is a friend channel.
    pub fn friend(self) -> (r: Result<Target, UnwrapError>)
        ensures
            r is Ok <==> self is Friend,
            r is Ok ==> self == MessageChannel::Friend(r->Ok_0),
            r is Err ==> r->Err_0.spec_expected() == ChannelKind::Friend && r->Err_0.spec_got()
                == self,
    {
        if let MessageChannel::Friend(friend) = self {
            Ok(friend)
        } else {
            Err(UnwrapError::new(ChannelKind::Friend, self))
        }
    }

    /// The member and group ids, exactly when this is a temp channel.
    pub fn temp(self) -> (r: Result<(Target, Target), UnwrapError>)
        ensures
            r is Ok <==> self is Temp,
            r is Ok ==> self == (MessageChannel::Temp { qq: r->Ok_0.0, group: r->Ok_0.1 }),
            r is Err ==> r->Err_0.spec_expected() == ChannelKind::Temp && r->Err_0.spec_got()
                == self,
    {
        if let MessageChannel::Temp { qq, group } = self {
            Ok((qq, group))
        } else {
            Err(UnwrapError::new(ChannelKind::Temp, self))
        }
    }

    /// Which of the three shapes this channel has.
    pub fn kind(&self) -> (r: ChannelKind)
        ensures
            r == spec_kind(*self),
    {
        match self {
            MessageChannel::Friend(_) => ChannelKind::Friend,
            MessageChannel::Group(_) => ChannelKind::Group,
            MessageChannel::Temp { .. } => ChannelKind::Temp,
        }
    }
}

/// Something that can address a group channel.
pub trait AsGroupChannel {
    fn as_group_channel(&self) -> MessageChannel;
}

/// Something that can address a friend channel.
pub trait AsFriendChannel {
    fn as_friend_channel(&self) -> MessageChannel;
}

/// Something that can address a temp channel.
pub trait AsTempChannel {
    fn as_temp_channel(&self) -> MessageChannel;
}

impl AsGroupChannel for Target {
    /// The group channel with this id.
    fn as_group_channel(&self) -> (r: MessageChannel)
        ensures
            r == MessageChannel::Group(*self),
    {
        MessageChannel::Group(*self)
    }
}

impl AsFriendChannel for Target {
    /// The friend channel with this id.
    fn as_friend_channel(&self) -> (r: MessageChannel)
        ensures
            r == MessageChannel::Friend(*self),
    {
        MessageChannel::Friend(*self)
    }
}

impl AsTempChannel for (Target, Target) {
    /// The temp channel for a member id paired with a group id.
    fn as_temp_channel(&self) -> (r: MessageChannel)
        ensures
            r == (MessageChannel::Temp { qq: self.0, group: self.1 }),
    {
        MessageChannel::Temp { qq: self.0, group: self.1 }
    }
}

impl AsFriendChannel for GroupMember {
    /// The friend channel of this member's id.
    fn as_friend_channel(&self) -> (r: MessageChannel)
        ensures
            r == MessageChannel::Friend(self@.id),
    {
        MessageChannel::Friend(self.id())
    }
}

impl AsTempChannel for GroupMember {
    /// The temp channel of this member within their group.
    fn as_temp_channel(&self) -> (r: MessageChannel)
        ensures
            r == (MessageChannel::Temp { qq: self@.id, group: self@.group.id }),
    {
        MessageChannel::Temp { qq: self.id(), group: self.group().id() }
    }
}

impl AsGroupChannel for Group {
    /// The group channel of this group's id.
    fn as_group_channel(&self) -> (r: MessageChannel)
        ensures
            r == MessageChannel::Group(self@.id),
    {
        MessageChannel::Group(self.id())
    }
}

impl AsFriendChannel for FriendMember {
    /// The friend channel of this friend's id.
    fn as_friend_channel(&self) -> (r: MessageChannel)
        ensures
            r == MessageChannel::Friend(self@.id),
    {
        MessageChannel::Friend(self.id())
    }
}

} // verus!
