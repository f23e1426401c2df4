//! The people and groups that appear in messages and events.

use vstd::prelude::*;

use crate::Target;

verus! {

/// A member's standing in a group.
#[derive(Debug, Clone, Copy, PartialEq, Eq, Structural)]
pub enum Permission {
    Administrator,
    Owner,
    Member,
}

/// Model of a [`Group`].
#[verifier::ext_equal]
pub struct GroupV {
    pub id: Target,
    pub name: Seq<char>,
    pub permission: Permission,
}

/// A group, with the bot's standing in it.
#[derive(Debug, Clone)]
pub struct Group {
    pub id: Target,
    pub name: String,
    pub permission: Permission,
}

impl View for Group {
    type V = GroupV;

    open spec fn view(&self) -> GroupV {
        GroupV { id: self.id, name: self.name@, permission: self.permission }
    }
}

impl PartialEq for Group {
    /// Two groups are the same group when their ids match.
    fn eq(&self, other: &Self) -> (r: bool) {
        self.id == other.id
    }
}

impl vstd::std_specs::cmp::PartialEqSpecImpl for Group {
    open spec fn obeys_eq_spec() -> bool {
        true
    }

    open spec fn eq_spec(&self, other: &Self) -> bool {
        self.id == other.id
    }
}

impl Group {
    /// Builds a group from its parts.
    pub fn new(id: Target, name: String, permission: Permission) -> (r: Group)
        ensures
            r@ == (GroupV { id, name: name@, permission }),
    {
        Group { id, name, permission }
    }

    /// The group's id.
    pub fn id(&self) -> (r: Target)
        ensures
            r == self@.id,
    {
        self.id
    }

    /// The group's name.
    pub fn name(&self) -> (r: String)
        ensures
            r@ == self@.name,
    {
        self.name.clone()
    }

    /// The bot's standing in the group.
    pub fn permission(&self) -> (r: Permission)
        ensures
            r == self@.permission,
    {
        self.permission
    }
}

/// Model of a [`GroupMember`].
#[verifier::ext_equal]
pub struct GroupMemberV {
    pub id: Target,
    pub member_name: Seq<char>,
    pub permission: Permission,
    pub group: GroupV,
}

/// A member of a group: the sender of a group message.
#[derive(Debug, Clone)]
pub struct GroupMember {
    pub id: Target,
    pub member_name: String,
    pub permission: Permission,
    pub group: Group,
}

impl View for GroupMember {
    type V = GroupMemberV;

    open spec fn view(&self) -> GroupMemberV {
        GroupMemberV {
            id: self.id,
            member_name: self.member_name@,
            permission: self.permission,
            group: self.group@,
        }
    }
}

impl PartialEq for GroupMember {
    /// Two members are the same when their ids and groups match.
    fn eq(&self, other: &Self) -> (r: bool) {
        self.id == other.id && self.group == other.group
    }
}

impl vstd::std_specs::cmp::PartialEqSpecImpl for GroupMember {
    open spec fn obeys_eq_spec() -> bool {
        true
    }

    open spec fn eq_spec(&self, other: &Self) -> bool {
        self.id == other.id && self.group.id == other.group.id
    }
}

impl GroupMember {
    /// Builds a member from its parts.
    pub fn new(id: Target, member_name: String, permission: Permission, group: Group) -> (r:
        GroupMember)
        ensures
            r@ == (GroupMemberV { id, member_name: member_name@, permission, group: group@ }),
    {
        GroupMember { id, member_name, permission, group }
    }

    /// The member's id.
    pub fn id(&self) -> (r: Target)
        ensures
            r == self@.id,
    {
        self.id
    }

    /// The member's display name.
    pub fn member_name(&self) -> (r: String)
        ensures
            r@ == self@.member_name,
    {
        self.member_name.clone()
    }

    /// The member's standing in the group.
    pub fn permission(&self) -> (r: Permission)
        ensures
            r == self@.permission,
    {
        self.permission
    }

    /// The group the member belongs to.
    pub fn group(&self) -> (r: Group)
        ensures
            r@ == self@.group,
    {
        Group {
            id: self.group.id,
            name: self.group.name.clone(),
            permission: self.group.permission,
        }
    }
}

/// Model of a [`FriendMember`].
#[verifier::ext_equal]
pub struct FriendMemberV {
    pub id: Target,
    pub nick_name: Seq<char>,
    pub remark: Seq<char>,
}

/// A friend: the sender of a friend message.
#[derive(Debug, Clone)]
pub struct FriendMember {
    pub id: Target,
    pub nick_name: String,
    pub remark: String,
}

impl View for FriendMember {
    type V = FriendMemberV;

    open spec fn view(&self) -> FriendMemberV {
        FriendMemberV { id: self.id, nick_name: self.nick_name@, remark: self.remark@ }
    }
}

impl PartialEq for FriendMember {
    /// Two friends are the same when their ids match.
    fn eq(&self, other: &Self) -> (r: bool) {
        self.id == other.id
    }
}

impl vstd::std_specs::cmp::PartialEqSpecImpl for FriendMember {
    open spec fn obeys_eq_spec() -> bool {
        true
    }

    open spec fn eq_spec(&self, other: &Self) -> bool {
        self.id == other.id
    }
}

impl FriendMember {
    /// Builds a friend from its parts.
    pub fn new(id: Target, nick_name: String, remark: String) -> (r: FriendMember)
        ensures
            r@ == (FriendMemberV { id, nick_name: nick_name@, remark: remark@ }),
    {
        FriendMember { id, nick_name, remark }
    }

    /// The friend's id.
    pub fn id(&self) -> (r: Target)
        ensures
            r == self@.id,
    {
        self.id
    }

    /// The friend's nickname.
    pub fn nick_name(&self) -> (r: String)
        ensures
            r@ == self@.nick_name,
    {
        self.nick_name.clone()
    }

    /// The note this bot keeps about the friend.
    pub fn remark(&self) -> (r: String)
        ensures
            r@ == self@.remark,
    {
        self.remark.clone()
    }
}

/// Model of a [`Sender`].
#[verifier::ext_equal]
pub enum SenderV {
    Friend(FriendMemberV),
    Group(GroupMemberV),
}

/// Whoever sent a message: a friend or a group member.
#[derive(Debug, Clone, PartialEq)]
pub enum Sender {
    Friend(FriendMember),
    Group(GroupMember),
}

impl View for Sender {
    type V = SenderV;

    open spec fn view(&self) -> SenderV {
        match self {
            Sender::Friend(m) => SenderV::Friend(m@),
            Sender::Group(m) => SenderV::Group(m@),
        }
    }
}

} // verus!
