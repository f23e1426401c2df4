//! Listing the bot's friends, groups, and a group's members.

use vstd::prelude::*;
use vstd::string::StringExecFns;

use crate::error::{spec_client_error, Error};
use crate::json::{jseq_of, jval_of, lemma_jseq_of, JVal, JsonValue};
use crate::codec::{
    decode_friend_member, decode_group, decode_group_member, spec_decode_friend_member,
    spec_decode_group, spec_decode_group_member,
};
use crate::message::element::{FriendMember, FriendMemberV, Group, GroupMember, GroupMemberV, GroupV};
use crate::session::Session;

verus! {

/// The models of a list of friends.
pub open spec fn friends_view(s: Seq<FriendMember>) -> Seq<FriendMemberV> {
    s.map_values(|m: FriendMember| m@)
}

/// The models of a list of groups.
pub open spec fn groups_view(s: Seq<Group>) -> Seq<GroupV> {
    s.map_values(|g: Group| g@)
}

/// The models of a list of group members.
pub open spec fn members_view(s: Seq<GroupMember>) -> Seq<GroupMemberV> {
    s.map_values(|m: GroupMember| m@)
}

/// How a list of values decodes elementwise, if every element decodes.
pub open spec fn spec_decode_friends(items: Seq<JVal>) -> Option<Seq<FriendMemberV>>
    decreases items,
{
    if items.len() == 0 {
        Some(Seq::empty())
    } else {
        match spec_decode_friend_member(items[0]) {
            Some(head) => match spec_decode_friends(items.subrange(1, items.len() as int)) {
                Some(tail) => Some(seq![head] + tail),
                None => None,
            },
            None => None,
        }
    }
}

/// As [`spec_decode_friends`], for groups.
pub open spec fn spec_decode_groups(items: Seq<JVal>) -> Option<Seq<GroupV>>
    decreases items,
{
    if items.len() == 0 {
        Some(Seq::empty())
    } else {
        match spec_decode_group(items[0]) {
            Some(head) => match spec_decode_groups(items.subrange(1, items.len() as int)) {
                Some(tail) => Some(seq![head] + tail),
                None => None,
            },
            None => None,
        }
    }
}

/// As [`spec_decode_friends`], for group members.
pub open spec fn spec_decode_members(items: Seq<JVal>) -> Option<Seq<GroupMemberV>>
    decreases items,
{
    if items.len() == 0 {
        Some(Seq::empty())
    } else {
        match spec_decode_group_member(items[0]) {
            Some(head) => match spec_decode_members(items.subrange(1, items.len() as int)) {
                Some(tail) => Some(seq![head] + tail),
                None => None,
            },
            None => None,
        }
    }
}

/// How a friend-list answer reads: an array of friends, all well-formed.
pub open spec fn spec_parse_friend_list(v: JVal) -> Result<
    Seq<FriendMemberV>,
    crate::error::ErrorV,
> {
    match v {
        JVal::Arr(items) => match spec_decode_friends(items) {
            Some(list) => Ok(list),
            None => Err(spec_client_error("malformed response"@)),
        },
        _ => Err(spec_client_error("malformed response"@)),
    }
}

/// How a group-list answer reads.
pub open spec fn spec_parse_group_list(v: JVal) -> Result<Seq<GroupV>, crate::error::ErrorV> {
    match v {
        JVal::Arr(items) => match spec_decode_groups(items) {
            Some(list) => Ok(list),
            None => Err(spec_client_error("malformed response"@)),
        },
        _ => Err(spec_client_error("malformed response"@)),
    }
}

/// How a member-list answer reads.
pub open spec fn spec_parse_member_list(v: JVal) -> Result<
    Seq<GroupMemberV>,
    crate::error::ErrorV,
> {
    match v {
        JVal::Arr(items) => match spec_decode_members(items) {
            Some(list) => Ok(list),
            None => Err(spec_client_error("malformed response"@)),
        },
        _ => Err(spec_client_error("malformed response"@)),
    }
}

/// Reads a friend-list answer, as [`spec_parse_friend_list`] reads it.
pub fn parse_friend_list(v: &JsonValue) -> (r: Result<Vec<FriendMember>, Error>)
    ensures
        match r {
            Ok(list) => spec_parse_friend_list(v@) == Ok::<
                Seq<FriendMemberV>,
                crate::error::ErrorV,
            >(friends_view(list@)),
            Err(e) => spec_parse_friend_list(v@) is Err && e@ == spec_parse_friend_list(
                v@,
            )->Err_0,
        },
{
    let items = match v.as_arr() {
        Some(a) => a,
        None => {
            return Err(crate::error::client_error("malformed response"));
        },
    };
    proof {
        lemma_jseq_of(items@);
    }
    let ghost model = jseq_of(items@);
    let ghost whole = spec_decode_friends(model);
    proof {
        assert(model.subrange(0, model.len() as int) =~= model);
        assert(friends_view(Seq::<FriendMember>::empty()) =~= Seq::<FriendMemberV>::empty());
    }
    let mut list: Vec<FriendMember> = Vec::new();
    let mut i: usize = 0;
    while i < items.len()
        invariant
            0 <= i <= items.len(),
            model == jseq_of(items@),
            model.len() == items@.len(),
            whole == spec_decode_friends(model),
            v@ == JVal::Arr(model),
            forall|j: int| 0 <= j < items@.len() ==> model[j] == jval_of(#[trigger] items@[j]),
            whole == (match spec_decode_friends(model.subrange(i as int, model.len() as int)) {
                Some(tail) => Some(friends_view(list@) + tail),
                None => None::<Seq<FriendMemberV>>,
            }),
        decreases items.len() - i,
    {
        let ghost rest = model.subrange(i as int, model.len() as int);
        proof {
            assert(rest[0] == model[i as int]);
            assert(model[i as int] == jval_of(items@[i as int]));
            assert(rest.subrange(1, rest.len() as int) =~= model.subrange(
                i as int + 1,
                model.len() as int,
            ));
        }
        let ghost before = friends_view(list@);
        match decode_friend_member(&items[i]) {
            Some(m) => {
                let ghost mv = m@;
                list.push(m);
                proof {
                    assert(friends_view(list@) =~= before.push(mv));
                    assert forall|tail: Seq<FriendMemberV>|
                        before + (seq![mv] + tail) =~= friends_view(list@) + tail by {}
                }
            },
            None => {
                proof {
                    assert(spec_decode_friends(rest) is None);
                }
                return Err(crate::error::client_error("malformed response"));
            },
        }
        i = i + 1;
    }
    proof {
        assert(model.subrange(i as int, model.len() as int) =~= Seq::empty());
        assert(friends_view(list@) + Seq::<FriendMemberV>::empty() =~= friends_view(list@));
    }
    Ok(list)
}

/// Reads a group-list answer, as [`spec_parse_group_list`] reads it.
pub fn parse_group_list(v: &JsonValue) -> (r: Result<Vec<Group>, Error>)
    ensures
        match r {
            Ok(list) => spec_parse_group_list(v@) == Ok::<Seq<GroupV>, crate::error::ErrorV>(
                groups_view(list@),
            ),
            Err(e) => spec_parse_group_list(v@) is Err && e@ == spec_parse_group_list(v@)->Err_0,
        },
{
    let items = match v.as_arr() {
        Some(a) => a,
        None => {
            return Err(crate::error::client_error("malformed response"));
        },
    };
    proof {
        lemma_jseq_of(items@);
    }
    let ghost model = jseq_of(items@);
    let ghost whole = spec_decode_groups(model);
    proof {
        assert(model.subrange(0, model.len() as int) =~= model);
        assert(groups_view(Seq::<Group>::empty()) =~= Seq::<GroupV>::empty());
    }
    let mut list: Vec<Group> = Vec::new();
    let mut i: usize = 0;
    while i < items.len()
        invariant
            0 <= i <= items.len(),
            model == jseq_of(items@),
            model.len() == items@.len(),
            whole == spec_decode_groups(model),
            v@ == JVal::Arr(model),
            forall|j: int| 0 <= j < items@.len() ==> model[j] == jval_of(#[trigger] items@[j]),
            whole == (match spec_decode_groups(model.subrange(i as int, model.len() as int)) {
                Some(tail) => Some(groups_view(list@) + tail),
                None => None::<Seq<GroupV>>,
            }),
        decreases items.len() - i,
    {
        let ghost rest = model.subrange(i as int, model.len() as int);
        proof {
            assert(rest[0] == model[i as int]);
            assert(model[i as int] == jval_of(items@[i as int]));
            assert(rest.subrange(1, rest.len() as int) =~= model.subrange(
                i as int + 1,
                model.len() as int,
            ));
        }
        let ghost before = groups_view(list@);
        match decode_group(&items[i]) {
            Some(g) => {
                let ghost gv = g@;
                list.push(g);
                proof {
                    assert(groups_view(list@) =~= before.push(gv));
                    assert forall|tail: Seq<GroupV>|
                        before + (seq![gv] + tail) =~= groups_view(list@) + tail by {}
                }
            },
            None => {
                proof {
                    assert(spec_decode_groups(rest) is None);
                }
                return Err(crate::error::client_error("malformed response"));
            },
        }
        i = i + 1;
    }
    proof {
        assert(model.subrange(i as int, model.len() as int) =~= Seq::empty());
        assert(groups_view(list@) + Seq::<GroupV>::empty() =~= groups_view(list@));
    }
    Ok(list)
}

/// Reads a member-list answer, as [`spec_parse_member_list`] reads it.
pub fn parse_member_list(v: &JsonValue) -> (r: Result<Vec<GroupMember>, Error>)
    ensures
        match r {
            Ok(list) => spec_parse_member_list(v@) == Ok::<
                Seq<GroupMemberV>,
                crate::error::ErrorV,
            >(members_view(list@)),
            Err(e) => spec_parse_member_list(v@) is Err && e@ == spec_parse_member_list(
                v@,
            )->Err_0,
        },
{
    let items = match v.as_arr() {
        Some(a) => a,
        None => {
            return Err(crate::error::client_error("malformed response"));
        },
    };
    proof {
        lemma_jseq_of(items@);
    }
    let ghost model = jseq_of(items@);
    let ghost whole = spec_decode_members(model);
    proof {
        assert(model.subrange(0, model.len() as int) =~= model);
        assert(members_view(Seq::<GroupMember>::empty()) =~= Seq::<GroupMemberV>::empty());
    }
    let mut list: Vec<GroupMember> = Vec::new();
    let mut i: usize = 0;
    while i < items.len()
        invariant
            0 <= i <= items.len(),
            model == jseq_of(items@),
            model.len() == items@.len(),
            whole == spec_decode_members(model),
            v@ == JVal::Arr(model),
            forall|j: int| 0 <= j < items@.len() ==> model[j] == jval_of(#[trigger] items@[j]),
            whole == (match spec_decode_members(model.subrange(i as int, model.len() as int)) {
                Some(tail) => Some(members_view(list@) + tail),
                None => None::<Seq<GroupMemberV>>,
            }),
        decreases items.len() - i,
    {
        let ghost rest = model.subrange(i as int, model.len() as int);
        proof {
            assert(rest[0] == model[i as int]);
            assert(model[i as int] == jval_of(items@[i as int]));
            assert(rest.subrange(1, rest.len() as int) =~= model.subrange(
                i as int + 1,
                model.len() as int,
            ));
        }
        let ghost before = members_view(list@);
        match decode_group_member(&items[i]) {
            Some(m) => {
                let ghost mv = m@;
                list.push(m);
                proof {
                    assert(members_view(list@) =~= before.push(mv));
                    assert forall|tail: Seq<GroupMemberV>|
                        before + (seq![mv] + tail) =~= members_view(list@) + tail by {}
                }
            },
            None => {
                proof {
                    assert(spec_decode_members(rest) is None);
                }
                return Err(crate::error::client_error("malformed response"));
            },
        }
        i = i + 1;
    }
    proof {
        assert(model.subrange(i as int, model.len() as int) =~= Seq::empty());
        assert(members_view(list@) + Seq::<GroupMemberV>::empty() =~= members_view(list@));
    }
    Ok(list)
}

impl Session {
    /// The path of a list query for the given list name.
    fn get_list_path(&self, name: &str) -> (r: String)
        ensures
            r@ == "/"@ + name@ + "List?sessionKey="@ + self@.key,
    {
        let mut s = String::from_str("/");
        s.append(name);
        s.append("List?sessionKey=");
        s.append(self.key.as_str());
        proof {
            assert(s@ =~= "/"@ + name@ + "List?sessionKey="@ + self@.key);
        }
        s
    }

    /// The path of the friend-list query.
    pub fn friend_list_path(&self) -> (r: String)
        ensures
            r@ == "/"@ + "friend"@ + "List?sessionKey="@ + self@.key,
    {
        self.get_list_path("friend")
    }

    /// The path of the group-list query.
    pub fn group_list_path(&self) -> (r: String)
        ensures
            r@ == "/"@ + "group"@ + "List?sessionKey="@ + self@.key,
    {
        self.get_list_path("group")
    }

    /// The path of the member-list query.
    pub fn group_member_list_path(&self) -> (r: String)
        ensures
            r@ == "/"@ + "member"@ + "List?sessionKey="@ + self@.key,
    {
        self.get_list_path("member")
    }
}

} // verus!
