//! Group administration: muting, kicking, leaving, and group settings.

use vstd::prelude::*;
use vstd::string::StringExecFns;

use crate::codec::kv;
use crate::error::{spec_client_error, Error};
use crate::json::{
    spec_field_bool, spec_field_str, field_bool, field_string, JVal, JsonValue,
};
use crate::session::{spec_keyed_target_body, Session};
use crate::text::{spec_u64_text, u64_to_string};
use crate::Target;

verus! {

/// Model of a [`GroupConfig`].
#[verifier::ext_equal]
pub struct GroupConfigV {
    pub name: Seq<char>,
    pub announcement: Seq<char>,
    pub confess_talk: bool,
    pub allow_member_invite: bool,
    pub auto_approve: bool,
    pub anonymous_chat: bool,
}

/// A group's settings.
#[derive(Debug, Clone, PartialEq, Eq)]
pub struct GroupConfig {
    pub name: String,
    pub announcement: String,
    pub confess_talk: bool,
    pub allow_member_invite: bool,
    pub auto_approve: bool,
    pub anonymous_chat: bool,
}

impl View for GroupConfig {
    type V = GroupConfigV;

    open spec fn view(&self) -> GroupConfigV {
        GroupConfigV {
            name: self.name@,
            announcement: self.announcement@,
            confess_talk: self.confess_talk,
            allow_member_invite: self.allow_member_invite,
            auto_approve: self.auto_approve,
            anonymous_chat: self.anonymous_chat,
        }
    }
}

/// How a group's settings encode.
pub open spec fn spec_encode_group_config(c: GroupConfigV) -> JVal {
    JVal::Obj(
        seq![
            ("name"@, JVal::Str(c.name)),
            ("announcement"@, JVal::Str(c.announcement)),
            ("confessTalk"@, JVal::Bool(c.confess_talk)),
            ("allowMemberInvite"@, JVal::Bool(c.allow_member_invite)),
            ("autoApprove"@, JVal::Bool(c.auto_approve)),
            ("anonymousChat"@, JVal::Bool(c.anonymous_chat)),
        ],
    )
}

/// Encodes a group's settings.
pub fn encode_group_config(c: &GroupConfig) -> (r: JsonValue)
    ensures
        r@ == spec_encode_group_config(c@),
{
    let fields: Vec<(String, JsonValue)> = vec![
        kv("name", JsonValue::Str(c.name.clone())),
        kv("announcement", JsonValue::Str(c.announcement.clone())),
        kv("confessTalk", JsonValue::Bool(c.confess_talk)),
        kv("allowMemberInvite", JsonValue::Bool(c.allow_member_invite)),
        kv("autoApprove", JsonValue::Bool(c.auto_approve)),
        kv("anonymousChat", JsonValue::Bool(c.anonymous_chat)),
    ];
    let r = JsonValue::Obj(fields);
    proof {
        crate::json::lemma_jobj_of(fields@);
        assert(r@ matches JVal::Obj(o) && o =~~= spec_encode_group_config(c@)->Obj_0);
    }
    r
}

/// How a group-settings answer reads: every field is required.
pub open spec fn spec_parse_group_config(v: JVal) -> Result<GroupConfigV, crate::error::ErrorV> {
    match v {
        JVal::Obj(o) => match (
            spec_field_str(o, "name"@),
            spec_field_str(o, "announcement"@),
            spec_field_bool(o, "confessTalk"@),
            spec_field_bool(o, "allowMemberInvite"@),
            spec_field_bool(o, "autoApprove"@),
            spec_field_bool(o, "anonymousChat"@),
        ) {
            (
                Some(name),
                Some(announcement),
                Some(confess_talk),
                Some(allow_member_invite),
                Some(auto_approve),
                Some(anonymous_chat),
            ) => Ok(
                GroupConfigV {
                    name,
                    announcement,
                    confess_talk,
                    allow_member_invite,
                    auto_approve,
                    anonymous_chat,
                },
            ),
            _ => Err(spec_client_error("malformed response"@)),
        },
        _ => Err(spec_client_error("malformed response"@)),
    }
}

/// Reads a group-settings answer, as [`spec_parse_group_config`] reads it.
pub fn parse_group_config(v: &JsonValue) -> (r: Result<GroupConfig, Error>)
    ensures
        match r {
            Ok(c) => spec_parse_group_config(v@) == Ok::<GroupConfigV, crate::error::ErrorV>(c@),
            Err(e) => spec_parse_group_config(v@) is Err && e@ == spec_parse_group_config(
                v@,
            )->Err_0,
        },
{
    let fields = match v.as_obj() {
        Some(f) => f,
        None => {
            return Err(crate::error::client_error("malformed response"));
        },
    };
    match (
        field_string(fields, "name"),
        field_string(fields, "announcement"),
        field_bool(fields, "confessTalk"),
        field_bool(fields, "allowMemberInvite"),
        field_bool(fields, "autoApprove"),
        field_bool(fields, "anonymousChat"),
    ) {
        (
            Some(name),
            Some(announcement),
            Some(confess_talk),
            Some(allow_member_invite),
            Some(auto_approve),
            Some(anonymous_chat),
        ) => Ok(
            GroupConfig {
                name,
                announcement,
                confess_talk,
                allow_member_invite,
                auto_approve,
                anonymous_chat,
            },
        ),
        _ => Err(crate::error::client_error("malformed response")),
    }
}

/// Model of a [`MemberInfo`].
#[verifier::ext_equal]
pub struct MemberInfoV {
    pub name: Seq<char>,
    pub special_title: Seq<char>,
}

/// A member's editable card: name and special title.
#[derive(Debug, Clone, PartialEq, Eq)]
pub struct MemberInfo {
    pub name: String,
    pub special_title: String,
}

impl View for MemberInfo {
    type V = MemberInfoV;

    open spec fn view(&self) -> MemberInfoV {
        MemberInfoV { name: self.name@, special_title: self.special_title@ }
    }
}

/// How a member's card encodes.
pub open spec fn spec_encode_member_info(info: MemberInfoV) -> JVal {
    JVal::Obj(
        seq![("name"@, JVal::Str(info.name)), ("specialTitle"@, JVal::Str(info.special_title))],
    )
}

/// Encodes a member's card.
pub fn encode_member_info(info: &MemberInfo) -> (r: JsonValue)
    ensures
        r@ == spec_encode_member_info(info@),
{
    let fields: Vec<(String, JsonValue)> = vec![
        kv("name", JsonValue::Str(info.name.clone())),
        kv("specialTitle", JsonValue::Str(info.special_title.clone())),
    ];
    let r = JsonValue::Obj(fields);
    proof {
        crate::json::lemma_jobj_of(fields@);
        assert(r@ matches JVal::Obj(o) && o =~~= spec_encode_member_info(info@)->Obj_0);
    }
    r
}

/// How a member-card answer reads: both fields are required.
pub open spec fn spec_parse_member_info(v: JVal) -> Result<MemberInfoV, crate::error::ErrorV> {
    match v {
        JVal::Obj(o) => match (spec_field_str(o, "name"@), spec_field_str(o, "specialTitle"@)) {
            (Some(name), Some(special_title)) => Ok(MemberInfoV { name, special_title }),
            _ => Err(spec_client_error("malformed response"@)),
        },
        _ => Err(spec_client_error("malformed response"@)),
    }
}

/// Reads a member-card answer, as [`spec_parse_member_info`] reads it.
pub fn parse_member_info(v: &JsonValue) -> (r: Result<MemberInfo, Error>)
    ensures
        match r {
            Ok(info) => spec_parse_member_info(v@) == Ok::<MemberInfoV, crate::error::ErrorV>(
                info@,
            ),
            Err(e) => spec_parse_member_info(v@) is Err && e@ == spec_parse_member_info(
                v@,
            )->Err_0,
        },
{
    let fields = match v.as_obj() {
        Some(f) => f,
        None => {
            return Err(crate::error::client_error("malformed response"));
        },
    };
    match (field_string(fields, "name"), field_string(fields, "specialTitle")) {
        (Some(name), Some(special_title)) => Ok(MemberInfo { name, special_title }),
        _ => Err(crate::error::client_error("malformed response")),
    }
}

/// How a member-scoped command encodes: the group, the member, and for a
/// mute the duration in seconds.
pub open spec fn spec_member_body(
    key: Seq<char>,
    group_id: Target,
    member_id: Target,
    time: Option<u32>,
) -> JVal {
    match time {
        Some(seconds) => JVal::Obj(
            seq![
                ("sessionKey"@, JVal::Str(key)),
                ("target"@, JVal::Int(group_id as int)),
                ("memberId"@, JVal::Int(member_id as int)),
                ("time"@, JVal::Int(seconds as int)),
            ],
        ),
        None => JVal::Obj(
            seq![
                ("sessionKey"@, JVal::Str(key)),
                ("target"@, JVal::Int(group_id as int)),
                ("memberId"@, JVal::Int(member_id as int)),
            ],
        ),
    }
}

impl Session {
    /// The path and body of a whole-group mute.
    pub fn mute_all_request(&self, target: Target) -> (r: (String, JsonValue))
        ensures
            r.0@ == "/muteAll"@,
            r.1@ == spec_keyed_target_body(self@.key, "target"@, target),
    {
        (String::from_str("/muteAll"), self.target_body(target))
    }

    /// The path and body of a whole-group unmute.
    pub fn unmute_all_request(&self, target: Target) -> (r: (String, JsonValue))
        ensures
            r.0@ == "/unmuteAll"@,
            r.1@ == spec_keyed_target_body(self@.key, "target"@, target),
    {
        (String::from_str("/unmuteAll"), self.target_body(target))
    }

    /// The body naming one group under `target`.
    fn target_body(&self, target: Target) -> (r: JsonValue)
        ensures
            r@ == spec_keyed_target_body(self@.key, "target"@, target),
    {
        let fields: Vec<(String, JsonValue)> = vec![
            kv("sessionKey", JsonValue::Str(self.key.clone())),
            kv("target", JsonValue::UInt(target)),
        ];
        let r = JsonValue::Obj(fields);
        proof {
            crate::json::lemma_jobj_of(fields@);
            assert(r@ matches JVal::Obj(o) && o =~~= spec_keyed_target_body(
                self@.key,
                "target"@,
                target,
            )->Obj_0);
        }
        r
    }

    /// The path and body of muting one member for a number of seconds.
    pub fn mute_request(&self, group_id: Target, target: Target, seconds: u32) -> (r: (
        String,
        JsonValue,
    ))
        ensures
            r.0@ == "/mute"@,
            r.1@ == spec_member_body(self@.key, group_id, target, Some(seconds)),
    {
        let fields: Vec<(String, JsonValue)> = vec![
            kv("sessionKey", JsonValue::Str(self.key.clone())),
            kv("target", JsonValue::UInt(group_id)),
            kv("memberId", JsonValue::UInt(target)),
            kv("time", JsonValue::UInt(seconds as u64)),
        ];
        let body = JsonValue::Obj(fields);
        proof {
            crate::json::lemma_jobj_of(fields@);
            assert(body@ matches JVal::Obj(o) && o =~~= spec_member_body(
                self@.key,
                group_id,
                target,
                Some(seconds),
            )->Obj_0);
        }
        (String::from_str("/mute"), body)
    }

    /// The path and body of unmuting one member.
    pub fn unmute_request(&self, group_id: Target, target: Target) -> (r: (String, JsonValue))
        ensures
            r.0@ == "/unmute"@,
            r.1@ == spec_member_body(self@.key, group_id, target, None),
    {
        let fields: Vec<(String, JsonValue)> = vec![
            kv("sessionKey", JsonValue::Str(self.key.clone())),
            kv("target", JsonValue::UInt(group_id)),
            kv("memberId", JsonValue::UInt(target)),
        ];
        let body = JsonValue::Obj(fields);
        proof {
            crate::json::lemma_jobj_of(fields@);
            assert(body@ matches JVal::Obj(o) && o =~~= spec_member_body(
                self@.key,
                group_id,
                target,
                None,
            )->Obj_0);
        }
        (String::from_str("/unmute"), body)
    }

    /// The path and body of kicking one member, with a farewell message.
    pub fn kick_request(&self, group_id: Target, target: Target, msg: &str) -> (r: (
        String,
        JsonValue,
    ))
        ensures
            r.0@ == "/kick"@,
            r.1@ == spec_kick_body(self@.key, group_id, target, msg@),
    {
        let fields: Vec<(String, JsonValue)> = vec![
            kv("sessionKey", JsonValue::Str(self.key.clone())),
            kv("target", JsonValue::UInt(group_id)),
            kv("memberId", JsonValue::UInt(target)),
            kv("msg", JsonValue::Str(msg.to_owned())),
        ];
        let body = JsonValue::Obj(fields);
        proof {
            crate::json::lemma_jobj_of(fields@);
            assert(body@ matches JVal::Obj(o) && o =~~= spec_kick_body(
                self@.key,
                group_id,
                target,
                msg@,
            )->Obj_0);
        }
        (String::from_str("/kick"), body)
    }

    /// The path and body of the bot leaving a group.
    pub fn quit_request(&self, group_id: Target) -> (r: (String, JsonValue))
        ensures
            r.0@ == "/quit"@,
            r.1@ == spec_keyed_target_body(self@.key, "target"@, group_id),
    {
        (String::from_str("/quit"), self.target_body(group_id))
    }

    /// The path and body of replacing a group's settings.
    pub fn modify_group_config_request(&self, group_id: Target, config: &GroupConfig) -> (r: (
        String,
        JsonValue,
    ))
        ensures
            r.0@ == "/groupConfig"@,
            r.1@ == spec_group_config_body(self@.key, group_id, config@),
    {
        let fields: Vec<(String, JsonValue)> = vec![
            kv("sessionKey", JsonValue::Str(self.key.clone())),
            kv("target", JsonValue::UInt(group_id)),
            kv("config", encode_group_config(config)),
        ];
        let body = JsonValue::Obj(fields);
        proof {
            crate::json::lemma_jobj_of(fields@);
            assert(body@ matches JVal::Obj(o) && o =~~= spec_group_config_body(
                self@.key,
                group_id,
                config@,
            )->Obj_0);
        }
        (String::from_str("/groupConfig"), body)
    }

    /// The path of a group-settings query.
    pub fn get_group_config_path(&self, group_id: Target) -> (r: String)
        ensures
            r@ == "/groupConfig?sessionKey="@ + self@.key + "&target="@ + spec_u64_text(
                group_id as int,
            ),
    {
        let mut s = String::from_str("/groupConfig?sessionKey=");
        s.append(self.key.as_str());
        s.append("&target=");
        let num = u64_to_string(group_id);
        s.append(num.as_str());
        proof {
            assert(s@ =~= "/groupConfig?sessionKey="@ + self@.key + "&target="@ + spec_u64_text(
                group_id as int,
            ));
        }
        s
    }

    /// The path and body of replacing one member's card.
    pub fn modify_member_info_request(
        &self,
        group_id: Target,
        target: Target,
        info: &MemberInfo,
    ) -> (r: (String, JsonValue))
        ensures
            r.0@ == "/groupConfig"@,
            r.1@ == spec_member_info_body(self@.key, group_id, target, info@),
    {
        let fields: Vec<(String, JsonValue)> = vec![
            kv("sessionKey", JsonValue::Str(self.key.clone())),
            kv("target", JsonValue::UInt(group_id)),
            kv("memberId", JsonValue::UInt(target)),
            kv("info", encode_member_info(info)),
        ];
        let body = JsonValue::Obj(fields);
        proof {
            crate::json::lemma_jobj_of(fields@);
            assert(body@ matches JVal::Obj(o) && o =~~= spec_member_info_body(
                self@.key,
                group_id,
                target,
                info@,
            )->Obj_0);
        }
        (String::from_str("/groupConfig"), body)
    }

    /// The path of a member-card query.
    pub fn get_member_info_path(&self, group_id: Target, target: Target) -> (r: String)
        ensures
            r@ == "/memberInfo?sessionKey="@ + self@.key + "&target="@ + spec_u64_text(
                group_id as int,
            ) + "&memberId="@ + spec_u64_text(target as int),
    {
        let mut s = String::from_str("/memberInfo?sessionKey=");
        s.append(self.key.as_str());
        s.append("&target=");
        let group_num = u64_to_string(group_id);
        s.append(group_num.as_str());
        s.append("&memberId=");
        let member_num = u64_to_string(target);
        s.append(member_num.as_str());
        proof {
            assert(s@ =~= "/memberInfo?sessionKey="@ + self@.key + "&target="@ + spec_u64_text(
                group_id as int,
            ) + "&memberId="@ + spec_u64_text(target as int));
        }
        s
    }
}

/// How a kick encodes.
pub open spec fn spec_kick_body(
    key: Seq<char>,
    group_id: Target,
    member_id: Target,
    msg: Seq<char>,
) -> JVal {
    JVal::Obj(
        seq![
            ("sessionKey"@, JVal::Str(key)),
            ("target"@, JVal::Int(group_id as int)),
            ("memberId"@, JVal::Int(member_id as int)),
            ("msg"@, JVal::Str(msg)),
        ],
    )
}

/// How a group-settings change encodes.
pub open spec fn spec_group_config_body(
    key: Seq<char>,
    group_id: Target,
    config: GroupConfigV,
) -> JVal {
    JVal::Obj(
        seq![
            ("sessionKey"@, JVal::Str(key)),
            ("target"@, JVal::Int(group_id as int)),
            ("config"@, spec_encode_group_config(config)),
        ],
    )
}

/// How a member-card change encodes.
pub open spec fn spec_member_info_body(
    key: Seq<char>,
    group_id: Target,
    member_id: Target,
    info: MemberInfoV,
) -> JVal {
    JVal::Obj(
        seq![
            ("sessionKey"@, JVal::Str(key)),
            ("target"@, JVal::Int(group_id as int)),
            ("memberId"@, JVal::Int(member_id as int)),
            ("info"@, spec_encode_member_info(info)),
        ],
    )
}

} // verus!
