use mirai::config::{parse_config, Config};
use mirai::error::{
    check_code, client_error, ErrorKind, ErrorSource, HttpError, MiraiError, StatusCodeError,
};
use mirai::group::{GroupConfig, MemberInfo};
use mirai::image::{Image, ImageType};
use mirai::message::element::{FriendMember, Group, GroupMember, Permission};
use mirai::message::single::SingleMessage;
use mirai::text::{i64_to_string, u64_to_string};
use mirai::json::JsonValue;
use mirai::member_list::{parse_friend_list, parse_group_list, parse_member_list};
use mirai::message::channel::{
    AsFriendChannel, AsGroupChannel, AsTempChannel, ChannelKind, MessageChannel,
};
use mirai::message::content::MessageContent;
use mirai::message::message::Message;
use mirai::message::receive::parse_event_list;
use mirai::message::send::parse_send_response;
use mirai::mock::Mock;
use mirai::session::{
    parse_about_response, parse_auth_response, parse_common_response, AboutData, AboutResponse,
    MiraiServer, Session,
};

fn s(t: &str) -> JsonValue {
    JsonValue::Str(t.to_string())
}

fn obj(pairs: Vec<(&str, JsonValue)>) -> JsonValue {
    JsonValue::Obj(pairs.into_iter().map(|(k, v)| (k.to_string(), v)).collect())
}

fn session() -> Session {
    Session::new(MiraiServer::new("http://localhost:8080"), "KEY".to_string())
}

#[test]
fn server_urls_concatenate() {
    let server = MiraiServer::new("http://localhost:8080");
    assert_eq!(server.url("/about"), "http://localhost:8080/about");
    assert_eq!(session().url("/verify"), "http://localhost:8080/verify");
}

#[test]
fn auth_flow_builds_and_parses() {
    assert_eq!(
        MiraiServer::auth_body("auth_key_should_be_kept_secret"),
        obj(vec![("authKey", s("auth_key_should_be_kept_secret"))])
    );

    let server = MiraiServer::new("http://localhost:8080");
    let good = obj(vec![("code", JsonValue::UInt(0)), ("session", s("KEY"))]);
    let sess = parse_auth_response(&server, &good).unwrap();
    assert_eq!(sess.key(), "KEY");
    assert_eq!(sess.server, server);
    assert_eq!(sess.bound, None);

    let bad_key = obj(vec![("code", JsonValue::UInt(1))]);
    let err = parse_auth_response(&server, &bad_key).unwrap_err();
    assert_eq!(err.kind(), ErrorKind::Server);
    match err.source() {
        ErrorSource::Server(se) => {
            assert_eq!(se.code(), 1);
            assert_eq!(se.msg().as_str(), "Wrong auth key");
        },
        _ => panic!("expected a server error"),
    }

    let no_session = obj(vec![("code", JsonValue::UInt(0))]);
    let err = parse_auth_response(&server, &no_session).unwrap_err();
    assert_eq!(err.kind(), ErrorKind::Client);
}

#[test]
fn status_codes_map_to_their_meanings() {
    assert!(check_code(0, "Verify").is_ok());
    let meanings = vec![
        (1, "Wrong auth key"),
        (2, "No such bot"),
        (3, "Wrong session"),
        (4, "Session wasn't authorized"),
        (5, "No such target"),
        (6, "No such file"),
        (10, "Bot permission denied"),
        (20, "Bot was muted"),
        (30, "Message is too long"),
        (400, "Bad request"),
        (12345, "Unknown code"),
    ];
    for (code, meaning) in meanings {
        let err = check_code(code, "Verify").unwrap_err();
        assert_eq!(err.kind(), ErrorKind::Server);
        match err.source() {
            ErrorSource::Server(se) => {
                assert_eq!(se.code(), code);
                assert_eq!(se.msg().as_str(), meaning);
            },
            _ => panic!("expected a server error"),
        }
    }
}

#[test]
fn status_line_renders_action_and_meaning() {
    let e = StatusCodeError::new(20, "Sending".to_string());
    assert_eq!(e.message(), "[Sending] Bot was muted");
    let fine = StatusCodeError::new(0, "Sending".to_string());
    assert_eq!(fine.message(), "");
}

#[test]
fn combined_errors_render_their_lines() {
    assert_eq!(
        MiraiError::CodeError(30, "too long".to_string()).message(),
        "30: too long"
    );
    assert_eq!(
        MiraiError::ImpossibleError("no session".to_string()).message(),
        "no session"
    );
    assert_eq!(
        MiraiError::MessageBuildingError("message chain is empty").message(),
        "message chain is empty"
    );
    let http = HttpError::from(StatusCodeError::new(1, "Auth".to_string()));
    assert_eq!(http.message(), "[Auth] Wrong auth key");
    assert_eq!(
        HttpError::Reqwest("connection refused".to_string()).message(),
        "connection refused"
    );
}

#[test]
fn client_errors_keep_their_message() {
    let err = client_error("session is None");
    assert_eq!(err.kind(), ErrorKind::Client);
    assert_eq!(err.source(), &ErrorSource::Client("session is None".to_string()));
}

#[test]
fn channels_unwrap_exactly_their_own_kind() {
    let group = MessageChannel::Group(123);
    assert_eq!(group.kind(), ChannelKind::Group);
    assert_eq!(group.group().ok(), Some(123));
    assert!(group.friend().is_err());
    assert!(group.temp().is_err());

    let friend = MessageChannel::Friend(456);
    assert_eq!(friend.friend().ok(), Some(456));
    assert_eq!(friend.kind(), ChannelKind::Friend);

    let tmp = MessageChannel::Temp { qq: 456, group: 123 };
    assert_eq!(tmp.temp().ok(), Some((456, 123)));
    assert_eq!(tmp.kind(), ChannelKind::Temp);
}

#[test]
fn anything_addressable_becomes_a_channel() {
    let qq: u64 = 7;
    assert_eq!(qq.as_group_channel(), MessageChannel::Group(7));
    assert_eq!(qq.as_friend_channel(), MessageChannel::Friend(7));
    assert_eq!(
        (7u64, 8u64).as_temp_channel(),
        MessageChannel::Temp { qq: 7, group: 8 }
    );
}

#[test]
fn send_requests_name_the_channel() {
    let sess = session();
    let msg = Message::new(vec![MessageContent::plain("hi")]);

    let (path, body) = sess.send_message_request(MessageChannel::Group(9), &msg);
    assert_eq!(path, "/sendGroupMessage");
    assert_eq!(
        body,
        obj(vec![
            ("sessionKey", s("KEY")),
            ("qq", JsonValue::Null),
            ("group", JsonValue::UInt(9)),
            ("quote", JsonValue::Null),
            (
                "messageChain",
                JsonValue::Arr(vec![obj(vec![("type", s("Plain")), ("text", s("hi"))])])
            ),
        ])
    );

    let (path, _) = sess.send_message_request(MessageChannel::Friend(5), &msg);
    assert_eq!(path, "/sendFriendMessage");
    let (path, body) = sess.send_message_request(MessageChannel::Temp { qq: 5, group: 6 }, &msg);
    assert_eq!(path, "/sendTempMessage");
    match body {
        JsonValue::Obj(fields) => {
            assert_eq!(fields[1], ("qq".to_string(), JsonValue::UInt(5)));
            assert_eq!(fields[2], ("group".to_string(), JsonValue::UInt(6)));
        },
        _ => panic!("expected an object"),
    }
}

#[test]
fn send_answers_carry_the_new_id() {
    let ok = obj(vec![("code", JsonValue::UInt(0)), ("messageId", JsonValue::UInt(42))]);
    assert_eq!(parse_send_response(&ok).unwrap(), 42);

    let muted = obj(vec![("code", JsonValue::UInt(20))]);
    let err = parse_send_response(&muted).unwrap_err();
    assert_eq!(err.kind(), ErrorKind::Server);

    let missing = obj(vec![("code", JsonValue::UInt(0))]);
    let err = parse_send_response(&missing).unwrap_err();
    assert_eq!(err.source(), &ErrorSource::Client("messageId is None".to_string()));
}

#[test]
fn fetch_paths_name_all_four_flavours() {
    let sess = session();
    assert_eq!(
        sess.fetch_newest_message_path(10),
        "/fetchLatestMessage?sessionKey=KEY&count=10"
    );
    assert_eq!(sess.fetch_message_path(1), "/fetchMessage?sessionKey=KEY&count=1");
    assert_eq!(
        sess.peek_newest_message_path(0),
        "/peekLatestMessage?sessionKey=KEY&count=0"
    );
    assert_eq!(sess.peek_message_path(7), "/peekMessage?sessionKey=KEY&count=7");
}

#[test]
fn fetched_packets_decode_and_strange_ones_survive() {
    let answer = obj(vec![
        ("code", JsonValue::UInt(0)),
        (
            "data",
            JsonValue::Arr(vec![obj(vec![("type", s("WeirdEvent"))])]),
        ),
    ]);
    let packets = parse_event_list(&answer).unwrap();
    assert_eq!(packets.len(), 1);
    assert!(!packets[0].is_message());
    match &packets[0] {
        mirai::message::event::EventPacket::Unsupported(raw) => {
            assert_eq!(*raw, obj(vec![("type", s("WeirdEvent"))]));
        },
        _ => panic!("expected the raw value to be kept"),
    }

    let stale = obj(vec![("code", JsonValue::UInt(3))]);
    assert!(parse_event_list(&stale).is_err());
}

#[test]
fn lifecycle_bodies_and_binding() {
    let mut sess = session();
    assert_eq!(
        sess.verify_body(111),
        obj(vec![("sessionKey", s("KEY")), ("qq", JsonValue::UInt(111))])
    );
    assert_eq!(sess.release_body(111), sess.verify_body(111));
    sess.bind(111);
    assert_eq!(sess.bound, Some(111));
}

#[test]
fn common_and_about_answers_parse() {
    let common = obj(vec![("code", JsonValue::UInt(0)), ("msg", s("success"))]);
    let resp = parse_common_response(&common).unwrap();
    assert_eq!(resp.code(), 0);
    assert_eq!(resp.msg().as_str(), "success");

    let about = obj(vec![
        ("code", JsonValue::UInt(0)),
        ("data", obj(vec![("version", s("mirai_rs_mock"))])),
    ]);
    let resp = parse_about_response(&about).unwrap();
    assert_eq!(resp, AboutResponse::new(0, AboutData::new("mirai_rs_mock".to_string())));
    assert_eq!(resp.code(), 0);
    assert_eq!(resp.data().version().as_str(), "mirai_rs_mock");

    let broken = obj(vec![("code", JsonValue::UInt(0))]);
    assert!(parse_about_response(&broken).is_err());
}

#[test]
fn group_admin_requests_have_exact_shapes() {
    let sess = session();
    let (path, body) = sess.mute_all_request(22);
    assert_eq!(path, "/muteAll");
    assert_eq!(
        body,
        obj(vec![("sessionKey", s("KEY")), ("target", JsonValue::UInt(22))])
    );
    assert_eq!(sess.unmute_all_request(22).0, "/unmuteAll");

    let (path, body) = sess.mute_request(22, 33, 600);
    assert_eq!(path, "/mute");
    assert_eq!(
        body,
        obj(vec![
            ("sessionKey", s("KEY")),
            ("target", JsonValue::UInt(22)),
            ("memberId", JsonValue::UInt(33)),
            ("time", JsonValue::UInt(600)),
        ])
    );

    let (path, body) = sess.kick_request(22, 33, "bye");
    assert_eq!(path, "/kick");
    assert_eq!(
        body,
        obj(vec![
            ("sessionKey", s("KEY")),
            ("target", JsonValue::UInt(22)),
            ("memberId", JsonValue::UInt(33)),
            ("msg", s("bye")),
        ])
    );

    assert_eq!(sess.quit_request(22).0, "/quit");
    assert_eq!(sess.unmute_request(22, 33).0, "/unmute");
    assert_eq!(
        sess.get_group_config_path(22),
        "/groupConfig?sessionKey=KEY&target=22"
    );
    assert_eq!(
        sess.get_member_info_path(22, 33),
        "/memberInfo?sessionKey=KEY&target=22&memberId=33"
    );

    let config = GroupConfig {
        name: "g".to_string(),
        announcement: "a".to_string(),
        confess_talk: false,
        allow_member_invite: true,
        auto_approve: false,
        anonymous_chat: true,
    };
    let (path, body) = sess.modify_group_config_request(22, &config);
    assert_eq!(path, "/groupConfig");
    assert_eq!(
        body,
        obj(vec![
            ("sessionKey", s("KEY")),
            ("target", JsonValue::UInt(22)),
            (
                "config",
                obj(vec![
                    ("name", s("g")),
                    ("announcement", s("a")),
                    ("confessTalk", JsonValue::Bool(false)),
                    ("allowMemberInvite", JsonValue::Bool(true)),
                    ("autoApprove", JsonValue::Bool(false)),
                    ("anonymousChat", JsonValue::Bool(true)),
                ])
            ),
        ])
    );

    let info = MemberInfo { name: "n".to_string(), special_title: "t".to_string() };
    let (path, body) = sess.modify_member_info_request(22, 33, &info);
    assert_eq!(path, "/groupConfig");
    match body {
        JsonValue::Obj(fields) => assert_eq!(
            fields[3],
            (
                "info".to_string(),
                obj(vec![("name", s("n")), ("specialTitle", s("t"))])
            )
        ),
        _ => panic!("expected an object"),
    }
}

#[test]
fn settings_round_through_their_wire_shape() {
    let sess = session();
    assert_eq!(sess.get_config_path(), "/config?sessionKey=KEY");
    let (path, body) = sess.modify_config_request(4096, true);
    assert_eq!(path, "/config");
    assert_eq!(
        body,
        obj(vec![
            ("sessionKey", s("KEY")),
            ("cacheSize", JsonValue::UInt(4096)),
            ("enableWebsocket", JsonValue::Bool(true)),
        ])
    );
    let answer = obj(vec![
        ("cacheSize", JsonValue::UInt(4096)),
        ("enableWebsocket", JsonValue::Bool(true)),
    ]);
    assert_eq!(
        parse_config(&answer).unwrap(),
        Config { cache_size: 4096, enable_websocket: true }
    );
    assert!(parse_config(&obj(vec![("cacheSize", JsonValue::UInt(1))])).is_err());
}

#[test]
fn recall_request_names_the_message() {
    let (path, body) = session().recall_request(-7);
    assert_eq!(path, "/recall");
    assert_eq!(
        body,
        obj(vec![("sessionKey", s("KEY")), ("target", JsonValue::Int(-7))])
    );
}

#[test]
fn member_lists_parse_elementwise() {
    let sess = session();
    assert_eq!(sess.friend_list_path(), "/friendList?sessionKey=KEY");
    assert_eq!(sess.group_list_path(), "/groupList?sessionKey=KEY");
    assert_eq!(sess.group_member_list_path(), "/memberList?sessionKey=KEY");

    let friends = JsonValue::Arr(vec![obj(vec![
        ("id", JsonValue::UInt(1)),
        ("nickname", s("nick")),
        ("remark", s("rem")),
    ])]);
    let list = parse_friend_list(&friends).unwrap();
    assert_eq!(list.len(), 1);
    assert_eq!(list[0].id(), 1);
    assert_eq!(list[0].nick_name(), "nick");
    assert_eq!(list[0].remark(), "rem");

    let groups = JsonValue::Arr(vec![obj(vec![
        ("id", JsonValue::UInt(2)),
        ("name", s("grp")),
        ("permission", s("OWNER")),
    ])]);
    let list = parse_group_list(&groups).unwrap();
    assert_eq!(list[0].id(), 2);
    assert_eq!(list[0].name(), "grp");
    assert_eq!(
        list[0].permission(),
        Permission::Owner
    );

    let members = JsonValue::Arr(vec![obj(vec![
        ("id", JsonValue::UInt(3)),
        ("memberName", s("mem")),
        ("permission", s("ADMINISTRATOR")),
        (
            "group",
            obj(vec![
                ("id", JsonValue::UInt(2)),
                ("name", s("grp")),
                ("permission", s("MEMBER")),
            ]),
        ),
    ])]);
    let list = parse_member_list(&members).unwrap();
    assert_eq!(list[0].id(), 3);
    assert_eq!(list[0].member_name(), "mem");
    assert_eq!(list[0].group().name(), "grp");

    let broken = JsonValue::Arr(vec![obj(vec![("id", JsonValue::UInt(1))])]);
    assert!(parse_friend_list(&broken).is_err());
}

#[test]
fn members_compare_by_identity() {
    let group = Group::new(1, "g".to_string(), Permission::Member);
    let a = GroupMember::new(5, "first name".to_string(), Permission::Member, group.clone());
    let b = GroupMember::new(5, "renamed".to_string(), Permission::Owner, group.clone());
    assert_eq!(a, b);
    let other_group = Group::new(2, "g".to_string(), Permission::Member);
    let c = GroupMember::new(5, "first name".to_string(), Permission::Member, other_group);
    assert!(a != c);

    let f1 = FriendMember::new(9, "x".to_string(), "r".to_string());
    let f2 = FriendMember::new(9, "y".to_string(), "q".to_string());
    assert_eq!(f1, f2);

    assert_eq!(
        Group::new(3, "a".to_string(), Permission::Member),
        Group::new(3, "b".to_string(), Permission::Owner)
    );
}

#[test]
fn decimal_text_is_exact() {
    assert_eq!(u64_to_string(0), "0");
    assert_eq!(u64_to_string(10), "10");
    assert_eq!(u64_to_string(18446744073709551615), "18446744073709551615");
    assert_eq!(i64_to_string(-1), "-1");
    assert_eq!(i64_to_string(0), "0");
    assert_eq!(i64_to_string(-9223372036854775808), "-9223372036854775808");
}

#[test]
fn image_kinds_and_image_elements() {
    assert_eq!(ImageType::Friend.to_string(), "friend");
    assert_eq!(ImageType::Group.to_string(), "group");
    assert_eq!(ImageType::Temp.to_string(), "temp");

    let img = Image {
        image_id: "id".to_string(),
        url: "u".to_string(),
        path: "p".to_string(),
    };
    let single = SingleMessage::from(img);
    assert_eq!(
        single,
        SingleMessage::Image {
            image_id: Some("id".to_string()),
            url: Some("u".to_string()),
            path: Some("p".to_string()),
        }
    );
}

#[test]
fn command_bodies_list_their_arguments() {
    let body = MiraiServer::run_command_body(
        "auth_key_should_be_kept_secret",
        "login",
        &vec!["alice".to_string(), "hunter".to_string()],
    );
    assert_eq!(
        body,
        obj(vec![
            ("authKey", s("auth_key_should_be_kept_secret")),
            ("name", s("login")),
            ("args", JsonValue::Arr(vec![s("alice"), s("hunter")])),
        ])
    );
}

#[test]
fn the_mock_hands_out_one_greeting() {
    let packets = Mock::receive_message().unwrap();
    assert_eq!(packets.len(), 1);
    assert!(packets[0].is_message());
    match &packets[0] {
        mirai::message::event::EventPacket::MessageEvent(e) => {
            assert!(e.is_group());
        },
        _ => panic!("expected a message event"),
    }
}
