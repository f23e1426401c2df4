use mirai::codec::{
    decode_content, decode_event, decode_message, decode_meta, decode_package, decode_single,
    decode_singles, encode_content, encode_message, encode_single, encode_singles,
};
use mirai::json::JsonValue;
use mirai::message::content::MessageContent;
use mirai::message::event::{EventPacket, MessageEvent, MessagePackage};
use mirai::message::message::{Message, MessageBuilder};
use mirai::message::meta_msg::{MessageMeta, MessageSource};
use mirai::message::single::SingleMessage;

fn s(t: &str) -> JsonValue {
    JsonValue::Str(t.to_string())
}

fn obj(pairs: Vec<(&str, JsonValue)>) -> JsonValue {
    JsonValue::Obj(pairs.into_iter().map(|(k, v)| (k.to_string(), v)).collect())
}

#[test]
fn test_message_serde() {
    let source = JsonValue::Arr(vec![
        obj(vec![
            ("type", s("Source")),
            ("id", JsonValue::Int(-114514)),
            ("time", JsonValue::UInt(1919810)),
        ]),
        obj(vec![("type", s("Quote")), ("id", JsonValue::UInt(19260817))]),
        obj(vec![
            ("type", s("At")),
            ("target", JsonValue::UInt(1005042620)),
            ("display", s("世界第一可爱星野酱")),
        ]),
        obj(vec![
            ("type", s("Plain")),
            ("text", s("Hoshino Chan! I am your fan desu!")),
        ]),
    ]);

    let mut expect = Message::new(vec![
        MessageContent::At {
            target: 1005042620,
            display: "世界第一可爱星野酱".to_string(),
        },
        MessageContent::plain("Hoshino Chan! I am your fan desu!"),
    ]);
    expect.quote(19260817);

    assert_eq!(decode_message(&source).unwrap(), expect);
    assert_eq!(encode_message(&expect), source);
}

#[test]
fn content_round_trips_every_variant() {
    let cases = vec![
        MessageContent::plain("hello"),
        MessageContent::At { target: 42, display: "someone".to_string() },
        MessageContent::AtAll,
        MessageContent::Face { face_id: Some(7), name: None },
        MessageContent::Face { face_id: None, name: Some("smile".to_string()) },
        MessageContent::Face { face_id: None, name: None },
        MessageContent::Image {
            image_id: Some("abc".to_string()),
            url: None,
            path: Some("/tmp/x.png".to_string()),
        },
        MessageContent::FlashImage { image_id: None, url: None, path: None },
        MessageContent::Xml { xml: "<a/>".to_string() },
        MessageContent::Json { json: "{}".to_string() },
        MessageContent::App { content: "app".to_string() },
        MessageContent::Poke { name: "SixSixSix".to_string() },
        MessageContent::Unsupported,
    ];
    for c in cases {
        let encoded = encode_content(&c);
        assert_eq!(decode_content(&encoded), Some(c));
    }
}

#[test]
fn single_round_trips_with_nested_quote() {
    let quoted = SingleMessage::Quote {
        id: -3,
        group_id: 1,
        sender_id: 2,
        target_id: 3,
        origin: vec![
            SingleMessage::plain("inner"),
            SingleMessage::Quote {
                id: 9,
                group_id: 4,
                sender_id: 5,
                target_id: 6,
                origin: vec![SingleMessage::Unsupported],
            },
        ],
    };
    let encoded = encode_single(&quoted);
    assert_eq!(decode_single(&encoded), Some(quoted));

    let chain = vec![
        SingleMessage::Source { id: 1, time: 2 },
        SingleMessage::At { target: 7, display: "d".to_string() },
    ];
    let encoded_chain = encode_singles(&chain);
    assert_eq!(decode_singles(&encoded_chain), Some(chain));
}

#[test]
fn unknown_tags_decode_to_unsupported() {
    let newfangled = obj(vec![("type", s("HologramMessage")), ("hue", JsonValue::UInt(3))]);
    assert_eq!(decode_content(&newfangled), Some(MessageContent::Unsupported));
    assert_eq!(decode_single(&newfangled), Some(SingleMessage::Unsupported));
    assert_eq!(decode_meta(&newfangled), None);
}

#[test]
fn malformed_known_tags_fail_to_decode() {
    let plain_without_text = obj(vec![("type", s("Plain"))]);
    assert_eq!(decode_content(&plain_without_text), None);
    assert_eq!(decode_single(&plain_without_text), None);

    let untyped = obj(vec![("text", s("x"))]);
    assert_eq!(decode_content(&untyped), None);

    let not_an_object = JsonValue::UInt(3);
    assert_eq!(decode_content(&not_an_object), None);
}

#[test]
fn meta_round_trips() {
    let source = MessageMeta::Source(MessageSource { id: -8, time: 16 });
    assert_eq!(decode_meta(&encode_meta_value(&source)), Some(source));
    let quote = MessageMeta::Quote { id: 77 };
    assert_eq!(decode_meta(&encode_meta_value(&quote)), Some(quote));
}

fn encode_meta_value(m: &MessageMeta) -> JsonValue {
    mirai::codec::encode_meta(m)
}

#[test]
fn message_without_source_fails_to_decode() {
    let no_source = JsonValue::Arr(vec![obj(vec![("type", s("Plain")), ("text", s("x"))])]);
    assert_eq!(decode_message(&no_source), None);
}

#[test]
fn later_metadata_wins_while_content_keeps_order() {
    let tree = JsonValue::Arr(vec![
        obj(vec![
            ("type", s("Source")),
            ("id", JsonValue::UInt(1)),
            ("time", JsonValue::UInt(10)),
        ]),
        obj(vec![("type", s("Plain")), ("text", s("a"))]),
        obj(vec![
            ("type", s("Source")),
            ("id", JsonValue::UInt(2)),
            ("time", JsonValue::UInt(20)),
        ]),
        obj(vec![("type", s("Quote")), ("id", JsonValue::UInt(5))]),
        obj(vec![("type", s("Plain")), ("text", s("b"))]),
        obj(vec![("type", s("Quote")), ("id", JsonValue::UInt(6))]),
    ]);
    let msg = decode_message(&tree).unwrap();
    assert_eq!(*msg.source(), MessageSource { id: 2, time: 20 });
    assert_eq!(msg.quoted(), Some(6));
    assert_eq!(
        *msg.message_chain(),
        vec![MessageContent::plain("a"), MessageContent::plain("b")]
    );
}

#[test]
fn builder_rejects_an_empty_chain_and_keeps_the_quote() {
    let empty = MessageBuilder::new().build();
    assert!(matches!(
        empty,
        Err(mirai::error::MiraiError::MessageBuildingError(_))
    ));

    let built = MessageBuilder::new()
        .append_message(MessageContent::plain("Hello"))
        .quote(99)
        .build()
        .unwrap();
    assert_eq!(built.quoted(), Some(99));
    assert_eq!(*built.message_chain(), vec![MessageContent::plain("Hello")]);
    assert_eq!(*built.source(), MessageSource { id: -114514, time: 1919810 });
}

#[test]
fn message_from_content_and_quote_setter() {
    let mut msg = Message::from(MessageContent::plain("hi"));
    assert_eq!(msg.quoted(), None);
    msg.quote(123);
    assert_eq!(msg.quoted(), Some(123));
    assert_eq!(*msg.message_chain(), vec![MessageContent::plain("hi")]);
}

#[test]
fn display_text_forms_are_exact() {
    assert_eq!(
        MessageContent::At { target: 123, display: "abc".to_string() }.to_text(),
        "[at:123@abc]"
    );
    assert_eq!(MessageContent::plain("just text").to_text(), "just text");
    assert_eq!(
        MessageContent::Face { face_id: Some(7), name: None }.to_text(),
        "[ce:7]"
    );
    assert_eq!(
        MessageContent::Face { face_id: None, name: Some("smile".to_string()) }.to_text(),
        "[ce:smile]"
    );
    assert_eq!(MessageContent::AtAll.to_text(), "[atall]");
    assert_eq!(
        MessageContent::Xml { xml: "<a/>".to_string() }.to_text(),
        "[xml:<a/>]"
    );
    assert_eq!(MessageContent::Unsupported.to_text(), "Unsupported");

    assert_eq!(
        SingleMessage::Source { id: -5, time: 0 }.to_text(),
        "[mirai:source:-5]"
    );
    assert_eq!(
        SingleMessage::At { target: 9, display: "x".to_string() }.to_text(),
        "[mirai:at:9]"
    );
    assert_eq!(
        SingleMessage::Image { image_id: None, url: None, path: None }.to_text(),
        "[Image]"
    );
}

#[test]
fn single_message_metadata_and_image_priority() {
    assert!(SingleMessage::Source { id: 1, time: 2 }.is_meta());
    assert!(!SingleMessage::Source { id: 1, time: 2 }.is_content());
    assert!(SingleMessage::plain("x").is_content());

    let full = SingleMessage::Image {
        image_id: Some("id".to_string()),
        url: Some("url".to_string()),
        path: Some("path".to_string()),
    };
    assert_eq!(full.image_ref().map(String::as_str), Some("id"));
    let no_id = SingleMessage::FlashImage {
        image_id: None,
        url: Some("url".to_string()),
        path: Some("path".to_string()),
    };
    assert_eq!(no_id.image_ref().map(String::as_str), Some("url"));
    let only_path = SingleMessage::Image {
        image_id: None,
        url: None,
        path: Some("path".to_string()),
    };
    assert_eq!(only_path.image_ref().map(String::as_str), Some("path"));
    let none = SingleMessage::Image { image_id: None, url: None, path: None };
    assert_eq!(none.image_ref(), None);
    assert_eq!(SingleMessage::plain("x").image_ref(), None);
}

#[test]
fn events_decode_and_unknown_events_keep_their_value() {
    let group_message = obj(vec![
        ("type", s("GroupMessage")),
        (
            "messageChain",
            JsonValue::Arr(vec![obj(vec![("type", s("Plain")), ("text", s("hi"))])]),
        ),
        (
            "sender",
            obj(vec![
                ("id", JsonValue::UInt(1)),
                ("memberName", s("n")),
                ("permission", s("MEMBER")),
                (
                    "group",
                    obj(vec![
                        ("id", JsonValue::UInt(2)),
                        ("name", s("g")),
                        ("permission", s("OWNER")),
                    ]),
                ),
            ]),
        ),
    ]);
    let packet = decode_event(group_message);
    assert!(packet.is_message());
    match packet {
        EventPacket::MessageEvent(e) => {
            assert!(e.is_group());
            assert!(!e.is_friend());
            match e {
                MessageEvent::GroupMessage { message_chain, sender } => {
                    assert_eq!(message_chain, vec![SingleMessage::plain("hi")]);
                    assert_eq!(sender.id(), 1);
                    assert_eq!(sender.member_name(), "n");
                    assert_eq!(sender.group().id(), 2);
                },
                _ => panic!("expected a group message"),
            }
        },
        _ => panic!("expected a message event"),
    }

    let strange = obj(vec![("type", s("NewEraEvent")), ("marker", JsonValue::Bool(true))]);
    let kept = decode_event(strange);
    match kept {
        EventPacket::Unsupported(raw) => {
            assert_eq!(
                raw,
                obj(vec![("type", s("NewEraEvent")), ("marker", JsonValue::Bool(true))])
            );
        },
        _ => panic!("expected the raw value to be kept"),
    }
}

#[test]
fn flat_packages_decode_with_a_flat_unsupported() {
    let group_message = obj(vec![
        ("type", s("GroupMessage")),
        (
            "messageChain",
            JsonValue::Arr(vec![obj(vec![("type", s("Plain")), ("text", s("yo"))])]),
        ),
        (
            "sender",
            obj(vec![
                ("id", JsonValue::UInt(1)),
                ("memberName", s("n")),
                ("permission", s("MEMBER")),
                (
                    "group",
                    obj(vec![
                        ("id", JsonValue::UInt(2)),
                        ("name", s("g")),
                        ("permission", s("OWNER")),
                    ]),
                ),
            ]),
        ),
    ]);
    match decode_package(&group_message) {
        Some(MessagePackage::GroupMessage { message_chain, sender }) => {
            assert_eq!(message_chain, vec![SingleMessage::plain("yo")]);
            assert_eq!(sender.id(), 1);
        },
        _ => panic!("expected a group message package"),
    }

    let strange = obj(vec![("type", s("BotOnlineEvent")), ("qq", JsonValue::UInt(1))]);
    assert_eq!(decode_package(&strange), Some(MessagePackage::Unsupported));

    let untagged = obj(vec![("qq", JsonValue::UInt(1))]);
    assert_eq!(decode_package(&untagged), None);
}

#[test]
fn mute_and_recall_events_decode() {
    let sender = obj(vec![
        ("id", JsonValue::UInt(10)),
        ("memberName", s("op")),
        ("permission", s("ADMINISTRATOR")),
        (
            "group",
            obj(vec![
                ("id", JsonValue::UInt(20)),
                ("name", s("grp")),
                ("permission", s("MEMBER")),
            ]),
        ),
    ]);
    let mute = obj(vec![
        ("type", s("BotMuteEvent")),
        ("durationSeconds", JsonValue::UInt(600)),
        ("operator", sender.clone()),
    ]);
    match decode_event(mute) {
        EventPacket::BotMuteEvent(mirai::message::event::BotMuteEvent::BotMuteEvent {
            duration,
            operator,
        }) => {
            assert_eq!(duration, 600);
            assert_eq!(operator.id(), 10);
        },
        _ => panic!("expected a mute event"),
    }

    let recall = obj(vec![
        ("type", s("FriendRecallEvent")),
        ("authorId", JsonValue::UInt(5)),
        ("messageId", JsonValue::Int(-44)),
        ("time", JsonValue::UInt(100)),
        ("operator", JsonValue::UInt(6)),
    ]);
    match decode_event(recall) {
        EventPacket::RecallEvent(mirai::message::event::RecallEvent::FriendRecallEvent {
            author_id,
            message_id,
            time,
            operator,
        }) => {
            assert_eq!((author_id, message_id, time, operator), (5, -44, 100, 6));
        },
        _ => panic!("expected a recall event"),
    }

    let online = obj(vec![("type", s("BotOnlineEvent")), ("qq", JsonValue::UInt(777))]);
    match decode_event(online) {
        EventPacket::BotLoginEvent(e) => {
            assert_eq!(e.qq, 777);
            assert_eq!(
                e.kind,
                mirai::message::event::BotLoginEventKind::BotOnlineEvent
            );
        },
        _ => panic!("expected a login event"),
    }
}
