//! A fixed packet for exercising the event pipeline without a gateway.

use vstd::prelude::*;
use vstd::string::StringExecFns;

use crate::error::Error;
use crate::message::element::{Group, GroupMember, GroupMemberV, GroupV, Permission};
use crate::message::event::{EventPacket, EventPacketV, MessageEvent, MessageEventV};
use crate::message::single::{singles_view, lemma_singles_view, SingleMessage, SingleV};

verus! {

/// A stand-in source of packets.
pub struct Mock;

impl Mock {
    /// One group message, always the same: a source stamp and a greeting
    /// from a fixed member of a fixed group.
    pub fn receive_message() -> (r: Result<Vec<EventPacket>, Error>)
        ensures
            r is Ok,
            r->Ok_0@.len() == 1,
            r->Ok_0@[0]@ == EventPacketV::MessageEvent(
                MessageEventV::GroupMessage {
                    message_chain: seq![
                        SingleV::Source { id: 1, time: 1 },
                        SingleV::Plain { text: "Hello, world!"@ },
                    ],
                    sender: GroupMemberV {
                        id: 123456,
                        member_name: "Hoshino Tented"@,
                        permission: Permission::Administrator,
                        group: GroupV {
                            id: 456789,
                            name: "Hoshino Garden"@,
                            permission: Permission::Member,
                        },
                    },
                },
            ),
    {
        let mut message_chain: Vec<SingleMessage> = Vec::new();
        message_chain.push(SingleMessage::Source { id: 1, time: 1 });
        message_chain.push(SingleMessage::Plain { text: String::from_str("Hello, world!") });
        proof {
            lemma_singles_view(message_chain@);
            let ghost target = seq![
                SingleV::Source { id: 1, time: 1 },
                SingleV::Plain { text: "Hello, world!"@ },
            ];
            assert forall|j: int|
                0 <= j < singles_view(message_chain@).len() implies singles_view(
                message_chain@,
            )[j] == target[j] by {
                assert(singles_view(message_chain@)[j] == crate::message::single::single_view(
                    message_chain@[j],
                ));
            }
            assert(singles_view(message_chain@) =~= target);
        }
        let sender = GroupMember {
            id: 123456,
            member_name: String::from_str("Hoshino Tented"),
            permission: Permission::Administrator,
            group: Group {
                id: 456789,
                name: String::from_str("Hoshino Garden"),
                permission: Permission::Member,
            },
        };
        let mut packets: Vec<EventPacket> = Vec::new();
        packets.push(
            EventPacket::MessageEvent(MessageEvent::GroupMessage { message_chain, sender }),
        );
        Ok(packets)
    }
}

} // verus!
