//! Messages and everything that travels inside them.

pub mod channel;
pub mod content;
pub mod element;
pub mod event;
pub mod meta_msg;
pub mod message;
pub mod receive;
pub mod send;
pub mod single;

pub use channel::MessageChannel;
pub use content::MessageContent;
pub use element::{FriendMember, Group, GroupMember, Permission};
pub use event::EventPacket;
pub use meta_msg::{MessageMeta, MessageSource};
pub use message::{Message, MessageBuilder, MessageChain, MessageID, TimeStamp};
pub use single::SingleMessage;
