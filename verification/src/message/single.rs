//! The element of a received message chain.
//!
//! [`SingleMessage`] is the flat wire shape: metadata (`Source`, `Quote`)
//! and content travel in one tagged union. A `Quote` carries the quoted
//! message's original chain, so the type is recursive. Unknown tags decode
//! to `Unsupported` rather than failing, to tolerate gateway evolution.
//! An image is referenced by id, url or path; when several are given the
//! gateway honours them in that order.

use vstd::prelude::*;
use vstd::string::StringExecFns;

use crate::Target;
use crate::message::content::opt_str_view;
use crate::message::message::{MessageID, TimeStamp};
use crate::text::{spec_i64_text, spec_u64_text, i64_to_string, u64_to_string};

verus! {

/// Mathematical model of a [`SingleMessage`].
#[verifier::ext_equal]
pub enum SingleV {
    Source { id: MessageID, time: TimeStamp },
    Plain { text: Seq<char> },
    Quote {
        id: MessageID,
        group_id: Target,
        sender_id: Target,
        target_id: Target,
        origin: Seq<SingleV>,
    },
    At { target: Target, display: Seq<char> },
    Image { image_id: Option<Seq<char>>, url: Option<Seq<char>>, path: Option<Seq<char>> },
    FlashImage { image_id: Option<Seq<char>>, url: Option<Seq<char>>, path: Option<Seq<char>> },
    Xml { xml: Seq<char> },
    Json { json: Seq<char> },
    App { content: Seq<char> },
    Poke { name: Seq<char> },
    Unsupported,
}

/// One element of a received message chain.
#[derive(Debug, PartialEq)]
pub enum SingleMessage {
    Source { id: MessageID, time: TimeStamp },
    Plain { text: String },
    Quote {
        id: MessageID,
        group_id: Target,
        sender_id: Target,
        target_id: Target,
        origin: Vec<SingleMessage>,
    },
    At { target: Target, display: String },
    Image { image_id: Option<String>, url: Option<String>, path: Option<String> },
    FlashImage { image_id: Option<String>, url: Option<String>, path: Option<String> },
    Xml { xml: String },
    Json { json: String },
    App { content: String },
    Poke { name: String },
    Unsupported,
}

/// The model of a [`SingleMessage`], recursively.
pub open spec fn single_view(m: SingleMessage) -> SingleV
    decreases m,
{
    match m {
        SingleMessage::Source { id, time } => SingleV::Source { id, time },
        SingleMessage::Plain { text } => SingleV::Plain { text: text@ },
        SingleMessage::Quote { id, group_id, sender_id, target_id, origin } => SingleV::Quote {
            id,
            group_id,
            sender_id,
            target_id,
            origin: singles_view(origin@),
        },
        SingleMessage::At { target, display } => SingleV::At { target, display: display@ },
        SingleMessage::Image { image_id, url, path } => SingleV::Image {
            image_id: opt_str_view(image_id),
            url: opt_str_view(url),
            path: opt_str_view(path),
        },
        SingleMessage::FlashImage { image_id, url, path } => SingleV::FlashImage {
            image_id: opt_str_view(image_id),
            url: opt_str_view(url),
            path: opt_str_view(path),
        },
        SingleMessage::Xml { xml } => SingleV::Xml { xml: xml@ },
        SingleMessage::Json { json } => SingleV::Json { json: json@ },
        SingleMessage::App { content } => SingleV::App { content: content@ },
        SingleMessage::Poke { name } => SingleV::Poke { name: name@ },
        SingleMessage::Unsupported => SingleV::Unsupported,
    }
}

/// The model of a chain of elements, elementwise.
pub open spec fn singles_view(s: Seq<SingleMessage>) -> Seq<SingleV>
    decreases s,
{
    if s.len() == 0 {
        Seq::empty()
    } else {
        seq![single_view(s[0])] + singles_view(s.subrange(1, s.len() as int))
    }
}

/// A chain's model has the same length and models each element.
pub proof fn lemma_singles_view(s: Seq<SingleMessage>)
    ensures
        singles_view(s).len() == s.len(),
        forall|i: int| 0 <= i < s.len() ==> singles_view(s)[i] == single_view(#[trigger] s[i]),
    decreases s,
{
    if s.len() > 0 {
        let sub = s.subrange(1, s.len() as int);
        lemma_singles_view(sub);
        assert forall|i: int| 0 <= i < s.len() implies singles_view(s)[i] == single_view(
            #[trigger] s[i],
        ) by {
            if i > 0 {
                assert(sub[i - 1] == s[i]);
                assert(singles_view(s)[i] == singles_view(sub)[i - 1]);
            }
        }
    }
}

impl View for SingleMessage {
    type V = SingleV;

    open spec fn view(&self) -> SingleV {
        single_view(*self)
    }
}

/// Whether a model is metadata: a source stamp or a quote reference.
pub open spec fn spec_is_meta(m: SingleV) -> bool {
    match m {
        SingleV::Source { .. } => true,
        SingleV::Quote { .. } => true,
        _ => false,
    }
}

/// The display form of one element.
pub open spec fn spec_single_text(m: SingleV) -> Seq<char> {
    match m {
        SingleV::Source { id, time } => "[mirai:source:"@ + spec_i64_text(id as int) + "]"@,
        SingleV::Plain { text } => text,
        SingleV::Quote { id, .. } => "[mirai:quote:"@ + spec_i64_text(id as int) + "]"@,
        SingleV::At { target, .. } => "[mirai:at:"@ + spec_u64_text(target as int) + "]"@,
        SingleV::Image { .. } => "[Image]"@,
        SingleV::FlashImage { .. } => "[FlashImage]"@,
        SingleV::Xml { xml } => "[mirai:xml:"@ + xml + "]"@,
        SingleV::Json { json } => "[mirai:json:"@ + json + "]"@,
        SingleV::App { content } => "[mirai:app:"@ + content + "]"@,
        SingleV::Poke { name } => "[mirai:poke:"@ + name + "]"@,
        SingleV::Unsupported => "Unsupported"@,
    }
}

/// The image reference the gateway will honour: the id wins over the url,
/// the url over the path; nothing for the other shapes.
pub open spec fn spec_image_ref(m: SingleV) -> Option<Seq<char>> {
    match m {
        SingleV::Image { image_id: Some(id), .. } => Some(id),
        SingleV::Image { image_id: None, url: Some(url), .. } => Some(url),
        SingleV::Image { image_id: None, url: None, path } => path,
        SingleV::FlashImage { image_id: Some(id), .. } => Some(id),
        SingleV::FlashImage { image_id: None, url: Some(url), .. } => Some(url),
        SingleV::FlashImage { image_id: None, url: None, path } => path,
        _ => None,
    }
}

impl SingleMessage {
    /// A plain-text element.
    pub fn plain(text: &str) -> (r: SingleMessage)
        ensures
            r@ == (SingleV::Plain { text: text@ }),
    {
        SingleMessage::Plain { text: text.to_owned() }
    }

    /// Whether the element is metadata rather than content.
    pub fn is_meta(&self) -> (r: bool)
        ensures
            r == spec_is_meta(self@),
    {
        match self {
            SingleMessage::Source { .. } => true,
            SingleMessage::Quote { .. } => true,
            _ => false,
        }
    }

    /// Whether the element is content rather than metadata.
    pub fn is_content(&self) -> (r: bool)
        ensures
            r == !spec_is_meta(self@),
    {
        !self.is_meta()
    }

    /// The image reference the gateway will honour, by priority.
    pub fn image_ref(&self) -> (r: Option<&String>)
        ensures
            match r {
                Some(s) => spec_image_ref(self@) == Some(s@),
                None => spec_image_ref(self@) is None,
            },
    {
        match self {
            SingleMessage::Image { image_id, url, path } => match image_id {
                Some(id) => Some(id),
                None => match url {
                    Some(u) => Some(u),
                    None => match path {
                        Some(p) => Some(p),
                        None => None,
                    },
                },
            },
            SingleMessage::FlashImage { image_id, url, path } => match image_id {
                Some(id) => Some(id),
                None => match url {
                    Some(u) => Some(u),
                    None => match path {
                        Some(p) => Some(p),
                        None => None,
                    },
                },
            },
            _ => None,
        }
    }

    /// Renders the element as display text, one bracketed token per shape.
    pub fn to_text(&self) -> (r: String)
        ensures
            r@ == spec_single_text(self@),
    {
        match self {
            SingleMessage::Source { id, .. } => {
                let mut s = String::from_str("[mirai:source:");
                let num = i64_to_string(*id);
                s.append(num.as_str());
                s.append("]");
                proof {
                    assert(s@ =~= spec_single_text(self@));
                }
                s
            },
            SingleMessage::Plain { text } => text.clone(),
            SingleMessage::Quote { id, .. } => {
                let mut s = String::from_str("[mirai:quote:");
                let num = i64_to_string(*id);
                s.append(num.as_str());
                s.append("]");
                proof {
                    assert(s@ =~= spec_single_text(self@));
                }
                s
            },
            SingleMessage::At { target, .. } => {
                let mut s = String::from_str("[mirai:at:");
                let num = u64_to_string(*target);
                s.append(num.as_str());
                s.append("]");
                proof {
                    assert(s@ =~= spec_single_text(self@));
                }
                s
            },
            SingleMessage::Image { .. } => String::from_str("[Image]"),
            SingleMessage::FlashImage { .. } => String::from_str("[FlashImage]"),
            SingleMessage::Xml { xml } => {
                let mut s = String::from_str("[mirai:xml:");
                s.append(xml.as_str());
                s.append("]");
                proof {
                    assert(s@ =~= spec_single_text(self@));
                }
                s
            },
            SingleMessage::Json { json } => {
                let mut s = String::from_str("[mirai:json:");
                s.append(json.as_str());
                s.append("]");
                proof {
                    assert(s@ =~= spec_single_text(self@));
                }
                s
            },
            SingleMessage::App { content } => {
                let mut s = String::from_str("[mirai:app:");
                s.append(content.as_str());
                s.append("]");
                proof {
                    assert(s@ =~= spec_single_text(self@));
                }
                s
            },
            SingleMessage::Poke { name } => {
                let mut s = String::from_str("[mirai:poke:");
                s.append(name.as_str());
                s.append("]");
                proof {
                    assert(s@ =~= spec_single_text(self@));
                }
                s
            },
            SingleMessage::Unsupported => String::from_str("Unsupported"),
        }
    }
}

impl From<String> for SingleMessage {
    /// Plain text from an owned string.
    fn from(text: String) -> (r: SingleMessage) {
        SingleMessage::Plain { text }
    }
}

impl vstd::std_specs::convert::FromSpecImpl<String> for SingleMessage {
    open spec fn obeys_from_spec() -> bool {
        true
    }

    open spec fn from_spec(text: String) -> SingleMessage {
        SingleMessage::Plain { text }
    }
}

} // verus!
