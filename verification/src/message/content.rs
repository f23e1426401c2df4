//! The primary element of a message chain.
//!
//! [`MessageContent`] is the closed set of content shapes a chain may carry:
//! plain text, an at-mention, a whole-group mention, a face, an image or
//! flash image (each referenced by id, url or path, in that order of
//! priority), the Xml/Json/App/Poke passthrough payloads, and a catch-all
//! `Unsupported` that stands for any tag this crate does not know, so that
//! newer gateways keep decoding.

use vstd::prelude::*;
use vstd::string::StringExecFns;

use crate::Target;
use crate::text::{spec_i64_text, spec_u64_text, i64_to_string, u64_to_string};

verus! {

/// The model of an optional string: the characters, if any.
pub open spec fn opt_str_view(o: Option<String>) -> Option<Seq<char>> {
    match o {
        Some(s) => Some(s@),
        None => None,
    }
}

/// Mathematical model of a [`MessageContent`].
#[verifier::ext_equal]
pub enum ContentV {
    Plain { text: Seq<char> },
    At { target: Target, display: Seq<char> },
    AtAll,
    Face { face_id: Option<i32>, name: Option<Seq<char>> },
    Image { image_id: Option<Seq<char>>, url: Option<Seq<char>>, path: Option<Seq<char>> },
    FlashImage { image_id: Option<Seq<char>>, url: Option<Seq<char>>, path: Option<Seq<char>> },
    Xml { xml: Seq<char> },
    Json { json: Seq<char> },
    App { content: Seq<char> },
    Poke { name: Seq<char> },
    Unsupported,
}

impl ContentV {
    /// A face element must carry an id or a name.
    pub open spec fn wf(self) -> bool {
        match self {
            ContentV::Face { face_id, name } => face_id is Some || name is Some,
            _ => true,
        }
    }
}

/// One content element of a message chain.
#[derive(Debug, Clone, PartialEq, Eq)]
pub enum MessageContent {
    Plain { text: String },
    At { target: Target, display: String },
    AtAll,
    Face { face_id: Option<i32>, name: Option<String> },
    Image { image_id: Option<String>, url: Option<String>, path: Option<String> },
    FlashImage { image_id: Option<String>, url: Option<String>, path: Option<String> },
    Xml { xml: String },
    Json { json: String },
    App { content: String },
    Poke { name: String },
    Unsupported,
}

impl View for MessageContent {
    type V = ContentV;

    open spec fn view(&self) -> ContentV {
        match *self {
            MessageContent::Plain { text } => ContentV::Plain { text: text@ },
            MessageContent::At { target, display } => ContentV::At {
                target,
                display: display@,
            },
            MessageContent::AtAll => ContentV::AtAll,
            MessageContent::Face { face_id, name } => ContentV::Face {
                face_id,
                name: opt_str_view(name),
            },
            MessageContent::Image { image_id, url, path } => ContentV::Image {
                image_id: opt_str_view(image_id),
                url: opt_str_view(url),
                path: opt_str_view(path),
            },
            MessageContent::FlashImage { image_id, url, path } => ContentV::FlashImage {
                image_id: opt_str_view(image_id),
                url: opt_str_view(url),
                path: opt_str_view(path),
            },
            MessageContent::Xml { xml } => ContentV::Xml { xml: xml@ },
            MessageContent::Json { json } => ContentV::Json { json: json@ },
            MessageContent::App { content } => ContentV::App { content: content@ },
            MessageContent::Poke { name } => ContentV::Poke { name: name@ },
            MessageContent::Unsupported => ContentV::Unsupported,
        }
    }
}

/// The one-line display form of a content element.
pub open spec fn spec_content_text(m: ContentV) -> Seq<char> {
    match m {
        ContentV::Plain { text } => text,
        ContentV::At { target, display } => "[at:"@ + spec_u64_text(target as int) + "@"@
            + display + "]"@,
        ContentV::AtAll => "[atall]"@,
        ContentV::Face { face_id: Some(id), name } => "[ce:"@ + spec_i64_text(id as int) + "]"@,
        ContentV::Face { face_id: None, name: Some(name) } => "[ce:"@ + name + "]"@,
        ContentV::Face { face_id: None, name: None } => Seq::empty(),
        ContentV::Image { .. } => "[image]"@,
        ContentV::FlashImage { .. } => "[flash_image]"@,
        ContentV::Xml { xml } => "[xml:"@ + xml + "]"@,
        ContentV::Json { json } => "[json:"@ + json + "]"@,
        ContentV::App { content } => "[app:"@ + content + "]"@,
        ContentV::Poke { name } => "[poke:"@ + name + "]"@,
        ContentV::Unsupported => "Unsupported"@,
    }
}

impl MessageContent {
    /// A plain-text element.
    pub fn plain(text: &str) -> (r: MessageContent)
        ensures
            r@ == (ContentV::Plain { text: text@ }),
    {
        MessageContent::Plain { text: text.to_owned() }
    }

    /// Renders the element as display text, one bracketed token per shape.
    pub fn to_text(&self) -> (r: String)
        requires
            self@.wf(),
        ensures
            r@ == spec_content_text(self@),
    {
        match self {
            MessageContent::Plain { text } => text.clone(),
            MessageContent::At { target, display } => {
                let mut s = String::from_str("[at:");
                let num = u64_to_string(*target);
                s.append(num.as_str());
                s.append("@");
                s.append(display.as_str());
                s.append("]");
                proof {
                    assert(s@ =~= spec_content_text(self@));
                }
                s
            },
            MessageContent::AtAll => String::from_str("[atall]"),
            MessageContent::Face { face_id, name } => {
                let mut s = String::from_str("[ce:");
                match face_id {
                    Some(id) => {
                        let num = i64_to_string(*id as i64);
                        s.append(num.as_str());
                    },
                    None => {
                        match name {
                            Some(name) => { s.append(name.as_str()) },
                            None => {
                                proof {
                                    assert(false);
                                }
                            },
                        }
                    },
                }
                s.append("]");
                proof {
                    assert(s@ =~= spec_content_text(self@));
                }
                s
            },
            MessageContent::Image { .. } => String::from_str("[image]"),
            MessageContent::FlashImage { .. } => String::from_str("[flash_image]"),
            MessageContent::Xml { xml } => {
                let mut s = String::from_str("[xml:");
                s.append(xml.as_str());
                s.append("]");
                proof {
                    assert(s@ =~= spec_content_text(self@));
                }
                s
            },
            MessageContent::Json { json } => {
                let mut s = String::from_str("[json:");
                s.append(json.as_str());
                s.append("]");
                proof {
                    assert(s@ =~= spec_content_text(self@));
                }
                s
            },
            MessageContent::App { content } => {
                let mut s = String::from_str("[app:");
                s.append(content.as_str());
                s.append("]");
                proof {
                    assert(s@ =~= spec_content_text(self@));
                }
                s
            },
            MessageContent::Poke { name } => {
                let mut s = String::from_str("[poke:");
                s.append(name.as_str());
                s.append("]");
                proof {
                    assert(s@ =~= spec_content_text(self@));
                }
                s
            },
            MessageContent::Unsupported => String::from_str("Unsupported"),
        }
    }
}

impl From<String> for MessageContent {
    /// Plain text from an owned string.
    fn from(text: String) -> (r: MessageContent) {
        MessageContent::Plain { text }
    }
}

impl vstd::std_specs::convert::FromSpecImpl<String> for MessageContent {
    open spec fn obeys_from_spec() -> bool {
        true
    }

    open spec fn from_spec(text: String) -> MessageContent {
        MessageContent::Plain { text }
    }
}

} // verus!
