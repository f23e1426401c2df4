//! Uploaded images and the kinds of chat they may be sent to.

use vstd::prelude::*;
use vstd::string::StringExecFns;

use crate::message::single::SingleMessage;

verus! {

/// Model of an [`Image`].
#[verifier::ext_equal]
pub struct ImageV {
    pub image_id: Seq<char>,
    pub url: Seq<char>,
    pub path: Seq<char>,
}

/// An image known to the gateway, by id, url and server path.
#[derive(Debug, Clone, PartialEq, Eq)]
pub struct Image {
    pub image_id: String,
    pub url: String,
    pub path: String,
}

impl View for Image {
    type V = ImageV;

    open spec fn view(&self) -> ImageV {
        ImageV { image_id: self.image_id@, url: self.url@, path: self.path@ }
    }
}

/// Which kind of chat an image upload is meant for.
#[derive(Debug, Clone, Copy, PartialEq, Eq, Structural)]
pub enum ImageType {
    Friend,
    Group,
    Temp,
}

/// The wire name of an image-upload kind.
pub open spec fn spec_image_type_text(t: ImageType) -> Seq<char> {
    match t {
        ImageType::Friend => "friend"@,
        ImageType::Group => "group"@,
        ImageType::Temp => "temp"@,
    }
}

impl ImageType {
    /// The kind's wire name.
    pub fn to_string(&self) -> (r: String)
        ensures
            r@ == spec_image_type_text(*self),
    {
        match self {
            ImageType::Friend => String::from_str("friend"),
            ImageType::Group => String::from_str("group"),
            ImageType::Temp => String::from_str("temp"),
        }
    }
}

impl From<Image> for SingleMessage {
    /// An image element carrying all three references.
    fn from(img: Image) -> (r: SingleMessage) {
        SingleMessage::Image {
            image_id: Some(img.image_id),
            url: Some(img.url),
            path: Some(img.path),
        }
    }
}

impl vstd::std_specs::convert::FromSpecImpl<Image> for SingleMessage {
    open spec fn obeys_from_spec() -> bool {
        true
    }

    open spec fn from_spec(img: Image) -> SingleMessage {
        SingleMessage::Image {
            image_id: Some(img.image_id),
            url: Some(img.url),
            path: Some(img.path),
        }
    }
}

} // verus!
