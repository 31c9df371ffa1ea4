//! Media types used by catalogue entries: the content type that the page
//! resolver reports for a page image, the OPDS link types, and the OPDS link
//! relations, each with its fixed, total mapping to the wire string.

use vstd::prelude::*;
use crate::textutil::str_eq;

verus! {

/// The media type of one page image, as the content-type resolver reports
/// it.  `Unknown` stands for any type outside the image types that an OPDS
/// client can use.
#[derive(Clone, Copy, Debug, PartialEq, Eq, Structural)]
pub enum ContentType {
    Jpeg,
    Png,
    Gif,
    Unknown,
}

/// The MIME string of a resolved content type.
pub open spec fn spec_content_type_str(c: ContentType) -> Seq<char> {
    match c {
        ContentType::Jpeg => "image/jpeg"@,
        ContentType::Png => "image/png"@,
        ContentType::Gif => "image/gif"@,
        ContentType::Unknown => "application/octet-stream"@,
    }
}

impl ContentType {
    /// The canonical MIME string of this content type.
    pub fn mime(&self) -> (r: &'static str)
        ensures
            r@ == spec_content_type_str(*self),
    {
        match self {
            ContentType::Jpeg => "image/jpeg",
            ContentType::Png => "image/png",
            ContentType::Gif => "image/gif",
            ContentType::Unknown => "application/octet-stream",
        }
    }
}

/// The media type advertised on a link.
#[derive(Clone, Copy, Debug, PartialEq, Eq, Structural)]
pub enum OpdsLinkType {
    Navigation,
    ImageJpeg,
    ImagePng,
    ImageGif,
    Zip,
    Epub,
}

/// The canonical OPDS string of a link type.
pub open spec fn spec_link_type_str(t: OpdsLinkType) -> Seq<char> {
    match t {
        OpdsLinkType::Navigation => "application/atom+xml;profile=opds-catalog;kind=navigation"@,
        OpdsLinkType::ImageJpeg => "image/jpeg"@,
        OpdsLinkType::ImagePng => "image/png"@,
        OpdsLinkType::ImageGif => "image/gif"@,
        OpdsLinkType::Zip => "application/zip"@,
        OpdsLinkType::Epub => "application/epub+zip"@,
    }
}

/// The link type matching a resolved page content type, where one exists.
pub open spec fn spec_link_type_of_content(c: ContentType) -> Option<OpdsLinkType> {
    match c {
        ContentType::Jpeg => Some(OpdsLinkType::ImageJpeg),
        ContentType::Png => Some(OpdsLinkType::ImagePng),
        ContentType::Gif => Some(OpdsLinkType::ImageGif),
        ContentType::Unknown => None,
    }
}

/// The acquisition link type matching a publication file extension, where
/// one exists: ZIP-compatible archives and EPUB are recognised.
pub open spec fn spec_link_type_of_extension(ext: Seq<char>) -> Option<OpdsLinkType> {
    if ext == "zip"@ || ext == "cbz"@ {
        Some(OpdsLinkType::Zip)
    } else if ext == "epub"@ {
        Some(OpdsLinkType::Epub)
    } else {
        None
    }
}

impl OpdsLinkType {
    /// The canonical OPDS string of this link type.
    pub fn as_str(&self) -> (r: &'static str)
        ensures
            r@ == spec_link_type_str(*self),
    {
        match self {
            OpdsLinkType::Navigation => "application/atom+xml;profile=opds-catalog;kind=navigation",
            OpdsLinkType::ImageJpeg => "image/jpeg",
            OpdsLinkType::ImagePng => "image/png",
            OpdsLinkType::ImageGif => "image/gif",
            OpdsLinkType::Zip => "application/zip",
            OpdsLinkType::Epub => "application/epub+zip",
        }
    }

    /// The link type for a resolved page content type, where one exists.
    pub fn of_content_type(c: ContentType) -> (r: Option<OpdsLinkType>)
        ensures
            r == spec_link_type_of_content(c),
    {
        match c {
            ContentType::Jpeg => Some(OpdsLinkType::ImageJpeg),
            ContentType::Png => Some(OpdsLinkType::ImagePng),
            ContentType::Gif => Some(OpdsLinkType::ImageGif),
            ContentType::Unknown => None,
        }
    }

    /// The acquisition link type for a publication file extension, where one
    /// exists.
    pub fn from_extension(ext: &str) -> (r: Option<OpdsLinkType>)
        ensures
            r == spec_link_type_of_extension(ext@),
    {
        if str_eq(ext, "zip") || str_eq(ext, "cbz") {
            Some(OpdsLinkType::Zip)
        } else if str_eq(ext, "epub") {
            Some(OpdsLinkType::Epub)
        } else {
            None
        }
    }
}

/// The relation of a link to its entry.
#[derive(Clone, Copy, Debug, PartialEq, Eq, Structural)]
pub enum OpdsLinkRel {
    Subsection,
    Image,
    Thumbnail,
    Acquisition,
}

/// The canonical OPDS relation string of a link relation.
pub open spec fn spec_link_rel_str(r: OpdsLinkRel) -> Seq<char> {
    match r {
        OpdsLinkRel::Subsection => "subsection"@,
        OpdsLinkRel::Image => "http://opds-spec.org/image"@,
        OpdsLinkRel::Thumbnail => "http://opds-spec.org/image/thumbnail"@,
        OpdsLinkRel::Acquisition => "http://opds-spec.org/acquisition"@,
    }
}

impl OpdsLinkRel {
    /// The canonical OPDS relation string of this relation.
    pub fn as_str(&self) -> (r: &'static str)
        ensures
            r@ == spec_link_rel_str(*self),
    {
        match self {
            OpdsLinkRel::Subsection => "subsection",
            OpdsLinkRel::Image => "http://opds-spec.org/image",
            OpdsLinkRel::Thumbnail => "http://opds-spec.org/image/thumbnail",
            OpdsLinkRel::Acquisition => "http://opds-spec.org/acquisition",
        }
    }
}

} // verus!
