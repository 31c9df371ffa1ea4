//! The link model: a typed, related hyperlink (`OpdsLink`) and the
//! paging-progress link of the OPDS page-streaming extension
//! (`OpdsStreamLink`), each serializable to one XML `<link>` element.

use vstd::prelude::*;
use vstd::string::StringExecFns;
use crate::media_types::{spec_link_rel_str, spec_link_type_str, OpdsLinkRel, OpdsLinkType};
use crate::xmlio::{attr_views, SerializationError, XmlEv, XmlWriter};

verus! {

/// The view of an optional owned string.
pub open spec fn opt_str_view(o: Option<String>) -> Option<Seq<char>> {
    match o {
        Some(s) => Some(s@),
        None => None,
    }
}

/// A typed, related hyperlink.  Immutable once constructed.
pub struct OpdsLink {
    pub link_type: OpdsLinkType,
    pub rel: OpdsLinkRel,
    pub href: String,
}

/// The mathematical value of an `OpdsLink`.
#[verifier::ext_equal]
pub ghost struct LinkView {
    pub link_type: OpdsLinkType,
    pub rel: OpdsLinkRel,
    pub href: Seq<char>,
}

impl View for OpdsLink {
    type V = LinkView;

    open spec fn view(&self) -> LinkView {
        LinkView { link_type: self.link_type, rel: self.rel, href: self.href@ }
    }
}

/// The two events of a link element: a start carrying the `type`, `rel` and
/// `href` attributes in that order, and its end.
pub open spec fn link_events(l: LinkView) -> Seq<XmlEv> {
    seq![
        XmlEv::Start {
            name: "link"@,
            attrs: seq![
                ("type"@, spec_link_type_str(l.link_type)),
                ("rel"@, spec_link_rel_str(l.rel)),
                ("href"@, l.href),
            ],
        },
        XmlEv::End,
    ]
}

impl OpdsLink {
    /// Stores the three values; no validation is performed.
    pub fn new(link_type: OpdsLinkType, rel: OpdsLinkRel, href: String) -> (r: OpdsLink)
        ensures
            r@ == (LinkView { link_type, rel, href: href@ }),
    {
        OpdsLink { link_type, rel, href }
    }

    /// Writes this link as one self-closing `<link>` element.
    pub fn write(&self, writer: &mut XmlWriter) -> (r: Result<(), SerializationError>)
        ensures
            r is Ok ==> final(writer)@ == old(writer)@ + link_events(self@),
    {
        let mut attrs: Vec<(String, String)> = Vec::new();
        attrs.push(("type".to_owned(), self.link_type.as_str().to_owned()));
        attrs.push(("rel".to_owned(), self.rel.as_str().to_owned()));
        attrs.push(("href".to_owned(), self.href.clone()));
        writer.start_element_with_attrs("link", &attrs)?;
        writer.end_element()?;
        proof {
            assert(attr_views(attrs@) =~~= link_events(self@)[0]->Start_attrs);
            assert(writer@ =~~= old(writer)@ + link_events(self@));
        }
        Ok(())
    }
}

/// The OPDS page-streaming extension state of a publication entry.
pub struct OpdsStreamLink {
    pub entity_id: String,
    pub page_count: String,
    pub current_type: String,
    pub current_page: Option<String>,
    pub last_read_at: Option<String>,
}

/// The mathematical value of an `OpdsStreamLink`.
#[verifier::ext_equal]
pub ghost struct StreamLinkView {
    pub entity_id: Seq<char>,
    pub page_count: Seq<char>,
    pub current_type: Seq<char>,
    pub current_page: Option<Seq<char>>,
    pub last_read_at: Option<Seq<char>>,
}

impl View for OpdsStreamLink {
    type V = StreamLinkView;

    open spec fn view(&self) -> StreamLinkView {
        StreamLinkView {
            entity_id: self.entity_id@,
            page_count: self.page_count@,
            current_type: self.current_type@,
            current_page: opt_str_view(self.current_page),
            last_read_at: opt_str_view(self.last_read_at),
        }
    }
}

/// The streaming href of a publication: its page resource with the literal
/// `{pageNumber}` placeholder that clients substitute.
pub open spec fn spec_stream_href(entity_id: Seq<char>) -> Seq<char> {
    "/opds/v1.2/books/"@ + entity_id + "/pages/{pageNumber}?zero_based=true"@
}

/// The attributes of a stream link element: href, type, the fixed
/// page-streaming relation, the page count, and then the last-read page and
/// date, each present exactly when its field is.
pub open spec fn stream_attrs(s: StreamLinkView) -> Seq<(Seq<char>, Seq<char>)> {
    seq![
        ("href"@, spec_stream_href(s.entity_id)),
        ("type"@, s.current_type),
        ("rel"@, "http://vaemendis.net/opds-pse/stream"@),
        ("pse:count"@, s.page_count),
    ] + (match s.current_page {
        Some(p) => seq![("pse:lastRead"@, p)],
        None => Seq::empty(),
    }) + (match s.last_read_at {
        Some(d) => seq![("pse:lastReadDate"@, d)],
        None => Seq::empty(),
    })
}

/// The two events of a stream link element.
pub open spec fn stream_link_events(s: StreamLinkView) -> Seq<XmlEv> {
    seq![XmlEv::Start { name: "link"@, attrs: stream_attrs(s) }, XmlEv::End]
}

impl OpdsStreamLink {
    /// Stores the five values; no validation is performed.
    pub fn new(
        entity_id: String,
        page_count: String,
        current_type: String,
        current_page: Option<String>,
        last_read_at: Option<String>,
    ) -> (r: OpdsStreamLink)
        ensures
            r@ == (StreamLinkView {
                entity_id: entity_id@,
                page_count: page_count@,
                current_type: current_type@,
                current_page: opt_str_view(current_page),
                last_read_at: opt_str_view(last_read_at),
            }),
    {
        OpdsStreamLink { entity_id, page_count, current_type, current_page, last_read_at }
    }

    /// Writes this stream link as one self-closing `<link>` element.
    pub fn write(&self, writer: &mut XmlWriter) -> (r: Result<(), SerializationError>)
        ensures
            r is Ok ==> final(writer)@ == old(writer)@ + stream_link_events(self@),
    {
        let mut href = "/opds/v1.2/books/".to_owned();
        href.append(self.entity_id.as_str());
        href.append("/pages/{pageNumber}?zero_based=true");
        let mut attrs: Vec<(String, String)> = Vec::new();
        attrs.push(("href".to_owned(), href));
        attrs.push(("type".to_owned(), self.current_type.clone()));
        attrs.push(("rel".to_owned(), "http://vaemendis.net/opds-pse/stream".to_owned()));
        attrs.push(("pse:count".to_owned(), self.page_count.clone()));
        if let Some(p) = &self.current_page {
            attrs.push(("pse:lastRead".to_owned(), p.clone()));
        }
        if let Some(d) = &self.last_read_at {
            attrs.push(("pse:lastReadDate".to_owned(), d.clone()));
        }
        writer.start_element_with_attrs("link", &attrs)?;
        writer.end_element()?;
        proof {
            assert(attr_views(attrs@) =~~= stream_attrs(self@));
            assert(writer@ =~~= old(writer)@ + stream_link_events(self@));
        }
        Ok(())
    }
}

} // verus!
