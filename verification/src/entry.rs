//! The entry model: the aggregate catalogue record and its serialization,
//! the per-entity-kind adapters that build it, and the laws that hold of
//! both.
//!
//! One `OpdsEntry` serializes to exactly one `<entry>` XML element whose
//! children come in a fixed order: `title`, `id`, `updated`, `content`
//! (an empty element when no body text is present), the `author` block
//! (only when an author list is present), each `link` in list order, and
//! the paging-progress link last.

use vstd::prelude::*;
use vstd::string::{StrSliceExecFns, StringExecFns};

use crate::link::{
    link_events, opt_str_view, stream_link_events, LinkView, OpdsLink, OpdsStreamLink,
    StreamLinkView,
};
use crate::media_types::{
    spec_content_type_str, spec_link_type_of_content, spec_link_type_of_extension, ContentType,
    OpdsLinkRel, OpdsLinkType,
};
use crate::records::{
    lookup_content_type, opt_pairs_view, spec_resolved_type, spec_session_page, LibraryRecord,
    MediaRecord, SeriesRecord,
};
use crate::textutil::{
    dec_str, encode_component, file_name_of, html_br_text, mib_label, mib_string, path_file_name,
    replace_newlines, u64_to_dec, url_encoded,
};
use crate::xmlio::{text_element_events, SerializationError, XmlEv, XmlWriter};

verus! {

/// One OPDS catalogue entry, as specified at
/// <https://specs.opds.io/opds-1.2#5-opds-catalog-entry-documents>.
pub struct OpdsEntry {
    id: String,
    updated: String,
    title: String,
    content: Option<String>,
    authors: Option<Vec<String>>,
    links: Vec<OpdsLink>,
    stream_link: Option<OpdsStreamLink>,
}

/// The mathematical value of an `OpdsEntry`.
#[verifier::ext_equal]
pub ghost struct EntryView {
    pub id: Seq<char>,
    pub updated: Seq<char>,
    pub title: Seq<char>,
    pub content: Option<Seq<char>>,
    pub authors: Option<Seq<Seq<char>>>,
    pub links: Seq<LinkView>,
    pub stream_link: Option<StreamLinkView>,
}

/// The view of an optional author list.
pub open spec fn opt_authors_view(o: Option<Vec<String>>) -> Option<Seq<Seq<char>>> {
    match o {
        Some(v) => Some(v.deep_view()),
        None => None,
    }
}

/// The view of an optional stream link.
pub open spec fn opt_stream_view(o: Option<OpdsStreamLink>) -> Option<StreamLinkView> {
    match o {
        Some(s) => Some(s@),
        None => None,
    }
}

/// The views of a link list, in order.
pub open spec fn links_view(ls: Seq<OpdsLink>) -> Seq<LinkView> {
    ls.map_values(|l: OpdsLink| l@)
}

impl View for OpdsEntry {
    type V = EntryView;

    closed spec fn view(&self) -> EntryView {
        EntryView {
            id: self.id@,
            updated: self.updated@,
            title: self.title@,
            content: opt_str_view(self.content),
            authors: opt_authors_view(self.authors),
            links: links_view(self.links@),
            stream_link: opt_stream_view(self.stream_link),
        }
    }
}

/// The invariant of every entry: identity and title are never empty, and
/// the `updated` stamp is always present (it is not optional here at all).
pub open spec fn entry_wf(e: EntryView) -> bool {
    e.id.len() > 0 && e.title.len() > 0
}

/// The events of the `content` child: the body text with newlines turned
/// into `<br/>`, or an empty element when no body text is present — the
/// element itself is never omitted.
pub open spec fn content_events(c: Option<Seq<char>>) -> Seq<XmlEv> {
    match c {
        Some(t) => text_element_events("content"@, html_br_text(t)),
        None => seq![XmlEv::Start { name: "content"@, attrs: Seq::empty() }, XmlEv::End],
    }
}

/// The events of the author names: one `name` element per author, in list
/// order.
pub open spec fn name_events(names: Seq<Seq<char>>) -> Seq<XmlEv>
    decreases names.len(),
{
    if names.len() == 0 {
        Seq::empty()
    } else {
        name_events(names.drop_last()) + text_element_events("name"@, names.last())
    }
}

/// The events of the `author` block: nothing at all when no author list is
/// present; one wrapping `author` element holding the names otherwise, even
/// when the list is empty.
pub open spec fn author_events(authors: Option<Seq<Seq<char>>>) -> Seq<XmlEv> {
    match authors {
        Some(names) => seq![XmlEv::Start { name: "author"@, attrs: Seq::empty() }] + name_events(
            names,
        ) + seq![XmlEv::End],
        None => Seq::empty(),
    }
}

/// The events of the link list, in list order.
pub open spec fn links_events(ls: Seq<LinkView>) -> Seq<XmlEv>
    decreases ls.len(),
{
    if ls.len() == 0 {
        Seq::empty()
    } else {
        links_events(ls.drop_last()) + link_events(ls.last())
    }
}

/// The events of the optional stream link.
pub open spec fn stream_events_opt(s: Option<StreamLinkView>) -> Seq<XmlEv> {
    match s {
        Some(sl) => stream_link_events(sl),
        None => Seq::empty(),
    }
}

/// The full event sequence of one serialized entry, in the fixed child
/// order: `title`, `id`, `updated`, `content`, the `author` block, each
/// `link`, then the stream link.
pub open spec fn entry_events(e: EntryView) -> Seq<XmlEv> {
    seq![XmlEv::Start { name: "entry"@, attrs: Seq::empty() }] + text_element_events(
        "title"@,
        e.title,
    ) + text_element_events("id"@, e.id) + text_element_events("updated"@, e.updated)
        + content_events(e.content) + author_events(e.authors) + links_events(e.links)
        + stream_events_opt(e.stream_link) + seq![XmlEv::End]
}

impl OpdsEntry {
    /// Stores the given parts; a missing link list stands for an empty one.
    pub fn new(
        id: String,
        updated: String,
        title: String,
        content: Option<String>,
        authors: Option<Vec<String>>,
        links: Option<Vec<OpdsLink>>,
        stream_link: Option<OpdsStreamLink>,
    ) -> (r: OpdsEntry)
        requires
            id@.len() > 0,
            title@.len() > 0,
        ensures
            r@ == (EntryView {
                id: id@,
                updated: updated@,
                title: title@,
                content: opt_str_view(content),
                authors: opt_authors_view(authors),
                links: match links {
                    Some(l) => links_view(l@),
                    None => Seq::empty(),
                },
                stream_link: opt_stream_view(stream_link),
            }),
            entry_wf(r@),
    {
        let links = match links {
            Some(l) => l,
            None => Vec::new(),
        };
        let r = OpdsEntry { id, updated, title, content, authors, links, stream_link };
        proof {
            assert(links_view(Seq::<OpdsLink>::empty()) =~= Seq::<LinkView>::empty());
        }
        r
    }

    /// The body text as rendered: newlines become `<br/>` tags.
    fn get_content(&self) -> (r: Option<String>)
        ensures
            r is Some <==> self@.content is Some,
            r is Some ==> r->0@ == html_br_text(self@.content->0),
    {
        match &self.content {
            Some(c) => Some(replace_newlines(c.as_str())),
            None => None,
        }
    }

    /// Writes exactly one `<entry>` element for this entry.  On success the
    /// sink has accepted exactly the events of `entry_events`; on failure
    /// nothing may be assumed of the sink and the entry must be treated as
    /// not emitted.
    #[verifier::rlimit(100)]
    pub fn write(&self, writer: &mut XmlWriter) -> (r: Result<(), SerializationError>)
        ensures
            r is Ok ==> final(writer)@ == old(writer)@ + entry_events(self@),
    {
        writer.start_element("entry")?;
        writer.write_text_element("title", self.title.as_str())?;
        writer.write_text_element("id", self.id.as_str())?;
        writer.write_text_element("updated", self.updated.as_str())?;
        match self.get_content() {
            Some(content) => {
                writer.write_text_element("content", content.as_str())?;
            },
            None => {
                writer.start_element("content")?;
                writer.end_element()?;
            },
        }
        let ghost head = old(writer)@ + seq![
            XmlEv::Start { name: "entry"@, attrs: Seq::empty() },
        ] + text_element_events("title"@, self@.title) + text_element_events("id"@, self@.id)
            + text_element_events("updated"@, self@.updated) + content_events(self@.content);
        proof {
            assert(writer@ =~= head);
        }
        if let Some(authors) = &self.authors {
            writer.start_element("author")?;
            let ghost names = self@.authors->0;
            let n = authors.len();
            let mut i: usize = 0;
            while i < n
                invariant
                    n == authors@.len(),
                    i <= n,
                    names == authors.deep_view(),
                    writer@ == head + seq![
                        XmlEv::Start { name: "author"@, attrs: Seq::empty() },
                    ] + name_events(names.take(i as int)),
                decreases n - i,
            {
                writer.write_text_element("name", authors[i].as_str())?;
                proof {
                    assert(names.take(i + 1).drop_last() =~= names.take(i as int));
                    assert(names.take(i + 1).last() == authors@[i as int]@);
                    assert(writer@ =~= head + seq![
                        XmlEv::Start { name: "author"@, attrs: Seq::empty() },
                    ] + name_events(names.take(i + 1)));
                }
                i = i + 1;
            }
            writer.end_element()?;
            proof {
                assert(names.take(names.len() as int) =~= names);
                assert(writer@ =~= head + author_events(self@.authors));
            }
        }
        let ghost mid = head + author_events(self@.authors);
        proof {
            assert(writer@ =~= mid);
        }
        let n = self.links.len();
        let mut i: usize = 0;
        while i < n
            invariant
                n == self.links@.len(),
                i <= n,
                writer@ == mid + links_events(links_view(self.links@).take(i as int)),
            decreases n - i,
        {
            let ghost lviews = links_view(self.links@);
            self.links[i].write(writer)?;
            proof {
                assert(lviews.take(i + 1).drop_last() =~= lviews.take(i as int));
                assert(lviews.take(i + 1).last() == self.links@[i as int]@);
                assert(writer@ =~= mid + links_events(lviews.take(i + 1)));
            }
            i = i + 1;
        }
        proof {
            assert(links_view(self.links@).take(self.links@.len() as int) =~= links_view(
                self.links@,
            ));
        }
        if let Some(stream_link) = &self.stream_link {
            stream_link.write(writer)?;
        }
        writer.end_element()?;
        proof {
            assert(writer@ =~= old(writer)@ + entry_events(self@));
        }
        Ok(())
    }
}

/// The URL prefix rule shared by every generated link: with an access key
/// the key is woven in as a path segment, without one the unkeyed form is
/// used.
pub open spec fn spec_format_url(key: Option<Seq<char>>, path: Seq<char>) -> Seq<char> {
    match key {
        Some(k) => "/opds/"@ + k + "/v1.2/"@ + path,
        None => "/opds/v1.2/"@ + path,
    }
}

/// Builds the OPDS entry of one source record, weaving an optional
/// per-catalogue access key into every generated URL.
pub struct OPDSEntryBuilder<T> {
    data: T,
    api_key: Option<String>,
}

impl<T> OPDSEntryBuilder<T> {
    /// The record this builder converts.
    pub closed spec fn spec_data(&self) -> T {
        self.data
    }

    /// The access key this builder weaves into URLs.
    pub closed spec fn spec_api_key(&self) -> Option<String> {
        self.api_key
    }

    /// Stores the record and the optional access key.
    pub fn new(data: T, api_key: Option<String>) -> (r: OPDSEntryBuilder<T>)
        ensures
            r.spec_data() == data,
            r.spec_api_key() == api_key,
    {
        OPDSEntryBuilder { data, api_key }
    }

    /// The catalogue URL of `path`, keyed or unkeyed after this builder's
    /// access key.
    pub fn format_url(&self, path: &str) -> (r: String)
        ensures
            r@ == spec_format_url(opt_str_view(self.spec_api_key()), path@),
    {
        match &self.api_key {
            Some(key) => {
                let mut r = "/opds/".to_owned();
                r.append(key.as_str());
                r.append("/v1.2/");
                r.append(path);
                r
            },
            None => {
                let mut r = "/opds/v1.2/".to_owned();
                r.append(path);
                r
            },
        }
    }
}

/// One conversion per source-entity kind into an OPDS entry.
pub trait IntoOPDSEntry: Sized {
    /// Whether the source data is fit for conversion: whatever the entry
    /// invariant needs of it.
    spec fn conversion_ok(self) -> bool;

    /// The entry this conversion yields, given the `updated` stamp the
    /// returned entry carries (kinds whose records carry their own
    /// timestamp ignore the argument).
    spec fn spec_entry(self, updated: Seq<char>) -> EntryView;

    /// Builds the entry of this builder's record.
    fn into_opds_entry(self) -> (r: OpdsEntry)
        requires
            self.conversion_ok(),
        ensures
            r@ == self.spec_entry(r@.updated),
            entry_wf(r@),
    ;
}

/// The entry of a library record: one navigation link to the library's own
/// catalogue, the record's description as body text, no authors and no
/// stream link.
pub open spec fn spec_library_entry(rec: LibraryRecord, key: Option<Seq<char>>) -> EntryView {
    EntryView {
        id: rec.id@,
        updated: rec.updated_at@,
        title: rec.name@,
        content: opt_str_view(rec.description),
        authors: None,
        links: seq![
            LinkView {
                link_type: OpdsLinkType::Navigation,
                rel: OpdsLinkRel::Subsection,
                href: spec_format_url(key, "libraries/"@ + rec.id@),
            },
        ],
        stream_link: None,
    }
}

impl IntoOPDSEntry for OPDSEntryBuilder<LibraryRecord> {
    open spec fn conversion_ok(self) -> bool {
        self.spec_data().id@.len() > 0 && self.spec_data().name@.len() > 0
    }

    open spec fn spec_entry(self, updated: Seq<char>) -> EntryView {
        spec_library_entry(self.spec_data(), opt_str_view(self.spec_api_key()))
    }

    fn into_opds_entry(self) -> (r: OpdsEntry) {
        let mut path = "libraries/".to_owned();
        path.append(self.data.id.as_str());
        let href = self.format_url(path.as_str());
        let mut links: Vec<OpdsLink> = Vec::new();
        links.push(OpdsLink::new(OpdsLinkType::Navigation, OpdsLinkRel::Subsection, href));
        let ghost orig = self;
        let OPDSEntryBuilder { data, api_key: _ } = self;
        let r = OpdsEntry::new(
            data.id,
            data.updated_at,
            data.name,
            data.description,
            None,
            Some(links),
            None,
        );
        proof {
            assert(r@ =~~= orig.spec_entry(r@.updated));
        }
        r
    }
}

/// The entry of a series record, shaped like a library entry with the link
/// aimed at the series catalogue.
pub open spec fn spec_series_entry(rec: SeriesRecord, key: Option<Seq<char>>) -> EntryView {
    EntryView {
        id: rec.id@,
        updated: rec.updated_at@,
        title: rec.name@,
        content: opt_str_view(rec.description),
        authors: None,
        links: seq![
            LinkView {
                link_type: OpdsLinkType::Navigation,
                rel: OpdsLinkRel::Subsection,
                href: spec_format_url(key, "series/"@ + rec.id@),
            },
        ],
        stream_link: None,
    }
}

impl IntoOPDSEntry for OPDSEntryBuilder<SeriesRecord> {
    open spec fn conversion_ok(self) -> bool {
        self.spec_data().id@.len() > 0 && self.spec_data().name@.len() > 0
    }

    open spec fn spec_entry(self, updated: Seq<char>) -> EntryView {
        spec_series_entry(self.spec_data(), opt_str_view(self.spec_api_key()))
    }

    fn into_opds_entry(self) -> (r: OpdsEntry) {
        let mut path = "series/".to_owned();
        path.append(self.data.id.as_str());
        let href = self.format_url(path.as_str());
        let mut links: Vec<OpdsLink> = Vec::new();
        links.push(OpdsLink::new(OpdsLinkType::Navigation, OpdsLinkRel::Subsection, href));
        let ghost orig = self;
        let OPDSEntryBuilder { data, api_key: _ } = self;
        let r = OpdsEntry::new(
            data.id,
            data.updated_at,
            data.name,
            data.description,
            None,
            Some(links),
            None,
        );
        proof {
            assert(r@ =~~= orig.spec_entry(r@.updated));
        }
        r
    }
}

/// The content type serving as the publication's thumbnail: page 1 as
/// resolved, or baseline JPEG when resolution yielded nothing for it.
pub open spec fn spec_thumbnail_type(m: MediaRecord) -> ContentType {
    match spec_resolved_type(opt_pairs_view(m.page_content_types), 1u32) {
        Some(c) => c,
        None => ContentType::Jpeg,
    }
}

/// The content type of the page the reader is at: its resolved type while
/// the page lies strictly below the page count, and the thumbnail type when
/// it is out of bounds, unresolved, or no page is recorded.
pub open spec fn spec_current_page_type(m: MediaRecord) -> ContentType {
    match spec_session_page(m) {
        Some(p) => if p < m.pages {
            match spec_resolved_type(opt_pairs_view(m.page_content_types), p) {
                Some(c) => c,
                None => spec_thumbnail_type(m),
            }
        } else {
            spec_thumbnail_type(m)
        },
        None => spec_thumbnail_type(m),
    }
}

/// The link type of the thumbnail and page-image links: the thumbnail
/// content type's own link type, or the generic JPEG image type when it has
/// none.
pub open spec fn spec_thumbnail_link_type(m: MediaRecord) -> OpdsLinkType {
    match spec_link_type_of_content(spec_thumbnail_type(m)) {
        Some(t) => t,
        None => OpdsLinkType::ImageJpeg,
    }
}

/// The acquisition link type of the publication file: by extension, or the
/// generic ZIP-compatible archive type when the extension matches nothing.
pub open spec fn spec_acquisition_link_type(m: MediaRecord) -> OpdsLinkType {
    match spec_link_type_of_extension(m.extension@) {
        Some(t) => t,
        None => OpdsLinkType::Zip,
    }
}

/// The base URL of the publication's resources.
pub open spec fn spec_media_base_url(m: MediaRecord, key: Option<Seq<char>>) -> Seq<char> {
    spec_format_url(key, "books/"@ + m.id@)
}

/// The three links of a publication entry: thumbnail, the full image of
/// page 1, and acquisition of the file under its percent-encoded name.
pub open spec fn spec_media_links(m: MediaRecord, key: Option<Seq<char>>) -> Seq<LinkView> {
    seq![
        LinkView {
            link_type: spec_thumbnail_link_type(m),
            rel: OpdsLinkRel::Thumbnail,
            href: spec_media_base_url(m, key) + "/thumbnail"@,
        },
        LinkView {
            link_type: spec_thumbnail_link_type(m),
            rel: OpdsLinkRel::Image,
            href: spec_media_base_url(m, key) + "/pages/1"@,
        },
        LinkView {
            link_type: spec_acquisition_link_type(m),
            rel: OpdsLinkRel::Acquisition,
            href: spec_media_base_url(m, key) + "/file/"@ + url_encoded(
                path_file_name(m.path@),
            ),
        },
    ]
}

/// The stream link of a publication entry: always constructed, with the
/// last-read page and date absent exactly when no session exists.
pub open spec fn spec_media_stream_link(m: MediaRecord) -> StreamLinkView {
    StreamLinkView {
        entity_id: m.id@,
        page_count: dec_str(m.pages as nat),
        current_type: spec_content_type_str(spec_current_page_type(m)),
        current_page: match spec_session_page(m) {
            Some(p) => Some(dec_str(p as nat)),
            None => None,
        },
        last_read_at: match m.active_reading_session {
            Some(s) => Some(s.updated_at@),
            None => None,
        },
    }
}

/// The body text of a publication entry: the file size in MiB with one
/// decimal place and the extension, and the metadata summary after a line
/// break where one exists.
pub open spec fn spec_media_content(m: MediaRecord) -> Seq<char> {
    mib_label(m.size) + " MiB - "@ + m.extension@ + (match m.metadata_summary {
        Some(s) => "<br/><br/>"@ + s@,
        None => Seq::empty(),
    })
}

/// The entry of a publication record, carrying the given `updated` stamp.
pub open spec fn spec_media_entry(
    m: MediaRecord,
    key: Option<Seq<char>>,
    updated: Seq<char>,
) -> EntryView {
    EntryView {
        id: m.id@,
        updated,
        title: m.name@,
        content: Some(spec_media_content(m)),
        authors: None,
        links: spec_media_links(m, key),
        stream_link: Some(spec_media_stream_link(m)),
    }
}

/// Relies on `chrono::Utc::now` and `chrono::DateTime::to_rfc3339`: the
/// current wall-clock instant rendered as an RFC 3339 timestamp, which is
/// never empty.
#[verifier::external_body]
fn now_rfc3339() -> (r: String)
    ensures
        r@.len() > 0,
{
    chrono::Utc::now().to_rfc3339()
}

impl OPDSEntryBuilder<MediaRecord> {
    /// Builds the publication's entry carrying the given `updated` stamp.
    #[verifier::rlimit(50)]
    pub fn into_opds_entry_at(self, updated: String) -> (r: OpdsEntry)
        requires
            self.conversion_ok(),
        ensures
            r@ == spec_media_entry(
                self.spec_data(),
                opt_str_view(self.spec_api_key()),
                updated@,
            ),
            entry_wf(r@),
    {
        let mut path = "books/".to_owned();
        path.append(self.data.id.as_str());
        let base_url = self.format_url(path.as_str());

        let file_name = file_name_of(self.data.path.as_str());
        let file_name_encoded = encode_component(file_name.as_str());

        let (current_page, last_read_at): (Option<u32>, Option<String>) = match &self
            .data
            .active_reading_session {
            Some(s) => (s.page, Some(s.updated_at.clone())),
            None => (None, None),
        };

        let thumbnail_type = match lookup_content_type(&self.data.page_content_types, 1) {
            Some(c) => c,
            None => ContentType::Jpeg,
        };
        let current_page_type = match current_page {
            Some(p) => if p < self.data.pages {
                match lookup_content_type(&self.data.page_content_types, p) {
                    Some(c) => c,
                    None => thumbnail_type,
                }
            } else {
                thumbnail_type
            },
            None => thumbnail_type,
        };
        let thumbnail_link_type = match OpdsLinkType::of_content_type(thumbnail_type) {
            Some(t) => t,
            None => OpdsLinkType::ImageJpeg,
        };
        let acquisition_link_type = match OpdsLinkType::from_extension(
            self.data.extension.as_str(),
        ) {
            Some(t) => t,
            None => OpdsLinkType::Zip,
        };

        let mut thumb_href = base_url.clone();
        thumb_href.append("/thumbnail");
        let mut image_href = base_url.clone();
        image_href.append("/pages/1");
        let mut file_href = base_url.clone();
        file_href.append("/file/");
        file_href.append(file_name_encoded.as_str());

        let mut links: Vec<OpdsLink> = Vec::new();
        links.push(OpdsLink::new(thumbnail_link_type, OpdsLinkRel::Thumbnail, thumb_href));
        links.push(OpdsLink::new(thumbnail_link_type, OpdsLinkRel::Image, image_href));
        links.push(OpdsLink::new(acquisition_link_type, OpdsLinkRel::Acquisition, file_href));

        let stream_link = OpdsStreamLink::new(
            self.data.id.clone(),
            u64_to_dec(self.data.pages as u64),
            current_page_type.mime().to_owned(),
            match current_page {
                Some(p) => Some(u64_to_dec(p as u64)),
                None => None,
            },
            last_read_at,
        );

        let mut content = mib_string(self.data.size);
        content.append(" MiB - ");
        content.append(self.data.extension.as_str());
        if let Some(summary) = &self.data.metadata_summary {
            content.append("<br/><br/>");
            content.append(summary.as_str());
        }

        let ghost orig = self;
        let OPDSEntryBuilder { data, api_key: _ } = self;
        let r = OpdsEntry::new(
            data.id,
            updated,
            data.name,
            Some(content),
            None,
            Some(links),
            Some(stream_link),
        );
        proof {
            assert(r@ =~~= spec_media_entry(
                orig.spec_data(),
                opt_str_view(orig.spec_api_key()),
                updated@,
            ));
        }
        r
    }
}

impl IntoOPDSEntry for OPDSEntryBuilder<MediaRecord> {
    open spec fn conversion_ok(self) -> bool {
        self.spec_data().id@.len() > 0 && self.spec_data().name@.len() > 0
    }

    open spec fn spec_entry(self, updated: Seq<char>) -> EntryView {
        spec_media_entry(self.spec_data(), opt_str_view(self.spec_api_key()), updated)
    }

    fn into_opds_entry(self) -> (r: OpdsEntry) {
        let updated = now_rfc3339();
        self.into_opds_entry_at(updated)
    }
}

/// Whether no start event in `s` opens an element called `name`.
pub open spec fn no_start_named(s: Seq<XmlEv>, name: Seq<char>) -> bool {
    forall|i: int| 0 <= i < s.len() ==> !(#[trigger] s[i] is Start && s[i]->Start_name == name)
}

proof fn lemma_no_start_named_concat(a: Seq<XmlEv>, b: Seq<XmlEv>, name: Seq<char>)
    requires
        no_start_named(a, name),
        no_start_named(b, name),
    ensures
        no_start_named(a + b, name),
{
    assert forall|i: int| 0 <= i < (a + b).len() implies !(#[trigger] (a + b)[i] is Start && (a
        + b)[i]->Start_name == name) by {
        if i < a.len() {
            assert((a + b)[i] == a[i]);
        } else {
            assert((a + b)[i] == b[i - a.len()]);
        }
    }
}

proof fn lemma_text_element_no_start_named(ename: Seq<char>, text: Seq<char>, name: Seq<char>)
    requires
        ename != name,
    ensures
        no_start_named(text_element_events(ename, text), name),
{
    let s = text_element_events(ename, text);
    assert forall|i: int| 0 <= i < s.len() implies !(#[trigger] s[i] is Start
        && s[i]->Start_name == name) by {
        assert(s[0] == (XmlEv::Start { name: ename, attrs: Seq::<(Seq<char>, Seq<char>)>::empty() }));
        assert(s[1] == (XmlEv::Text { content: text }));
        assert(s[2] == XmlEv::End);
    }
}

proof fn lemma_two_event_element_no_start_named(ev0: XmlEv, ename: Seq<char>, name: Seq<char>)
    requires
        ev0 is Start,
        ev0->Start_name == ename,
        ename != name,
    ensures
        no_start_named(seq![ev0, XmlEv::End], name),
{
    let s = seq![ev0, XmlEv::End];
    assert forall|i: int| 0 <= i < s.len() implies !(#[trigger] s[i] is Start
        && s[i]->Start_name == name) by {
        assert(s[0] == ev0);
        assert(s[1] == XmlEv::End);
    }
}

proof fn lemma_links_events_start_link_only(ls: Seq<LinkView>, name: Seq<char>)
    requires
        name != "link"@,
    ensures
        no_start_named(links_events(ls), name),
    decreases ls.len(),
{
    if ls.len() > 0 {
        lemma_links_events_start_link_only(ls.drop_last(), name);
        lemma_two_event_element_no_start_named(link_events(ls.last())[0], "link"@, name);
        assert(link_events(ls.last()) =~= seq![link_events(ls.last())[0], XmlEv::End]);
        lemma_no_start_named_concat(links_events(ls.drop_last()), link_events(ls.last()), name);
    }
}

/// Law: an entry without an author list emits no `author` element at all —
/// no start event anywhere in its serialization opens one.
pub proof fn lemma_absent_authors_emit_no_author_element(e: EntryView)
    requires
        e.authors is None,
    ensures
        no_start_named(entry_events(e), "author"@),
{
    reveal_strlit("author");
    reveal_strlit("entry");
    reveal_strlit("title");
    reveal_strlit("id");
    reveal_strlit("updated");
    reveal_strlit("content");
    reveal_strlit("link");
    let name = "author"@;
    let s1 = seq![XmlEv::Start { name: "entry"@, attrs: Seq::<(Seq<char>, Seq<char>)>::empty() }];
    let s2 = text_element_events("title"@, e.title);
    let s3 = text_element_events("id"@, e.id);
    let s4 = text_element_events("updated"@, e.updated);
    let s5 = content_events(e.content);
    let s6 = author_events(e.authors);
    let s7 = links_events(e.links);
    let s8 = stream_events_opt(e.stream_link);
    let s9 = seq![XmlEv::End];
    assert("entry"@.len() == 5);
    assert("title"@.len() == 5);
    assert("id"@.len() == 2);
    assert("updated"@.len() == 7);
    assert("content"@.len() == 7);
    assert("link"@.len() == 4);
    assert(name.len() == 6);
    assert(no_start_named(s1, name)) by {
        assert forall|i: int| 0 <= i < s1.len() implies !(#[trigger] s1[i] is Start
            && s1[i]->Start_name == name) by {
            assert(s1[0]->Start_name == "entry"@);
        }
    }
    lemma_text_element_no_start_named("title"@, e.title, name);
    lemma_text_element_no_start_named("id"@, e.id, name);
    lemma_text_element_no_start_named("updated"@, e.updated, name);
    match e.content {
        Some(t) => {
            lemma_text_element_no_start_named("content"@, html_br_text(t), name);
        },
        None => {
            lemma_two_event_element_no_start_named(s5[0], "content"@, name);
            assert(s5 =~= seq![s5[0], XmlEv::End]);
        },
    }
    assert(no_start_named(s6, name));
    lemma_links_events_start_link_only(e.links, name);
    match e.stream_link {
        Some(sl) => {
            lemma_two_event_element_no_start_named(s8[0], "link"@, name);
            assert(s8 =~= seq![s8[0], XmlEv::End]);
        },
        None => {},
    }
    assert(no_start_named(s8, name));
    assert(no_start_named(s9, name)) by {
        assert forall|i: int| 0 <= i < s9.len() implies !(#[trigger] s9[i] is Start
            && s9[i]->Start_name == name) by {
            assert(s9[0] == XmlEv::End);
        }
    }
    lemma_no_start_named_concat(s1, s2, name);
    lemma_no_start_named_concat(s1 + s2, s3, name);
    lemma_no_start_named_concat(s1 + s2 + s3, s4, name);
    lemma_no_start_named_concat(s1 + s2 + s3 + s4, s5, name);
    lemma_no_start_named_concat(s1 + s2 + s3 + s4 + s5, s6, name);
    lemma_no_start_named_concat(s1 + s2 + s3 + s4 + s5 + s6, s7, name);
    lemma_no_start_named_concat(s1 + s2 + s3 + s4 + s5 + s6 + s7, s8, name);
    lemma_no_start_named_concat(s1 + s2 + s3 + s4 + s5 + s6 + s7 + s8, s9, name);
}

/// Whether the three events of the `i`-th author name stand at their place
/// in `name_events(names)`: its `name` element start, its text, its end.
pub open spec fn name_triple_at(names: Seq<Seq<char>>, i: int) -> bool {
    &&& name_events(names)[3 * i] == (XmlEv::Start {
        name: "name"@,
        attrs: Seq::<(Seq<char>, Seq<char>)>::empty(),
    })
    &&& name_events(names)[3 * i + 1] == (XmlEv::Text { content: names[i] })
    &&& name_events(names)[3 * i + 2] == XmlEv::End
}

/// Law: an entry with an author list emits one wrapping `author` element
/// holding exactly one `name` element per author, in list order.
pub proof fn lemma_authors_emit_one_name_each(names: Seq<Seq<char>>)
    ensures
        author_events(Some(names)) == seq![
            XmlEv::Start { name: "author"@, attrs: Seq::<(Seq<char>, Seq<char>)>::empty() },
        ] + name_events(names) + seq![XmlEv::End],
        name_events(names).len() == 3 * names.len(),
        forall|i: int| 0 <= i < names.len() ==> #[trigger] name_triple_at(names, i),
    decreases names.len(),
{
    if names.len() > 0 {
        lemma_authors_emit_one_name_each(names.drop_last());
        let prefix = name_events(names.drop_last());
        let tail = text_element_events("name"@, names.last());
        assert forall|i: int| 0 <= i < names.len() implies #[trigger] name_triple_at(
            names,
            i,
        ) by {
            if i < names.len() - 1 {
                assert(name_triple_at(names.drop_last(), i));
                assert((prefix + tail)[3 * i] == prefix[3 * i]);
                assert((prefix + tail)[3 * i + 1] == prefix[3 * i + 1]);
                assert((prefix + tail)[3 * i + 2] == prefix[3 * i + 2]);
                assert(names.drop_last()[i] == names[i]);
            } else {
                assert((prefix + tail)[3 * i] == tail[0]);
                assert((prefix + tail)[3 * i + 1] == tail[1]);
                assert((prefix + tail)[3 * i + 2] == tail[2]);
            }
        }
    }
}

/// Law: an entry without body text still holds a `content` element at its
/// fixed place among the children — empty, but never omitted.
pub proof fn lemma_absent_content_still_has_element(e: EntryView)
    requires
        e.content is None,
    ensures
        entry_events(e).len() >= 12,
        entry_events(e)[10] == (XmlEv::Start {
            name: "content"@,
            attrs: Seq::<(Seq<char>, Seq<char>)>::empty(),
        }),
        entry_events(e)[11] == XmlEv::End,
{
    let s1 = seq![XmlEv::Start { name: "entry"@, attrs: Seq::<(Seq<char>, Seq<char>)>::empty() }];
    let s2 = text_element_events("title"@, e.title);
    let s3 = text_element_events("id"@, e.id);
    let s4 = text_element_events("updated"@, e.updated);
    let s5 = content_events(e.content);
    let head = s1 + s2 + s3 + s4 + s5;
    assert(head.len() == 12);
    assert(head[10] == s5[0]);
    assert(head[11] == s5[1]);
    assert(entry_events(e)[10] == head[10]);
    assert(entry_events(e)[11] == head[11]);
}

/// Law: with no active reading session the stream link still exists, its
/// last-read page and date are absent, and its current type equals the
/// thumbnail type.
pub proof fn lemma_no_session_stream_defaults(
    m: MediaRecord,
    key: Option<Seq<char>>,
    updated: Seq<char>,
)
    requires
        m.active_reading_session is None,
    ensures
        spec_media_entry(m, key, updated).stream_link == Some(spec_media_stream_link(m)),
        spec_media_stream_link(m).current_page is None,
        spec_media_stream_link(m).last_read_at is None,
        spec_media_stream_link(m).current_type == spec_content_type_str(spec_thumbnail_type(m)),
{
}

/// Law: a recorded page at or past the page count falls back to the
/// thumbnail type; the entry is still produced with a stream link.
pub proof fn lemma_out_of_bounds_page_falls_back(
    m: MediaRecord,
    key: Option<Seq<char>>,
    updated: Seq<char>,
    p: u32,
)
    requires
        spec_session_page(m) == Some(p),
        p >= m.pages,
    ensures
        spec_current_page_type(m) == spec_thumbnail_type(m),
        spec_media_entry(m, key, updated).stream_link == Some(spec_media_stream_link(m)),
{
}

/// Law: when resolution yields nothing for page 1, the thumbnail and
/// page-image links both carry the baseline JPEG type, and the entry is
/// still produced with all three links.
pub proof fn lemma_unresolved_thumbnail_defaults_to_jpeg(
    m: MediaRecord,
    key: Option<Seq<char>>,
    updated: Seq<char>,
)
    requires
        spec_resolved_type(opt_pairs_view(m.page_content_types), 1u32) is None,
    ensures
        spec_thumbnail_type(m) == ContentType::Jpeg,
        spec_media_links(m, key)[0].link_type == OpdsLinkType::ImageJpeg,
        spec_media_links(m, key)[1].link_type == OpdsLinkType::ImageJpeg,
        spec_media_entry(m, key, updated).links == spec_media_links(m, key),
        spec_media_links(m, key).len() == 3,
{
}

} // verus!
