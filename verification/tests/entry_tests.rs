use opds_entry::entry::{IntoOPDSEntry, OPDSEntryBuilder, OpdsEntry};
use opds_entry::link::{OpdsLink, OpdsStreamLink};
use opds_entry::media_types::{ContentType, OpdsLinkRel, OpdsLinkType};
use opds_entry::records::{LibraryRecord, MediaRecord, ReadingSessionRecord, SeriesRecord};
use opds_entry::xmlio::XmlWriter;

fn write_to_string(entry: &OpdsEntry) -> String {
    let mut writer = XmlWriter::new();
    entry.write(&mut writer).unwrap();
    String::from_utf8(writer.into_bytes()).unwrap()
}

#[test]
fn test_opds_entry() {
    let links = vec![
        OpdsLink::new(
            OpdsLinkType::ImagePng,
            OpdsLinkRel::Image,
            "/covers/4561.lrg.png".to_string(),
        ),
        OpdsLink::new(
            OpdsLinkType::ImageGif,
            OpdsLinkRel::Thumbnail,
            "/covers/4561.thmb.gif".to_string(),
        ),
    ];

    let stream_link = OpdsStreamLink::new(
        "123".to_string(),
        "35".to_string(),
        "image/jpeg".to_string(),
        Some("10".to_string()),
        Some("2010-01-10T10:01:11Z".to_string()),
    );

    let updated = chrono::DateTime::parse_from_rfc3339("2010-01-10T10:01:11Z")
        .unwrap()
        .to_rfc3339();
    let entry = OpdsEntry::new(
        "urn:uuid:6409a00b-7bf2-405e-826c-3fdff0fd0734".to_string(),
        updated,
        "Modern Online Philately".to_string(),
        Some("The definitive reference for the web-curious philatelist.".to_string()),
        Some(vec!["Harold McGee".to_string()]),
        Some(links),
        Some(stream_link),
    );

    let result = write_to_string(&entry);
    let mut expected_result = String::new();
    expected_result.push_str(r#"<?xml version="1.0" encoding="UTF-8"?>"#);
    expected_result.push_str("<entry>");
    expected_result.push_str("<title>Modern Online Philately</title>");
    expected_result.push_str("<id>urn:uuid:6409a00b-7bf2-405e-826c-3fdff0fd0734</id>");
    expected_result.push_str("<updated>2010-01-10T10:01:11+00:00</updated>");
    expected_result
        .push_str("<content>The definitive reference for the web-curious philatelist.</content>");
    expected_result.push_str("<author><name>Harold McGee</name></author>");
    expected_result.push_str(
        r#"<link type="image/png" rel="http://opds-spec.org/image" href="/covers/4561.lrg.png" />"#,
    );
    expected_result.push_str(
        r#"<link type="image/gif" rel="http://opds-spec.org/image/thumbnail" href="/covers/4561.thmb.gif" />"#,
    );
    expected_result.push_str(
        r#"<link href="/opds/v1.2/books/123/pages/{pageNumber}?zero_based=true" type="image/jpeg" rel="http://vaemendis.net/opds-pse/stream" pse:count="35" pse:lastRead="10" pse:lastReadDate="2010-01-10T10:01:11Z" />"#,
    );
    expected_result.push_str("</entry>");

    assert_eq!(result, expected_result);
}

#[test]
fn absent_content_still_emits_empty_element() {
    let entry = OpdsEntry::new(
        "id1".to_string(),
        "2024-01-01T00:00:00+00:00".to_string(),
        "Title".to_string(),
        None,
        None,
        None,
        None,
    );
    let s = write_to_string(&entry);
    assert!(s.contains("<content />"));
}

#[test]
fn authors_emit_one_name_each_in_order() {
    let entry = OpdsEntry::new(
        "id1".to_string(),
        "2024-01-01T00:00:00+00:00".to_string(),
        "Title".to_string(),
        None,
        Some(vec!["Ada".to_string(), "Bob".to_string(), "Cy".to_string()]),
        None,
        None,
    );
    let s = write_to_string(&entry);
    assert!(s.contains("<author><name>Ada</name><name>Bob</name><name>Cy</name></author>"));
}

#[test]
fn absent_authors_emit_no_author_element() {
    let entry = OpdsEntry::new(
        "id1".to_string(),
        "2024-01-01T00:00:00+00:00".to_string(),
        "Title".to_string(),
        Some("body".to_string()),
        None,
        None,
        None,
    );
    let s = write_to_string(&entry);
    assert!(!s.contains("<author"));
}

#[test]
fn newlines_in_content_become_br_tags() {
    let entry = OpdsEntry::new(
        "id1".to_string(),
        "2024-01-01T00:00:00+00:00".to_string(),
        "Title".to_string(),
        Some("first\nsecond".to_string()),
        None,
        None,
        None,
    );
    let s = write_to_string(&entry);
    assert!(s.contains("<content>first&lt;br/&gt;second</content>"));
}

#[test]
fn writer_rejects_end_without_open_element() {
    let mut writer = XmlWriter::new();
    assert!(writer.end_element().is_err());
}

#[test]
fn library_entry_unkeyed() {
    let rec = LibraryRecord {
        id: "lib1".to_string(),
        name: "Main Library".to_string(),
        description: None,
        updated_at: "2024-01-01T00:00:00+00:00".to_string(),
    };
    let entry = OPDSEntryBuilder::new(rec, None).into_opds_entry();
    let s = write_to_string(&entry);
    assert!(s.contains("<updated>2024-01-01T00:00:00+00:00</updated>"));
    assert!(s.contains(
        r#"<link type="application/atom+xml;profile=opds-catalog;kind=navigation" rel="subsection" href="/opds/v1.2/libraries/lib1" />"#,
    ));
    assert!(s.contains("<content />"));
}

#[test]
fn library_entry_keyed_weaves_access_key() {
    let rec = LibraryRecord {
        id: "lib1".to_string(),
        name: "Main Library".to_string(),
        description: Some("shelf one\nshelf two".to_string()),
        updated_at: "2024-01-01T00:00:00+00:00".to_string(),
    };
    let entry = OPDSEntryBuilder::new(rec, Some("k123".to_string())).into_opds_entry();
    let s = write_to_string(&entry);
    assert!(s.contains(r#"href="/opds/k123/v1.2/libraries/lib1""#));
    assert!(s.contains("<content>shelf one&lt;br/&gt;shelf two</content>"));
}

#[test]
fn series_entry_links_to_series_catalogue() {
    let rec = SeriesRecord {
        id: "ser9".to_string(),
        name: "A Series".to_string(),
        description: None,
        updated_at: "2023-06-06T12:00:00+00:00".to_string(),
    };
    let entry = OPDSEntryBuilder::new(rec, None).into_opds_entry();
    let s = write_to_string(&entry);
    assert!(s.contains(r#"rel="subsection" href="/opds/v1.2/series/ser9" />"#));
    assert!(s.contains("<title>A Series</title>"));
}

fn media_record() -> MediaRecord {
    MediaRecord {
        id: "book7".to_string(),
        name: "Issue 7".to_string(),
        path: "/data/comics/issue 7.cbz".to_string(),
        extension: "cbz".to_string(),
        size: 12897485,
        pages: 35,
        active_reading_session: Some(ReadingSessionRecord {
            page: Some(10),
            updated_at: "2024-05-01T10:00:00Z".to_string(),
        }),
        metadata_summary: None,
        page_content_types: Some(vec![(1, ContentType::Jpeg), (10, ContentType::Jpeg)]),
    }
}

#[test]
fn media_entry_example_scenario() {
    let entry = OPDSEntryBuilder::new(media_record(), None)
        .into_opds_entry_at("2024-06-01T00:00:00+00:00".to_string());
    let s = write_to_string(&entry);
    assert!(s.contains("<content>12.3 MiB - cbz</content>"));
    assert!(s.contains(r#"pse:count="35""#));
    assert!(s.contains(r#"pse:lastRead="10""#));
    assert!(s.contains(r#"pse:lastReadDate="2024-05-01T10:00:00Z""#));
    assert!(s.contains(r#"<link type="image/jpeg" rel="http://opds-spec.org/image/thumbnail" href="/opds/v1.2/books/book7/thumbnail" />"#));
    assert!(s.contains(r#"<link type="image/jpeg" rel="http://opds-spec.org/image" href="/opds/v1.2/books/book7/pages/1" />"#));
    assert!(s.contains(r#"<link type="application/zip" rel="http://opds-spec.org/acquisition" href="/opds/v1.2/books/book7/file/issue%207.cbz" />"#));
}

#[test]
fn media_entry_with_summary_appends_it_after_break() {
    let mut rec = media_record();
    rec.metadata_summary = Some("A fine issue.".to_string());
    let entry = OPDSEntryBuilder::new(rec, None)
        .into_opds_entry_at("2024-06-01T00:00:00+00:00".to_string());
    let s = write_to_string(&entry);
    assert!(s.contains("<content>12.3 MiB - cbz&lt;br/&gt;&lt;br/&gt;A fine issue.</content>"));
}

#[test]
fn media_entry_without_session_has_no_progress() {
    let mut rec = media_record();
    rec.active_reading_session = None;
    rec.page_content_types = Some(vec![(1, ContentType::Png)]);
    let entry = OPDSEntryBuilder::new(rec, None)
        .into_opds_entry_at("2024-06-01T00:00:00+00:00".to_string());
    let s = write_to_string(&entry);
    assert!(!s.contains("pse:lastRead="));
    assert!(!s.contains("pse:lastReadDate="));
    assert!(s.contains(r#"pse:count="35""#));
    assert!(s.contains(r#"type="image/png" rel="http://vaemendis.net/opds-pse/stream""#));
}

#[test]
fn media_entry_out_of_bounds_page_falls_back_to_thumbnail_type() {
    let mut rec = media_record();
    rec.active_reading_session = Some(ReadingSessionRecord {
        page: Some(50),
        updated_at: "2024-05-01T10:00:00Z".to_string(),
    });
    rec.page_content_types = Some(vec![(1, ContentType::Gif), (50, ContentType::Png)]);
    let entry = OPDSEntryBuilder::new(rec, None)
        .into_opds_entry_at("2024-06-01T00:00:00+00:00".to_string());
    let s = write_to_string(&entry);
    assert!(s.contains(r#"type="image/gif" rel="http://vaemendis.net/opds-pse/stream""#));
    assert!(s.contains(r#"pse:lastRead="50""#));
}

#[test]
fn media_entry_unresolved_pages_default_to_jpeg() {
    let mut rec = media_record();
    rec.page_content_types = None;
    let entry = OPDSEntryBuilder::new(rec, None)
        .into_opds_entry_at("2024-06-01T00:00:00+00:00".to_string());
    let s = write_to_string(&entry);
    assert!(s.contains(r#"<link type="image/jpeg" rel="http://opds-spec.org/image/thumbnail""#));
    assert!(s.contains(r#"<link type="image/jpeg" rel="http://opds-spec.org/image""#));
    assert!(s.contains("<title>Issue 7</title>"));
}

#[test]
fn media_entry_unknown_extension_falls_back_to_zip() {
    let mut rec = media_record();
    rec.extension = "xyz".to_string();
    let entry = OPDSEntryBuilder::new(rec, None)
        .into_opds_entry_at("2024-06-01T00:00:00+00:00".to_string());
    let s = write_to_string(&entry);
    assert!(s.contains(r#"<link type="application/zip" rel="http://opds-spec.org/acquisition""#));
    assert!(s.contains("12.3 MiB - xyz"));
}

#[test]
fn media_entry_epub_extension_gets_epub_type() {
    let mut rec = media_record();
    rec.extension = "epub".to_string();
    rec.path = "/data/books/novel.epub".to_string();
    let entry = OPDSEntryBuilder::new(rec, None)
        .into_opds_entry_at("2024-06-01T00:00:00+00:00".to_string());
    let s = write_to_string(&entry);
    assert!(s.contains(r#"<link type="application/epub+zip" rel="http://opds-spec.org/acquisition" href="/opds/v1.2/books/book7/file/novel.epub" />"#));
}

#[test]
fn media_entry_zero_size_renders_zero_mib() {
    let mut rec = media_record();
    rec.size = 0;
    let entry = OPDSEntryBuilder::new(rec, None)
        .into_opds_entry_at("2024-06-01T00:00:00+00:00".to_string());
    let s = write_to_string(&entry);
    assert!(s.contains("<content>0.0 MiB - cbz</content>"));
}

#[test]
fn media_entry_now_updated_stamp_is_not_empty() {
    let entry = OPDSEntryBuilder::new(media_record(), None).into_opds_entry();
    let s = write_to_string(&entry);
    assert!(s.contains("<updated>"));
    assert!(!s.contains("<updated />"));
}

#[test]
fn requested_pages_lists_thumbnail_then_current_page() {
    let rec = media_record();
    assert_eq!(rec.requested_pages(), vec![1, 10]);
    let mut at_one = media_record();
    at_one.active_reading_session = Some(ReadingSessionRecord {
        page: Some(1),
        updated_at: "2024-05-01T10:00:00Z".to_string(),
    });
    assert_eq!(at_one.requested_pages(), vec![1]);
    let mut none = media_record();
    none.active_reading_session = None;
    assert_eq!(none.requested_pages(), vec![1]);
}
