//! The source records that entries are built from, modelled as plain values.
//!
//! The records mirror what the adapters read from the persisted entities and
//! their collaborators: the database rows of libraries, series and
//! publications, the single active reading session of the requesting user
//! (absence means "never opened"), the optional metadata summary, and the
//! outcome of the page content-type resolution.  Timestamps are carried as
//! already-rendered RFC 3339 text.

use vstd::prelude::*;

use crate::media_types::ContentType;

verus! {

/// A library row: identity, display name, optional description, and its
/// last-modified instant.
#[derive(Clone, Debug)]
pub struct LibraryRecord {
    pub id: String,
    pub name: String,
    pub description: Option<String>,
    pub updated_at: String,
}

/// A series row, shaped like a library row.
#[derive(Clone, Debug)]
pub struct SeriesRecord {
    pub id: String,
    pub name: String,
    pub description: Option<String>,
    pub updated_at: String,
}

/// The most recent active reading session of the requesting user for one
/// publication: the page it is open at (where one was recorded) and when it
/// was last touched.
#[derive(Clone, Debug)]
pub struct ReadingSessionRecord {
    pub page: Option<u32>,
    pub updated_at: String,
}

/// A publication row together with the collaborator data its entry needs:
/// the active reading session, the metadata summary, and the resolved
/// content types of the requested pages (`None` when resolution failed
/// entry-wide).
#[derive(Clone, Debug)]
pub struct MediaRecord {
    pub id: String,
    pub name: String,
    pub path: String,
    pub extension: String,
    pub size: u64,
    pub pages: u32,
    pub active_reading_session: Option<ReadingSessionRecord>,
    pub metadata_summary: Option<String>,
    pub page_content_types: Option<Vec<(u32, ContentType)>>,
}

/// The view of an optional page-to-content-type list.
pub open spec fn opt_pairs_view(o: Option<Vec<(u32, ContentType)>>) -> Option<
    Seq<(u32, ContentType)>,
> {
    match o {
        Some(v) => Some(v@),
        None => None,
    }
}

/// The first content type listed for `page`, where one is.
pub open spec fn spec_lookup_type(pairs: Seq<(u32, ContentType)>, page: u32) -> Option<ContentType>
    decreases pairs.len(),
{
    if pairs.len() == 0 {
        None
    } else if pairs[0].0 == page {
        Some(pairs[0].1)
    } else {
        spec_lookup_type(pairs.skip(1), page)
    }
}

/// The resolved content type of `page`: `None` when resolution failed
/// entry-wide or listed no entry for the page.
pub open spec fn spec_resolved_type(
    resolved: Option<Seq<(u32, ContentType)>>,
    page: u32,
) -> Option<ContentType> {
    match resolved {
        Some(pairs) => spec_lookup_type(pairs, page),
        None => None,
    }
}

/// Looks up the resolved content type of `page`.
pub fn lookup_content_type(resolved: &Option<Vec<(u32, ContentType)>>, page: u32) -> (r: Option<
    ContentType,
>)
    ensures
        r == spec_resolved_type(opt_pairs_view(*resolved), page),
{
    match resolved {
        None => None,
        Some(pairs) => {
            proof {
                assert(pairs@.skip(0) =~= pairs@);
            }
            let mut i: usize = 0;
            while i < pairs.len()
                invariant
                    i <= pairs@.len(),
                    opt_pairs_view(*resolved) == Some(pairs@),
                    spec_lookup_type(pairs@.skip(i as int), page) == spec_lookup_type(
                        pairs@,
                        page,
                    ),
                decreases pairs@.len() - i,
            {
                proof {
                    assert(pairs@.skip(i as int)[0] == pairs@[i as int]);
                }
                let pair = pairs[i];
                if pair.0 == page {
                    proof {
                        assert(spec_lookup_type(pairs@.skip(i as int), page) == Some(
                            pairs@[i as int].1,
                        ));
                    }
                    return Some(pair.1);
                }
                proof {
                    assert(pairs@.skip(i as int).skip(1) =~= pairs@.skip(i + 1));
                }
                i = i + 1;
            }
            None
        },
    }
}

/// The page of the active reading session, where one was recorded.
pub open spec fn spec_session_page(m: MediaRecord) -> Option<u32> {
    match m.active_reading_session {
        Some(s) => s.page,
        None => None,
    }
}

/// The pages whose content types an entry needs resolved: always page 1
/// (thumbnail and cover), and the current page of the active reading
/// session where one exists and differs from 1.
pub open spec fn spec_requested_pages(session_page: Option<u32>) -> Seq<u32> {
    match session_page {
        Some(p) => if p != 1 {
            seq![1u32, p]
        } else {
            seq![1u32]
        },
        None => seq![1u32],
    }
}

impl MediaRecord {
    /// The pages whose content types this publication's entry needs
    /// resolved, in the order they should be requested.
    pub fn requested_pages(&self) -> (r: Vec<u32>)
        ensures
            r@ == spec_requested_pages(spec_session_page(*self)),
    {
        let mut r: Vec<u32> = Vec::new();
        r.push(1);
        match &self.active_reading_session {
            Some(s) => {
                match s.page {
                    Some(p) => {
                        if p != 1 {
                            r.push(p);
                        }
                    },
                    None => {},
                }
            },
            None => {},
        }
        proof {
            assert(r@ =~= spec_requested_pages(spec_session_page(*self)));
        }
        r
    }
}

} // verus!
