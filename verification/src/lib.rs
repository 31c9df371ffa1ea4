//! OPDS 1.2 catalogue entries.
//!
//! This crate turns persisted library entities (libraries, series and
//! individual publications) into OPDS 1.2 catalogue entries: records that
//! carry identity, a timestamp, descriptive text and typed hyperlinks, and
//! that serialize to one `<entry>` XML element each, as described at
//! <https://specs.opds.io/opds-1.2#5-opds-catalog-entry-documents>.

pub mod entry;
pub mod link;
pub mod media_types;
pub mod records;
pub mod textutil;
pub mod xmlio;
