//! An XML output sink with an event-level model.
//!
//! The sink wraps an event-based XML writer and records, as its ghost view,
//! the ordered sequence of events that were accepted so far.  Everything that
//! the serialization routines promise about their output is stated over that
//! sequence: which elements are opened, with which attributes, what character
//! data stands in them, and in which order.  Turning the events into bytes is
//! the underlying writer's job and is not modelled here.

use vstd::prelude::*;
use xml::writer::{EventWriter, XmlEvent};

verus! {

/// One event handed to the XML writer: an element start (with its attributes
/// in order), character data, or the end of the innermost open element.
#[verifier::ext_equal]
pub ghost enum XmlEv {
    Start { name: Seq<char>, attrs: Seq<(Seq<char>, Seq<char>)> },
    Text { content: Seq<char> },
    End,
}

/// The sink rejected a write.  No partial output should be relied on after
/// this is returned.
#[derive(Debug, Clone, Copy, PartialEq, Eq, Structural)]
pub struct SerializationError;

#[verifier::external_type_specification]
#[verifier::external_body]
#[verifier::reject_recursive_types(W)]
pub struct ExEventWriter<W>(EventWriter<W>);

/// The attribute list of a start event, as pairs of name and value views.
pub open spec fn attr_views(attrs: Seq<(String, String)>) -> Seq<(Seq<char>, Seq<char>)> {
    attrs.map_values(|p: (String, String)| (p.0@, p.1@))
}

/// The three events of an element that holds only character data.
pub open spec fn text_element_events(name: Seq<char>, text: Seq<char>) -> Seq<XmlEv> {
    seq![
        XmlEv::Start { name, attrs: Seq::empty() },
        XmlEv::Text { content: text },
        XmlEv::End,
    ]
}

/// An XML output sink writing to an in-memory buffer.  Its view is the
/// sequence of events accepted so far.
pub struct XmlWriter {
    inner: EventWriter<Vec<u8>>,
    events: Ghost<Seq<XmlEv>>,
}

impl View for XmlWriter {
    type V = Seq<XmlEv>;

    closed spec fn view(&self) -> Seq<XmlEv> {
        self.events@
    }
}

/// Relies on `xml::writer::EventWriter::new`: a fresh writer with the
/// default configuration, which has been handed no events yet.
#[verifier::external_body]
fn fresh_event_writer() -> EventWriter<Vec<u8>> {
    EventWriter::new(Vec::new())
}

impl XmlWriter {
    /// A fresh sink that has accepted no events.
    pub fn new() -> (w: XmlWriter)
        ensures
            w@ == Seq::<XmlEv>::empty(),
    {
        XmlWriter { inner: fresh_event_writer(), events: Ghost(Seq::empty()) }
    }

    /// Relies on `xml::writer::EventWriter::write` with
    /// `XmlEvent::start_element`: on success the writer has accepted exactly
    /// one more event, the start of an element with the given name and no
    /// attributes.
    #[verifier::external_body]
    pub fn start_element(&mut self, name: &str) -> (r: Result<(), SerializationError>)
        ensures
            r is Ok ==> final(self)@ == old(self)@.push(
                XmlEv::Start { name: name@, attrs: Seq::empty() },
            ),
    {
        match self.inner.write(XmlEvent::start_element(name)) {
            Ok(()) => Ok(()),
            Err(_) => Err(SerializationError),
        }
    }

    /// Relies on `xml::writer::EventWriter::write` with
    /// `XmlEvent::start_element` and `StartElementBuilder::attr`: on success
    /// the writer has accepted exactly one more event, the start of an
    /// element with the given name and the given attributes in order.
    #[verifier::external_body]
    pub fn start_element_with_attrs(
        &mut self,
        name: &str,
        attrs: &Vec<(String, String)>,
    ) -> (r: Result<(), SerializationError>)
        ensures
            r is Ok ==> final(self)@ == old(self)@.push(
                XmlEv::Start { name: name@, attrs: attr_views(attrs@) },
            ),
    {
        let mut ev = XmlEvent::start_element(name);
        for a in attrs.iter() {
            ev = ev.attr(a.0.as_str(), a.1.as_str());
        }
        match self.inner.write(ev) {
            Ok(()) => Ok(()),
            Err(_) => Err(SerializationError),
        }
    }

    /// Relies on `xml::writer::EventWriter::write` with
    /// `XmlEvent::characters`: on success the writer has accepted exactly one
    /// more event, the given character data (the writer escapes markup
    /// characters itself when producing bytes).
    #[verifier::external_body]
    pub fn text(&mut self, content: &str) -> (r: Result<(), SerializationError>)
        ensures
            r is Ok ==> final(self)@ == old(self)@.push(XmlEv::Text { content: content@ }),
    {
        match self.inner.write(XmlEvent::characters(content)) {
            Ok(()) => Ok(()),
            Err(_) => Err(SerializationError),
        }
    }

    /// Relies on `xml::writer::EventWriter::write` with
    /// `XmlEvent::end_element`: on success the writer has accepted exactly
    /// one more event, the end of the innermost open element.  It fails when
    /// no element is open.
    #[verifier::external_body]
    pub fn end_element(&mut self) -> (r: Result<(), SerializationError>)
        ensures
            r is Ok ==> final(self)@ == old(self)@.push(XmlEv::End),
    {
        match self.inner.write(XmlEvent::end_element()) {
            Ok(()) => Ok(()),
            Err(_) => Err(SerializationError),
        }
    }

    /// Relies on `xml::writer::EventWriter::into_inner`: hands back the bytes
    /// the writer produced for the accepted events.
    #[verifier::external_body]
    pub fn into_bytes(self) -> Vec<u8> {
        self.inner.into_inner()
    }

    /// Writes one element holding only character data: a start event, the
    /// text, and the matching end event.
    pub fn write_text_element(&mut self, name: &str, text: &str) -> (r: Result<
        (),
        SerializationError,
    >)
        ensures
            r is Ok ==> final(self)@ == old(self)@ + text_element_events(name@, text@),
    {
        self.start_element(name)?;
        self.text(text)?;
        self.end_element()?;
        proof {
            assert(self@ =~= old(self)@ + text_element_events(name@, text@));
        }
        Ok(())
    }
}

} // verus!
