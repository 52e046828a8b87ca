//! XML documents, written with quick-xml: the library says which events go
//! out, in which order; quick-xml escapes, indents and serialises them.

use vstd::prelude::*;

use quick_xml::events::{BytesDecl, BytesEnd, BytesStart, BytesText, Event};

verus! {

/// One XML event, as the library hands it to the writer.
#[derive(Clone, Debug, PartialEq, Eq)]
pub enum XmlEvent {
    /// `<?xml version=".." encoding=".."?>`.
    Decl { version: String, encoding: String },
    /// An opening tag with its attributes, in order.
    Start { name: String, attrs: Vec<(String, String)> },
    /// A self-closing tag with its attributes, in order.
    Empty { name: String, attrs: Vec<(String, String)> },
    /// Character data (escaped when written).
    Text(String),
    /// A closing tag.
    End(String),
}

pub enum XmlEventView {
    Decl { version: Seq<char>, encoding: Seq<char> },
    Start { name: Seq<char>, attrs: Seq<(Seq<char>, Seq<char>)> },
    Empty { name: Seq<char>, attrs: Seq<(Seq<char>, Seq<char>)> },
    Text(Seq<char>),
    End(Seq<char>),
}

pub open spec fn attrs_view(a: Seq<(String, String)>) -> Seq<(Seq<char>, Seq<char>)> {
    a.map_values(|p: (String, String)| (p.0@, p.1@))
}

impl View for XmlEvent {
    type V = XmlEventView;

    open spec fn view(&self) -> XmlEventView {
        match self {
            XmlEvent::Decl { version, encoding } => XmlEventView::Decl { version: version@, encoding: encoding@ },
            XmlEvent::Start { name, attrs } => XmlEventView::Start { name: name@, attrs: attrs_view(attrs@) },
            XmlEvent::Empty { name, attrs } => XmlEventView::Empty { name: name@, attrs: attrs_view(attrs@) },
            XmlEvent::Text(t) => XmlEventView::Text(t@),
            XmlEvent::End(n) => XmlEventView::End(n@),
        }
    }
}

pub open spec fn events_view(v: Seq<XmlEvent>) -> Seq<XmlEventView> {
    v.map_values(|e: XmlEvent| e@)
}

#[verifier::external_type_specification]
#[verifier::external_body]
#[verifier::reject_recursive_types(W)]
pub struct ExXmlWriter<W>(quick_xml::Writer<W>);

/// The events written so far to a writer.
pub uninterp spec fn xml_written(w: quick_xml::Writer<Vec<u8>>) -> Seq<XmlEventView>;

/// The text a writer made by [`xml_writer_new`] (two-space indent) holds
/// once it has written a sequence of events.
pub uninterp spec fn xml_text(events: Seq<XmlEventView>) -> Seq<char>;

/// `quick_xml::Writer::new_with_indent(Vec::new(), b' ', 2)`: a writer that
/// has written nothing yet.
#[verifier::external_body]
pub(crate) fn xml_writer_new() -> (w: quick_xml::Writer<Vec<u8>>)
    ensures
        xml_written(w) == Seq::<XmlEventView>::empty(),
{
    quick_xml::Writer::new_with_indent(Vec::new(), b' ', 2)
}

/// `Writer::write_event` with the quick-xml event for `e`. Writing into a
/// `Vec<u8>` cannot fail; the contract claims that `e` is appended to
/// what was written.
#[verifier::external_body]
pub(crate) fn xml_write(w: &mut quick_xml::Writer<Vec<u8>>, e: &XmlEvent)
    ensures
        xml_written(*final(w)) == xml_written(*old(w)).push(e@),
{
    let ev = match e {
        XmlEvent::Decl { version, encoding } => Event::Decl(BytesDecl::new(version, Some(encoding), None)),
        XmlEvent::Start { name, attrs } => Event::Start(BytesStart::new(&**name).with_attributes(attrs.iter().map(|(k, v)| (&**k, &**v)))),
        XmlEvent::Empty { name, attrs } => Event::Empty(BytesStart::new(&**name).with_attributes(attrs.iter().map(|(k, v)| (&**k, &**v)))),
        XmlEvent::Text(t) => Event::Text(BytesText::new(t)),
        XmlEvent::End(n) => Event::End(BytesEnd::new(&**n)),
    };
    let _ = w.write_event(ev);
}

/// `Writer::into_inner`, read as UTF-8: the text of everything written.
#[verifier::external_body]
pub(crate) fn xml_finish(w: quick_xml::Writer<Vec<u8>>) -> (r: String)
    ensures
        r@ == xml_text(xml_written(w)),
{
    String::from_utf8(w.into_inner()).unwrap_or_default()
}

/// The XML text of a sequence of events.
pub fn write_xml(events: &Vec<XmlEvent>) -> (r: String)
    ensures
        r@ == xml_text(events_view(events@)),
{
    let mut w = xml_writer_new();
    let n = events.len();
    assert(events_view(events@.take(0)) =~= Seq::<XmlEventView>::empty());
    for i in 0..n
        invariant
            n == events@.len(),
            xml_written(w) == events_view(events@.take(i as int)),
    {
        xml_write(&mut w, &events[i]);
        assert(events_view(events@.take(i + 1)) =~= events_view(events@.take(i as int)).push(events@[i as int]@));
    }
    assert(events@.take(n as int) =~= events@);
    xml_finish(w)
}

} // verus!
