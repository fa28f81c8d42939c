//! The markup writer that renders the normalized drawing.
//!
//! The writer itself is the `xmlwriter` crate. Nothing in this module is proved:
//! each function states what the crate's writer does, in terms of the calls that
//! it has received.

use vstd::prelude::*;

verus! {

/// How far nested markup is indented.
#[derive(Clone, Copy, Debug, PartialEq, Eq, Structural)]
pub enum XmlIndent {
    /// No indentation and no line breaks.
    Off,
    /// This many spaces for each level.
    Spaces(u8),
    /// One tab for each level.
    Tabs,
}

/// How the drawing's markup is laid out.
#[derive(Clone, Copy, Debug, PartialEq, Eq, Structural)]
pub struct XmlOptions {
    /// Whether attribute values stand in single quotes rather than double quotes.
    pub use_single_quote: bool,
    /// The indentation of nested elements.
    pub indent: XmlIndent,
    /// The indentation of attributes; without one, attributes follow on the same line.
    pub attributes_indent: XmlIndent,
}

/// One call that a writer has received.
pub enum XmlEvent {
    /// An element with this name was started.
    Start(Seq<char>),
    /// An attribute with this name and value was written into the open tag.
    Attribute(Seq<char>, Seq<char>),
    /// The innermost open element was closed.
    End,
}

/// `xmlwriter::XmlWriter`, of which nothing but the names below is visible here.
#[verifier::external_type_specification]
#[verifier::external_body]
pub struct ExXmlWriter(xmlwriter::XmlWriter);

/// The calls that a writer has received since it was made, oldest first.
pub uninterp spec fn xml_events(w: xmlwriter::XmlWriter) -> Seq<XmlEvent>;

/// The options that a writer was made with.
pub uninterp spec fn xml_options(w: xmlwriter::XmlWriter) -> XmlOptions;

/// The document that a writer made with `options` returns after these calls.
pub uninterp spec fn xml_document(options: XmlOptions, events: Seq<XmlEvent>) -> Seq<char>;

/// Whether the last call left a start tag open, so that an attribute may follow.
pub open spec fn tag_is_open(events: Seq<XmlEvent>) -> bool {
    events.len() > 0 && !(events.last() is End)
}

/// `xmlwriter::XmlWriter::new`: a writer with the given options that has received no
/// call yet.
#[verifier::external_body]
pub(crate) fn xml_new(options: XmlOptions) -> (w: xmlwriter::XmlWriter)
    ensures
        xml_events(w) == Seq::<XmlEvent>::empty(),
        xml_options(w) == options,
{
    let convert = |indent: XmlIndent| match indent {
        XmlIndent::Off => xmlwriter::Indent::None,
        XmlIndent::Spaces(n) => xmlwriter::Indent::Spaces(n),
        XmlIndent::Tabs => xmlwriter::Indent::Tabs,
    };
    xmlwriter::XmlWriter::new(xmlwriter::Options {
        use_single_quote: options.use_single_quote,
        indent: convert(options.indent),
        attributes_indent: convert(options.attributes_indent),
    })
}

/// `xmlwriter::XmlWriter::start_element`: the writer records the start of an element.
/// The method accepts every name in every state of the writer.
#[verifier::external_body]
pub(crate) fn xml_start_element(w: &mut xmlwriter::XmlWriter, name: &str)
    ensures
        xml_events(*final(w)) == xml_events(*old(w)).push(XmlEvent::Start(name@)),
        xml_options(*final(w)) == xml_options(*old(w)),
{
    w.start_element(name)
}

/// `xmlwriter::XmlWriter::write_attribute`: the writer records an attribute of the
/// open start tag. The method panics unless the last call was `start_element` or
/// `write_attribute`, hence the precondition.
#[verifier::external_body]
pub(crate) fn xml_write_attribute(w: &mut xmlwriter::XmlWriter, name: &str, value: &str)
    requires
        tag_is_open(xml_events(*old(w))),
    ensures
        xml_events(*final(w)) == xml_events(*old(w)).push(XmlEvent::Attribute(name@, value@)),
        xml_options(*final(w)) == xml_options(*old(w)),
{
    w.write_attribute(name, value)
}

/// `xmlwriter::XmlWriter::end_element`: the writer records the end of the innermost
/// open element. The method accepts the call in every state of the writer.
#[verifier::external_body]
pub(crate) fn xml_end_element(w: &mut xmlwriter::XmlWriter)
    ensures
        xml_events(*final(w)) == xml_events(*old(w)).push(XmlEvent::End),
        xml_options(*final(w)) == xml_options(*old(w)),
{
    w.end_element()
}

/// `xmlwriter::XmlWriter::end_document`: closes what is still open and returns the
/// text. The text depends on the writer's options and on the calls it received, and
/// on nothing else.
#[verifier::external_body]
pub(crate) fn xml_end_document(w: xmlwriter::XmlWriter) -> (text: String)
    ensures
        text@ == xml_document(xml_options(w), xml_events(w)),
{
    w.end_document()
}

} // verus!
