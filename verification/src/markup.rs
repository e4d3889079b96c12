//! XML documents as plain values.
//!
//! The parsing itself is the work of the `xml` crate; this module turns what
//! it returns into a tree of the library's own, which the iTerm reader walks.

use vstd::prelude::*;
use vstd::string::*;
use vstd::utf8::encode_utf8;
use crate::text::{has_run, holds_run};

verus! {

/// The longest text, in bytes, that is handed to the XML parser, which
/// counts its lines, from one, and its columns in 32 bits.
pub const XML_LIMIT: usize = 0xffff_fffe;

/// The number of closing square brackets in a row that is too many for the
/// XML parser, which counts them in 8 bits inside a CDATA section.
pub const BRACKET_LIMIT: usize = 256;

/// A node of an XML document.
#[derive(Debug, PartialEq, Eq)]
pub enum XmlNode {
    /// An element.
    Element(XmlElement),
    /// Character data.
    Text(String),
    /// CDATA, a comment or a processing instruction.
    Other,
}

/// An XML element: its name, its namespace and its children in document order.
#[derive(Debug, PartialEq, Eq)]
pub struct XmlElement {
    pub name: String,
    pub namespace: Option<String>,
    pub children: Vec<XmlNode>,
}

/// `xml::Element`, an element as the `xml` crate builds it; nothing inside
/// it is seen here.
#[verifier::external_type_specification]
#[verifier::external_body]
pub struct ExElement(xml::Element);

/// `xml::BuilderError`, the error of the `xml` crate's parser and element
/// builder; nothing inside it is seen here.
#[verifier::external_type_specification]
#[verifier::external_body]
pub struct ExBuilderError(xml::BuilderError);

/// The document that the `xml` crate reads from a text: its first complete
/// element, or `None` where the text holds none or is not well-formed before
/// that element ends.
pub uninterp spec fn xml_document(content: Seq<char>) -> Option<XmlElement>;

/// The name, namespace and children of an element of the `xml` crate.
pub uninterp spec fn element_tree(element: xml::Element) -> XmlElement;

/// Whether a text can be handed to the XML parser: it is no longer than
/// `XML_LIMIT` bytes and nowhere holds `BRACKET_LIMIT` closing square
/// brackets in a row.
pub open spec fn within_limits(content: Seq<char>) -> bool {
    encode_utf8(content).len() <= XML_LIMIT && !has_run(content, ']', ']', BRACKET_LIMIT as nat)
}

/// The document that this library reads from a text: that of the `xml`
/// crate, and none where the text is beyond the parser's limits.
pub open spec fn readable_document(content: Seq<char>) -> Option<XmlElement> {
    if within_limits(content) {
        xml_document(content)
    } else {
        None
    }
}

/// `<xml::Element as FromStr>::from_str`: the first complete element of the
/// text, or the error that the parser or the element builder stopped at.
/// The contract only names the outcome: it is the document of the text.
/// The parser adds one to a 32-bit counter for every line and every
/// character of a line, and to an 8-bit counter for every closing square
/// bracket that follows another inside a CDATA section, which is why texts
/// beyond these limits are kept from it.
#[verifier::external_body]
fn parse_element(content: &str) -> (r: Result<xml::Element, xml::BuilderError>)
    requires
        within_limits(content@),
    ensures
        match r {
            Ok(element) => xml_document(content@) == Some(element_tree(element)),
            Err(_) => xml_document(content@) is None,
        },
{
    content.parse::<xml::Element>()
}

/// Reads the public fields `name`, `ns` and `children` of an `xml::Element`,
/// child by child: an `ElementNode` becomes an element, a `CharacterNode` a
/// text, every other node `Other`. The contract names that tree.
#[verifier::external_body]
fn tree_of(element: &xml::Element) -> (r: XmlElement)
    ensures
        r == element_tree(*element),
{
    let children = element.children.iter().map(|child| match child {
        xml::Xml::ElementNode(e) => XmlNode::Element(tree_of(e)),
        xml::Xml::CharacterNode(text) => XmlNode::Text(text.clone()),
        xml::Xml::CDATANode(_) => XmlNode::Other,
        xml::Xml::CommentNode(_) => XmlNode::Other,
        xml::Xml::PINode(_) => XmlNode::Other,
    }).collect();
    XmlElement { name: element.name.clone(), namespace: element.ns.clone(), children }
}

/// Parses an XML document into its root element.
pub fn parse_xml(content: &str) -> (r: Option<XmlElement>)
    ensures
        r == readable_document(content@),
{
    if content.as_bytes().len() > XML_LIMIT || holds_run(content, ']', ']', BRACKET_LIMIT) {
        return None;
    }
    match parse_element(content) {
        Ok(element) => Some(tree_of(&element)),
        Err(_) => None,
    }
}

} // verus!
