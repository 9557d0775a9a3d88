//! Access to the fields of the endpoint's XML response. The XML parser is an
//! outside utility; the library asks it two questions only: whether a body is
//! a well-formed document, and what text the first element with a given tag
//! name holds. Both answers depend on the text alone.

use vstd::prelude::*;

verus! {

/// Whether a response body is a well-formed XML document: the verdict of the
/// outside parser on the text.
pub uninterp spec fn xml_well_formed(body: Seq<char>) -> bool;

/// The text of the first element with the given tag name, in document order;
/// `None` when the document is malformed, no such element exists, or the
/// element holds no text.
pub uninterp spec fn xml_child_text(body: Seq<char>, name: Seq<char>) -> Option<Seq<char>>;

/// Relies on `roxmltree::Document::parse`: whether it accepts the text as a
/// well-formed document. The verdict is a function of the text alone.
#[verifier::external_body]
pub(crate) fn doc_parses(body: &str) -> (r: bool)
    ensures
        r == xml_well_formed(body@),
{
    roxmltree::Document::parse(body).is_ok()
}

/// Relies on `roxmltree::Document::parse`, `Node::has_tag_name` and
/// `Node::text`: parses the document and hands back the text of the first
/// element with the given tag name. The result is a function of the text and
/// the name alone.
#[verifier::external_body]
pub(crate) fn get_child_text(body: &str, name: &str) -> (r: Option<String>)
    ensures
        r is Some <==> xml_child_text(body@, name@) is Some,
        r matches Some(t) ==> xml_child_text(body@, name@) == Some(t@),
{
    let doc = match roxmltree::Document::parse(body) {
        Ok(doc) => doc,
        Err(_) => return None,
    };
    for node in doc.descendants() {
        if node.has_tag_name(name) {
            return node.text().map(|t| t.to_string());
        }
    }
    None
}

} // verus!
