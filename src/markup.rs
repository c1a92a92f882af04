use vstd::prelude::*;
use edit_xml::{Document, EditXMLError, Element};

verus! {

#[verifier::external_type_specification]
#[verifier::external_body]
pub struct ExDocument(Document);

#[verifier::external_type_specification]
#[verifier::external_body]
pub struct ExElement(Element);

#[verifier::external_type_specification]
#[verifier::external_body]
pub struct ExEditXMLError(EditXMLError);

/// Why a shape's render stopped.
#[derive(Clone, Copy, Debug, PartialEq, Eq, Structural)]
pub enum RenderError {
    /// Markup could not be parsed, or the patched document could not be written.
    MarkupParse,
    /// The buffer document holds no path element to patch.
    MissingPathElement,
    /// The transform applied around the bounds centre does not fit the matrix's fields.
    TransformOutOfRange,
}

/// Whether `edit_xml` accepts the text as a document.
pub uninterp spec fn markup_parses(s: Seq<char>) -> bool;

/// Whether the document parsed from the text has a direct child element
/// named `name` under its first root element.
pub uninterp spec fn markup_root_has_child(s: Seq<char>, name: Seq<char>) -> bool;

/// Whether the document's first root element has a direct child element named `name`.
pub uninterp spec fn root_has_child(d: Document, name: Seq<char>) -> bool;

/// Whether the element is stored in the document.
pub uninterp spec fn in_document(d: Document, e: Element) -> bool;

/// Whether the element, stored in the document, has a direct child element named `name`.
pub uninterp spec fn has_child(d: Document, e: Element, name: Seq<char>) -> bool;

/// Relies on `edit_xml::Document::parse_str`: parses the text with default
/// read options; succeeds exactly on the texts it accepts, and the tree it
/// builds depends on the text alone.
#[verifier::external_body]
fn parse_document(s: &str) -> (r: Result<Document, EditXMLError>)
    ensures
        r is Ok <==> markup_parses(s@),
        r matches Ok(d) ==> forall|n: Seq<char>| #[trigger] root_has_child(d, n) == markup_root_has_child(s@, n),
{
    Document::parse_str(s)
}

/// Relies on `edit_xml::Document::root_element`: the first root node that is
/// an element of the document, if any.
#[verifier::external_body]
fn root_element(doc: &Document) -> (r: Option<Element>)
    ensures
        r matches Some(e) ==> in_document(*doc, e)
            && forall|n: Seq<char>| #[trigger] has_child(*doc, e, n) == root_has_child(*doc, n),
        r is None ==> forall|n: Seq<char>| !#[trigger] root_has_child(*doc, n),
{
    doc.root_element()
}

/// Relies on `edit_xml::Element::find`: the first direct child element of
/// `parent` named `name`, if any. It looks `parent` up in `doc`'s store.
#[verifier::external_body]
fn find_child(doc: &Document, parent: Element, name: &str) -> (r: Option<Element>)
    requires
        in_document(*doc, parent),
    ensures
        r is Some <==> has_child(*doc, parent, name@),
        r matches Some(c) ==> in_document(*doc, c),
{
    parent.find(doc, name)
}

/// Relies on `edit_xml::Element::set_attribute`: adds or replaces one
/// attribute of `elem`, looked up in `doc`'s store.
#[verifier::external_body]
fn set_attribute(doc: &mut Document, elem: Element, name: &str, value: &str)
    requires
        in_document(*old(doc), elem),
{
    elem.set_attribute(doc, name, value)
}

/// Relies on `edit_xml::Document::write_str`: writes the document as UTF-8
/// text with default options into an in-memory buffer, which cannot fail.
#[verifier::external_body]
fn write_document(doc: &Document) -> (r: Result<String, EditXMLError>)
    ensures
        r is Ok,
{
    doc.write_str()
}

/// Sets `fill-rule="evenodd"` on the first path element under the root of a
/// serialised buffer document, and writes the document back out.
pub fn patch_fill_rule(svg: &str) -> (r: Result<String, RenderError>)
    ensures
        !markup_parses(svg@) ==> r == Err::<String, RenderError>(RenderError::MarkupParse),
        markup_parses(svg@) && !markup_root_has_child(svg@, "path"@) ==> r == Err::<
            String,
            RenderError,
        >(RenderError::MissingPathElement),
        markup_parses(svg@) && markup_root_has_child(svg@, "path"@) ==> r is Ok,
{
    let mut doc = match parse_document(svg) {
        Ok(d) => d,
        Err(_) => {
            return Err(RenderError::MarkupParse);
        },
    };
    let root = match root_element(&doc) {
        Some(e) => e,
        None => {
            assert(!root_has_child(doc, "path"@));
            return Err(RenderError::MissingPathElement);
        },
    };
    let path = match find_child(&doc, root, "path") {
        Some(e) => e,
        None => {
            assert(!has_child(doc, root, "path"@));
            return Err(RenderError::MissingPathElement);
        },
    };
    assert(has_child(doc, root, "path"@));
    set_attribute(&mut doc, path, "fill-rule", "evenodd");
    match write_document(&doc) {
        Ok(text) => Ok(text),
        Err(_) => Err(RenderError::MarkupParse),
    }
}

} // verus!
