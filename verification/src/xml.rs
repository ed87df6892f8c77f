//! An owned model of a parsed XML document, and the element lookup
//! primitives every decoder is built from: first child with a tag, all
//! children with a tag, direct text, and attribute lookup. All lookups are
//! over direct children only; tag matching is on the unqualified local name
//! except where a namespace URI is required explicitly.

use vstd::prelude::*;
use crate::text::str_eq;
use crate::DecodeError;

verus! {

#[verifier::external_type_specification]
#[verifier::external_body]
pub struct ExNode<'a, 'input: 'a>(roxmltree::Node<'a, 'input>);

/// One attribute of an element: unqualified local name and value.
pub struct XmlAttr {
    pub name: String,
    pub value: String,
}

/// A namespace declaration in scope at the document root: the prefix
/// (`None` for the default namespace) and the URI it binds.
pub struct NsBinding {
    pub prefix: Option<String>,
    pub uri: String,
}

/// One child of an element, in document order: a nested element, a text
/// run, or any other node kind (comment, processing instruction), which
/// the decoders ignore.
pub enum XmlChild {
    Elem(XmlElement),
    Text(String),
    Other,
}

/// An element: unqualified tag name, the namespace URI of the tag name
/// (empty when the name is in no namespace), attributes, and children in
/// document order.
pub struct XmlElement {
    pub tag: String,
    pub ns: String,
    pub attrs: Vec<XmlAttr>,
    pub children: Vec<XmlChild>,
}

/// A parsed document: the root element plus the namespace declarations in
/// scope at the root.
pub struct XmlDocument {
    pub namespaces: Vec<NsBinding>,
    pub root: XmlElement,
}

/// The first element among the first `n` children whose tag is `tag`.
pub open spec fn first_child_upto(cs: Seq<XmlChild>, tag: Seq<char>, n: int) -> Option<XmlElement>
    decreases n,
{
    if n <= 0 {
        None
    } else if first_child_upto(cs, tag, n - 1) is Some {
        first_child_upto(cs, tag, n - 1)
    } else {
        match cs[n - 1] {
            XmlChild::Elem(e) => if e.tag@ == tag {
                Some(e)
            } else {
                None
            },
            _ => None,
        }
    }
}

/// The first direct child element with the given unqualified tag name.
pub open spec fn spec_first_child(e: XmlElement, tag: Seq<char>) -> Option<XmlElement> {
    first_child_upto(e.children@, tag, e.children@.len() as int)
}

pub fn first_child<'a>(e: &'a XmlElement, tag: &str) -> (r: Option<&'a XmlElement>)
    ensures
        match r {
            Some(c) => spec_first_child(*e, tag@) == Some(*c),
            None => spec_first_child(*e, tag@) is None,
        },
{
    let mut r: Option<&'a XmlElement> = None;
    let n = e.children.len();
    let mut i: usize = 0;
    while i < n
        invariant
            n == e.children@.len(),
            i <= n,
            match r {
                Some(c) => first_child_upto(e.children@, tag@, i as int) == Some(*c),
                None => first_child_upto(e.children@, tag@, i as int) is None,
            },
        decreases n - i,
    {
        if r.is_none() {
            match &e.children[i] {
                XmlChild::Elem(c) => {
                    if str_eq(c.tag.as_str(), tag) {
                        r = Some(c);
                    }
                },
                _ => {},
            }
        }
        i += 1;
    }
    r
}

/// All elements among the first `n` children whose tag is `tag`, in
/// document order.
pub open spec fn children_with_tag_upto(cs: Seq<XmlChild>, tag: Seq<char>, n: int) -> Seq<
    XmlElement,
>
    decreases n,
{
    if n <= 0 {
        Seq::empty()
    } else {
        children_with_tag_upto(cs, tag, n - 1) + match cs[n - 1] {
            XmlChild::Elem(e) => if e.tag@ == tag {
                seq![e]
            } else {
                Seq::empty()
            },
            _ => Seq::empty(),
        }
    }
}

/// All direct child elements with the given unqualified tag name, in
/// document order.
pub open spec fn spec_children_with_tag(e: XmlElement, tag: Seq<char>) -> Seq<XmlElement> {
    children_with_tag_upto(e.children@, tag, e.children@.len() as int)
}

pub fn children_with_tag<'a>(e: &'a XmlElement, tag: &str) -> (r: Vec<&'a XmlElement>)
    ensures
        r@.len() == spec_children_with_tag(*e, tag@).len(),
        forall|j: int|
            0 <= j < r@.len() ==> *r@[j] == spec_children_with_tag(*e, tag@)[j],
{
    let mut r: Vec<&'a XmlElement> = Vec::new();
    let n = e.children.len();
    let mut i: usize = 0;
    while i < n
        invariant
            n == e.children@.len(),
            i <= n,
            r@.len() == children_with_tag_upto(e.children@, tag@, i as int).len(),
            forall|j: int|
                0 <= j < r@.len() ==> *r@[j] == children_with_tag_upto(
                    e.children@,
                    tag@,
                    i as int,
                )[j],
        decreases n - i,
    {
        match &e.children[i] {
            XmlChild::Elem(c) => {
                if str_eq(c.tag.as_str(), tag) {
                    r.push(c);
                }
            },
            _ => {},
        }
        i += 1;
    }
    r
}

/// All elements among the first `n` children whose tag is `tag` and whose
/// tag namespace URI is `ns` (empty URI standing for no namespace).
pub open spec fn children_with_tag_ns_upto(
    cs: Seq<XmlChild>,
    tag: Seq<char>,
    ns: Seq<char>,
    n: int,
) -> Seq<XmlElement>
    decreases n,
{
    if n <= 0 {
        Seq::empty()
    } else {
        children_with_tag_ns_upto(cs, tag, ns, n - 1) + match cs[n - 1] {
            XmlChild::Elem(e) => if e.tag@ == tag && e.ns@ == ns {
                seq![e]
            } else {
                Seq::empty()
            },
            _ => Seq::empty(),
        }
    }
}

/// All direct child elements matching both the unqualified tag name and
/// the namespace URI, in document order. This is the one lookup that must
/// match a namespace, because its element name is reused across unrelated
/// namespaces in real documents.
pub open spec fn spec_children_with_tag_ns(e: XmlElement, tag: Seq<char>, ns: Seq<char>) -> Seq<
    XmlElement,
> {
    children_with_tag_ns_upto(e.children@, tag, ns, e.children@.len() as int)
}

pub fn children_with_tag_ns<'a>(e: &'a XmlElement, tag: &str, ns: &str) -> (r: Vec<
    &'a XmlElement,
>)
    ensures
        r@.len() == spec_children_with_tag_ns(*e, tag@, ns@).len(),
        forall|j: int|
            0 <= j < r@.len() ==> *r@[j] == spec_children_with_tag_ns(*e, tag@, ns@)[j],
{
    let mut r: Vec<&'a XmlElement> = Vec::new();
    let n = e.children.len();
    let mut i: usize = 0;
    while i < n
        invariant
            n == e.children@.len(),
            i <= n,
            r@.len() == children_with_tag_ns_upto(e.children@, tag@, ns@, i as int).len(),
            forall|j: int|
                0 <= j < r@.len() ==> *r@[j] == children_with_tag_ns_upto(
                    e.children@,
                    tag@,
                    ns@,
                    i as int,
                )[j],
        decreases n - i,
    {
        match &e.children[i] {
            XmlChild::Elem(c) => {
                if str_eq(c.tag.as_str(), tag) && str_eq(c.ns.as_str(), ns) {
                    r.push(c);
                }
            },
            _ => {},
        }
        i += 1;
    }
    r
}

/// The element's direct text: the text of its first child, when that child
/// is a text run.
pub open spec fn spec_text(e: XmlElement) -> Option<Seq<char>> {
    if e.children@.len() > 0 {
        match e.children@[0] {
            XmlChild::Text(s) => Some(s@),
            _ => None,
        }
    } else {
        None
    }
}

pub fn text_of<'a>(e: &'a XmlElement) -> (r: Option<&'a String>)
    ensures
        match r {
            Some(s) => spec_text(*e) == Some(s@),
            None => spec_text(*e) is None,
        },
{
    if e.children.len() > 0 {
        match &e.children[0] {
            XmlChild::Text(s) => Some(s),
            _ => None,
        }
    } else {
        None
    }
}

/// The value of the first attribute (among the first `n`) with the given
/// local name.
pub open spec fn attr_upto(attrs: Seq<XmlAttr>, name: Seq<char>, n: int) -> Option<Seq<char>>
    decreases n,
{
    if n <= 0 {
        None
    } else if attr_upto(attrs, name, n - 1) is Some {
        attr_upto(attrs, name, n - 1)
    } else if attrs[n - 1].name@ == name {
        Some(attrs[n - 1].value@)
    } else {
        None
    }
}

/// The value of the element's first attribute with the given local name.
pub open spec fn spec_attr(e: XmlElement, name: Seq<char>) -> Option<Seq<char>> {
    attr_upto(e.attrs@, name, e.attrs@.len() as int)
}

pub fn attr_of<'a>(e: &'a XmlElement, name: &str) -> (r: Option<&'a String>)
    ensures
        match r {
            Some(s) => spec_attr(*e, name@) == Some(s@),
            None => spec_attr(*e, name@) is None,
        },
{
    let mut r: Option<&'a String> = None;
    let n = e.attrs.len();
    let mut i: usize = 0;
    while i < n
        invariant
            n == e.attrs@.len(),
            i <= n,
            match r {
                Some(s) => attr_upto(e.attrs@, name@, i as int) == Some(s@),
                None => attr_upto(e.attrs@, name@, i as int) is None,
            },
        decreases n - i,
    {
        if r.is_none() && str_eq(e.attrs[i].name.as_str(), name) {
            r = Some(&e.attrs[i].value);
        }
        i += 1;
    }
    r
}

/// What parsing a text as XML yields: the converted document for a
/// well-formed text, or the parser's error message otherwise. The outcome
/// depends on the characters alone.
pub uninterp spec fn parsed_xml(s: Seq<char>) -> Result<XmlDocument, Seq<char>>;

/// Serves `parse_xml_document` alone. Relies on roxmltree's node
/// accessors (`tag_name`, `attributes`, `children`, `node_type`, `text`)
/// to copy one parsed element into owned values, one node kind per arm.
#[verifier::external_body]
fn convert_element(node: roxmltree::Node) -> XmlElement {
    XmlElement {
        tag: node.tag_name().name().to_string(),
        ns: node.tag_name().namespace().unwrap_or("").to_string(),
        attrs: node.attributes().map(
            |a| XmlAttr { name: a.name().to_string(), value: a.value().to_string() },
        ).collect(),
        children: convert_children(node),
    }
}

/// Serves `parse_xml_document` alone. Relies on roxmltree's
/// `Node::children` and `Node::node_type`: every child in document order,
/// elements and text runs converted, other node kinds kept as opaque
/// placeholders.
#[verifier::external_body]
fn convert_children(node: roxmltree::Node) -> Vec<XmlChild> {
    node.children().map(
        |c|
            match c.node_type() {
                roxmltree::NodeType::Element => XmlChild::Elem(convert_element(c)),
                roxmltree::NodeType::Text => XmlChild::Text(c.text().unwrap_or("").to_string()),
                _ => XmlChild::Other,
            },
    ).collect()
}

/// Serves `parse_xml_document` alone. Relies on roxmltree's
/// `Node::namespaces`: the namespace declarations in scope at the node.
#[verifier::external_body]
fn convert_namespaces(node: roxmltree::Node) -> Vec<NsBinding> {
    node.namespaces().map(
        |ns|
            NsBinding {
                prefix: ns.name().map(|p| p.to_string()),
                uri: ns.uri().to_string(),
            },
    ).collect()
}

/// Relies on `roxmltree::Document::parse`: builds the node tree of a
/// well-formed document and reports a descriptive error otherwise,
/// deterministically in the text alone — the whole outcome, document or
/// message, is named `parsed_xml`. After a successful parse the root
/// element always exists.
#[verifier::external_body]
pub(crate) fn parse_xml_document(text: &str) -> (r: Result<XmlDocument, DecodeError>)
    ensures
        match r {
            Ok(doc) => parsed_xml(text@) == Ok::<XmlDocument, Seq<char>>(doc),
            Err(e) => match parsed_xml(text@) {
                Ok(_) => false,
                Err(m) => e@ == crate::ErrorModel::MalformedXml(m),
            },
        },
{
    match roxmltree::Document::parse(text) {
        Ok(doc) => {
            let root = doc.root_element();
            Ok(XmlDocument { namespaces: convert_namespaces(root), root: convert_element(root) })
        },
        Err(e) => Err(DecodeError::MalformedXml(e.to_string())),
    }
}

/// The direct text of the first child element with the given tag.
pub open spec fn spec_child_text(e: XmlElement, tag: Seq<char>) -> Option<Seq<char>> {
    match spec_first_child(e, tag) {
        Some(c) => spec_text(c),
        None => None,
    }
}

pub fn child_text<'a>(e: &'a XmlElement, tag: &str) -> (r: Option<&'a String>)
    ensures
        match r {
            Some(s) => spec_child_text(*e, tag@) == Some(s@),
            None => spec_child_text(*e, tag@) is None,
        },
{
    match first_child(e, tag) {
        Some(c) => text_of(c),
        None => None,
    }
}

} // verus!
