//! The tree of a page: parsing and queries, done by the `select` crate.
//!
//! What this file says of `select` is not proved. Each wrapper hands one call
//! to `select` and gives the call's result a name, so that contracts
//! elsewhere can say exactly which queries a decoder makes and what it does
//! with the answers. The queries are made on pages that the parser built:
//! on such a page every link between nodes leads to a node of the page and
//! no node lies below itself, so that walking the tree ends.

use select::document::Document;
use select::node::Node;
use select::predicate::{Class, Name, Predicate};
use vstd::prelude::*;
use vstd::utf8::encode_utf8;

verus! {

/// `select::document::Document`: a parsed page.
#[verifier::external_type_specification]
#[verifier::external_body]
pub struct ExDocument(select::document::Document);

/// `select::node::Node`: one node of a parsed page.
#[verifier::external_type_specification]
#[verifier::external_body]
pub struct ExNode<'a>(select::node::Node<'a>);

/// What a query looks for.
pub enum Selector {
    /// Elements whose `class` attribute holds this class.
    Class(Seq<char>),
    /// Elements with this tag name.
    Name(Seq<char>),
    /// Elements with the tag name (second) that lie anywhere below an element
    /// of the class (first).
    ClassDescendantName(Seq<char>, Seq<char>),
    /// Elements of the second class that lie anywhere below an element of the
    /// first class.
    ClassDescendantClass(Seq<char>, Seq<char>),
    /// Elements with the tag name (second) whose parent is an element of the
    /// class (first).
    ClassChildName(Seq<char>, Seq<char>),
}

/// The tree that `Document::from` builds from the text of a page.
pub uninterp spec fn parsed(markup: Seq<char>) -> Document;

/// The page that a node lies on: a `Node` refers to its `Document`, and the
/// nodes that a query yields lie on the page that was searched.
pub uninterp spec fn page_of(node: Node) -> Document;

/// Whether the text of a page is short enough for the parser, which takes
/// no text of more than `u32::MAX` bytes: the length that `str::len` gives,
/// the number of bytes of the text in UTF-8, is at most that.
pub open spec fn page_sized(markup: Seq<char>) -> bool {
    encode_utf8(markup).len() as usize <= 0xFFFF_FFFF
}

/// Whether the text of a page is short enough for the parser.
pub fn fits_parser(markup: &str) -> (fits: bool)
    ensures
        fits == page_sized(markup@),
{
    markup.len() <= 0xFFFF_FFFF
}

/// Whether the parser built `page`, from a text that is short enough.
pub open spec fn from_parser(page: &Document) -> bool {
    exists|markup: Seq<char>| page_sized(markup) && *page == #[trigger] parsed(markup)
}

/// Whether `node` lies on a page that the parser built.
pub open spec fn on_parsed_page(node: Node) -> bool {
    from_parser(&page_of(node))
}

/// Whether every one of `nodes` lies on `page`.
pub open spec fn all_on_page(nodes: Seq<Node>, page: &Document) -> bool {
    forall|i: int| 0 <= i < nodes.len() ==> page_of(#[trigger] nodes[i]) == *page
}

/// The nodes that `Document::find` yields for `selector`, in its order: all
/// nodes of the page that match, in document order.
pub uninterp spec fn found_in_page(page: &Document, selector: Selector) -> Seq<Node>;

/// The nodes that `Node::find` yields for `selector`, in its order: the
/// nodes below `node` that match, in document order.
pub uninterp spec fn found_below(node: Node, selector: Selector) -> Seq<Node>;

/// The text that `Node::text` gives: the text of the node and of all nodes
/// below it, joined.
pub uninterp spec fn text_of(node: Node) -> Seq<char>;

/// The value that `Node::attr` gives for the attribute `name`, if the node
/// is an element that has it.
pub uninterp spec fn attribute_of(node: Node, name: Seq<char>) -> Option<Seq<char>>;

/// The markup that `Node::inner_html` writes for what lies below the node.
pub uninterp spec fn inner_markup_of(node: Node) -> Seq<char>;

/// Calls `Document::from` on the text of a page. The tree that comes back
/// is named `parsed`. The call panics on a text of more than `u32::MAX`
/// bytes, which is left out.
#[verifier::external_body]
pub(crate) fn parse_page(markup: &str) -> (page: Document)
    requires
        page_sized(markup@),
    ensures
        page == parsed(markup@),
{
    Document::from(markup)
}

/// Calls `Document::find` with `Class(class)` and collects what it yields:
/// nodes of `page`.
#[verifier::external_body]
pub(crate) fn page_find_class<'a>(page: &'a Document, class: &str) -> (found: Vec<Node<'a>>)
    ensures
        found@ == found_in_page(page, Selector::Class(class@)),
        all_on_page(found@, page),
{
    page.find(Class(class)).collect()
}

/// Calls `Document::find` with `Class(class).descendant(Name(name))` and
/// collects what it yields: nodes of `page`. The predicate walks up from
/// node to parent, which ends on a page that the parser built.
#[verifier::external_body]
pub(crate) fn page_find_class_descendant_name<'a>(
    page: &'a Document,
    class: &str,
    name: &str,
) -> (found: Vec<Node<'a>>)
    requires
        from_parser(page),
    ensures
        found@ == found_in_page(page, Selector::ClassDescendantName(class@, name@)),
        all_on_page(found@, page),
{
    page.find(Class(class).descendant(Name(name))).collect()
}

/// Calls `Document::find` with `Class(outer).descendant(Class(inner))` and
/// collects what it yields: nodes of `page`. The predicate walks up from
/// node to parent, which ends on a page that the parser built.
#[verifier::external_body]
pub(crate) fn page_find_class_descendant_class<'a>(
    page: &'a Document,
    outer: &str,
    inner: &str,
) -> (found: Vec<Node<'a>>)
    requires
        from_parser(page),
    ensures
        found@ == found_in_page(page, Selector::ClassDescendantClass(outer@, inner@)),
        all_on_page(found@, page),
{
    page.find(Class(outer).descendant(Class(inner))).collect()
}

/// Calls `Node::find` with `Class(class)` and collects what it yields:
/// nodes of the page of `node`. The search walks the links below `node`,
/// which hold on a page that the parser built.
#[verifier::external_body]
pub(crate) fn find_class<'a>(node: &Node<'a>, class: &str) -> (found: Vec<Node<'a>>)
    requires
        on_parsed_page(*node),
    ensures
        found@ == found_below(*node, Selector::Class(class@)),
        all_on_page(found@, &page_of(*node)),
{
    node.find(Class(class)).collect()
}

/// Calls `Node::find` with `Name(name)` and collects what it yields: nodes
/// of the page of `node`. The search walks the links below `node`, which
/// hold on a page that the parser built.
#[verifier::external_body]
pub(crate) fn find_name<'a>(node: &Node<'a>, name: &str) -> (found: Vec<Node<'a>>)
    requires
        on_parsed_page(*node),
    ensures
        found@ == found_below(*node, Selector::Name(name@)),
        all_on_page(found@, &page_of(*node)),
{
    node.find(Name(name)).collect()
}

/// Calls `Node::find` with `Class(class).descendant(Name(name))` and
/// collects what it yields: nodes of the page of `node`. The search walks
/// the links below `node` and up from node to parent, which hold and end on
/// a page that the parser built.
#[verifier::external_body]
pub(crate) fn find_class_descendant_name<'a>(node: &Node<'a>, class: &str, name: &str) -> (found:
    Vec<Node<'a>>)
    requires
        on_parsed_page(*node),
    ensures
        found@ == found_below(*node, Selector::ClassDescendantName(class@, name@)),
        all_on_page(found@, &page_of(*node)),
{
    node.find(Class(class).descendant(Name(name))).collect()
}

/// Calls `Node::find` with `Class(class).child(Name(name))` and collects
/// what it yields: nodes of the page of `node`. The search walks the links
/// below `node`, which hold on a page that the parser built.
#[verifier::external_body]
pub(crate) fn find_class_child_name<'a>(node: &Node<'a>, class: &str, name: &str) -> (found: Vec<
    Node<'a>,
>)
    requires
        on_parsed_page(*node),
    ensures
        found@ == found_below(*node, Selector::ClassChildName(class@, name@)),
        all_on_page(found@, &page_of(*node)),
{
    node.find(Class(class).child(Name(name))).collect()
}

/// Calls `Node::text`, which walks the links below `node`; they hold on a
/// page that the parser built.
#[verifier::external_body]
pub(crate) fn node_text(node: &Node) -> (text: String)
    requires
        on_parsed_page(*node),
    ensures
        text@ == text_of(*node),
{
    node.text()
}

/// Calls `Node::attr` and copies the value, where there is one.
#[verifier::external_body]
pub(crate) fn node_attr(node: &Node, name: &str) -> (value: Option<String>)
    ensures
        match value {
            Some(value) => attribute_of(*node, name@) == Some(value@),
            None => attribute_of(*node, name@) is None,
        },
{
    node.attr(name).map(String::from)
}

/// Calls `Node::inner_html`, which walks the links below `node`; they hold
/// on a page that the parser built.
#[verifier::external_body]
pub(crate) fn node_inner_markup(node: &Node) -> (markup: String)
    requires
        on_parsed_page(*node),
    ensures
        markup@ == inner_markup_of(*node),
{
    node.inner_html()
}

} // verus!
