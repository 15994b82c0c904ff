//! Markup nodes and their serialization to raw HTML text.
//!
//! Serialization is a pre-order, depth-first recursion over the tree.
//! The output keeps the exact historical template
//! `<TAG ATTRS> INNER </TAG>`: a space always follows the tag, and the
//! inner content is always framed by one space on each side, even when
//! the tag, the attribute list or the content is empty. That whitespace
//! is deliberate, for byte-level compatibility with existing consumers.

use vstd::prelude::*;
use vstd::string::StringExecFns;
use crate::attribute::Attribute;
use crate::attribute::spec_attr_text;

verus! {

/// A tree of markup.
///
/// An `Element` carries a tag, ordered attributes (rendered in order,
/// duplicates allowed) and ordered children. A `RawText` node is
/// literal, already-final text: it serializes to itself, unchanged and
/// unescaped, and never renders as a tag.
#[derive(Debug)]
pub enum Node {
    Element { tag: String, attributes: Vec<Attribute>, children: Vec<Node> },
    RawText { text: String },
}

/// The tag of a node. A raw-text node answers with the reserved
/// sentinel tag, kept purely for dispatch; it is never rendered.
pub open spec fn spec_tag(n: Node) -> Seq<char> {
    match n {
        Node::Element { tag, .. } => tag@,
        Node::RawText { .. } => "__STRING_MARKER"@,
    }
}

/// The attributes of a node; a raw-text node has none.
pub open spec fn spec_attributes(n: Node) -> Seq<Attribute> {
    match n {
        Node::Element { attributes, .. } => attributes@,
        Node::RawText { .. } => Seq::<Attribute>::empty(),
    }
}

/// The children of a node; a raw-text node has none.
pub open spec fn spec_children(n: Node) -> Seq<Node> {
    match n {
        Node::Element { children, .. } => children@,
        Node::RawText { .. } => Seq::<Node>::empty(),
    }
}

/// The text carried by a raw-text node; an element carries none.
pub open spec fn spec_text(n: Node) -> Seq<char> {
    match n {
        Node::Element { .. } => Seq::<char>::empty(),
        Node::RawText { text } => text@,
    }
}

/// The attribute list as it appears inside an opening tag: each
/// attribute's textual form, joined by single spaces.
pub open spec fn spec_attrs_text(attrs: Seq<Attribute>) -> Seq<char>
    decreases attrs.len(),
{
    if attrs.len() == 0 {
        Seq::<char>::empty()
    } else if attrs.len() == 1 {
        spec_attr_text(attrs[0].name@, attrs[0].value@)
    } else {
        spec_attrs_text(attrs.drop_last()) + " "@
            + spec_attr_text(attrs.last().name@, attrs.last().value@)
    }
}

/// The raw HTML of a node: a raw-text node is its own text; an element
/// is `<TAG ATTRS> INNER </TAG>` with the fixed whitespace described in
/// the module documentation.
pub open spec fn spec_raw_html(n: Node) -> Seq<char>
    decreases n, 1int,
{
    match n {
        Node::RawText { text } => text@,
        Node::Element { tag, attributes, children } => "<"@ + tag@ + " "@
            + spec_attrs_text(attributes@) + "> "@ + spec_inner_html(children@) + " </"@ + tag@
            + ">"@,
    }
}

/// The concatenation of the raw HTML of a sequence of children, in
/// order, with no separator inserted between them.
pub open spec fn spec_inner_html(children: Seq<Node>) -> Seq<char>
    decreases children, 0int,
{
    if children.len() == 0 {
        Seq::<char>::empty()
    } else {
        spec_inner_html(children.drop_last()) + spec_raw_html(children.last())
    }
}

/// Renders a whole attribute list, joining the attributes' textual
/// forms with single spaces.
fn attributes_text(attrs: &Vec<Attribute>) -> (r: String)
    ensures
        r@ == spec_attrs_text(attrs@),
{
    let mut r = String::new();
    let mut i: usize = 0;
    while i < attrs.len()
        invariant
            i <= attrs@.len(),
            r@ == spec_attrs_text(attrs@.take(i as int)),
        decreases attrs@.len() - i,
    {
        if i > 0 {
            r.append(" ");
        }
        let t = attrs[i].to_text();
        r.append(t.as_str());
        proof {
            let s = attrs@.take((i + 1) as int);
            assert(s.drop_last() =~= attrs@.take(i as int));
            assert(s.last() == attrs@[i as int]);
            assert(r@ =~= spec_attrs_text(s));
        }
        i += 1;
    }
    proof {
        assert(attrs@.take(attrs@.len() as int) =~= attrs@);
    }
    r
}

impl Node {
    /// Builds an element node from a tag, attributes and children.
    pub fn element(tag: &str, attributes: Vec<Attribute>, children: Vec<Node>) -> (r: Node)
        ensures
            r is Element,
            spec_tag(r) == tag@,
            spec_attributes(r) == attributes@,
            spec_children(r) == children@,
    {
        Node::Element { tag: String::from_str(tag), attributes, children }
    }

    /// Builds a raw-text node that will serialize to exactly `text`.
    pub fn raw_text(text: &str) -> (r: Node)
        ensures
            r is RawText,
            spec_text(r) == text@,
            spec_raw_html(r) == text@,
    {
        Node::RawText { text: String::from_str(text) }
    }

    /// The node's tag; the reserved sentinel for a raw-text node.
    pub fn tag(&self) -> (r: String)
        ensures
            r@ == spec_tag(*self),
    {
        match self {
            Node::Element { tag, .. } => tag.clone(),
            Node::RawText { .. } => String::from_str("__STRING_MARKER"),
        }
    }

    /// The node's attributes, in rendering order.
    pub fn attributes(&self) -> (r: Vec<Attribute>)
        ensures
            r@ == spec_attributes(*self),
    {
        match self {
            Node::RawText { .. } => Vec::new(),
            Node::Element { attributes, .. } => {
                let mut out: Vec<Attribute> = Vec::new();
                let mut i: usize = 0;
                while i < attributes.len()
                    invariant
                        i <= attributes@.len(),
                        out@ == attributes@.take(i as int),
                    decreases attributes@.len() - i,
                {
                    out.push(attributes[i].clone());
                    proof {
                        assert(attributes@.take((i + 1) as int) =~= attributes@.take(
                            i as int,
                        ).push(attributes@[i as int]));
                    }
                    i += 1;
                }
                proof {
                    assert(attributes@.take(attributes@.len() as int) =~= attributes@);
                }
                out
            },
        }
    }

    /// The node's children, in rendering order; consumes the node.
    pub fn inner_html(self) -> (r: Vec<Node>)
        ensures
            r@ == spec_children(self),
    {
        match self {
            Node::Element { children, .. } => children,
            Node::RawText { .. } => Vec::new(),
        }
    }

    /// Serializes the children in order and concatenates the results,
    /// with no separator inserted between them.
    pub fn inner_html_as_string(&self) -> (r: String)
        ensures
            r@ == spec_inner_html(spec_children(*self)),
        decreases *self, 0int,
    {
        match self {
            Node::RawText { .. } => String::new(),
            Node::Element { children, .. } => {
                let mut r = String::new();
                let mut i: usize = 0;
                while i < children.len()
                    invariant
                        i <= children@.len(),
                        r@ == spec_inner_html(children@.take(i as int)),
                        *self is Element,
                        (*self)->Element_children@ == children@,
                    decreases children@.len() - i,
                {
                    proof {
                        assert(decreases_to!(*self => (*self)->Element_children));
                        assert(decreases_to!((*self)->Element_children => children@));
                        assert(decreases_to!(children@ => children@[i as int]));
                        assert(decreases_to!(*self => children@[i as int]));
                    }
                    let s = children[i].as_raw_html();
                    r.append(s.as_str());
                    proof {
                        let t = children@.take((i + 1) as int);
                        assert(t.drop_last() =~= children@.take(i as int));
                        assert(t.last() == children@[i as int]);
                        assert(r@ =~= spec_inner_html(t));
                    }
                    i += 1;
                }
                proof {
                    assert(children@.take(children@.len() as int) =~= children@);
                }
                r
            },
        }
    }

    /// Converts the node to a raw string of HTML: a raw-text node is
    /// returned verbatim; an element renders as `<TAG ATTRS> INNER
    /// </TAG>`, with the fixed whitespace kept even when tag,
    /// attributes or content are empty.
    pub fn as_raw_html(&self) -> (r: String)
        ensures
            r@ == spec_raw_html(*self),
        decreases *self, 1int,
    {
        match self {
            Node::RawText { text } => text.clone(),
            Node::Element { tag, attributes, .. } => {
                let mut r = String::from_str("<");
                r.append(tag.as_str());
                r.append(" ");
                let a = attributes_text(attributes);
                r.append(a.as_str());
                r.append("> ");
                let inner = self.inner_html_as_string();
                r.append(inner.as_str());
                r.append(" </");
                r.append(tag.as_str());
                r.append(">");
                proof {
                    assert(r@ =~= spec_raw_html(*self));
                }
                r
            },
        }
    }
}

} // verus!
