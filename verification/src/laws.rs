//! General laws of the serializer, stated and proved once for all
//! inputs.

use vstd::prelude::*;
use crate::attribute::spec_attr_text;
use crate::markup::Node;
use crate::markup::spec_attributes;
use crate::markup::spec_attrs_text;
use crate::markup::spec_children;
use crate::markup::spec_inner_html;
use crate::markup::spec_raw_html;
use crate::markup::spec_tag;
use crate::markup::spec_text;

verus! {

/// An attribute with an empty value renders as its bare name; with a
/// non-empty value it renders as `name="value"`.
pub proof fn lemma_attribute_text(name: Seq<char>, value: Seq<char>)
    ensures
        value.len() == 0 ==> spec_attr_text(name, value) == name,
        value.len() > 0 ==> spec_attr_text(name, value) == name + "=\""@ + value + "\""@,
{
}

/// A raw-text node serializes to exactly the text it wraps, unchanged,
/// whatever that text contains; no escaping is performed.
pub proof fn lemma_raw_text_serialization(n: Node)
    requires
        n is RawText,
    ensures
        spec_raw_html(n) == spec_text(n),
{
}

/// An element with no attributes and no children serializes to the
/// exact template with empty placeholders substituted literally: the
/// fixed spaces around the tag and the inner content remain.
pub proof fn lemma_empty_element_serialization(n: Node)
    requires
        n is Element,
        spec_attributes(n).len() == 0,
        spec_children(n).len() == 0,
    ensures
        spec_raw_html(n) == "<"@ + spec_tag(n) + " "@ + "> "@ + " </"@ + spec_tag(n) + ">"@,
{
    assert(spec_raw_html(n) =~= "<"@ + spec_tag(n) + " "@ + "> "@ + " </"@ + spec_tag(n) + ">"@);
}

/// Concatenated inner-text serialization preserves child order and
/// inserts nothing between children: the serialization of two child
/// lists laid end to end is the two serializations laid end to end.
pub proof fn lemma_inner_html_concat(cs: Seq<Node>, ds: Seq<Node>)
    ensures
        spec_inner_html(cs + ds) == spec_inner_html(cs) + spec_inner_html(ds),
    decreases ds.len(),
{
    if ds.len() == 0 {
        assert(cs + ds =~= cs);
        assert(spec_inner_html(cs + ds) =~= spec_inner_html(cs) + spec_inner_html(ds));
    } else {
        lemma_inner_html_concat(cs, ds.drop_last());
        assert((cs + ds).drop_last() =~= cs + ds.drop_last());
        assert((cs + ds).last() == ds.last());
        assert(spec_inner_html(cs + ds) =~= spec_inner_html(cs) + spec_inner_html(ds));
    }
}

/// Serializing an element with exactly the children `a`, `b`, `c`
/// yields the template whose child segment is the serialization of
/// `a`, then of `b`, then of `c`, concatenated with no separator.
pub proof fn lemma_three_children_serialization(n: Node, a: Node, b: Node, c: Node)
    requires
        n is Element,
        spec_children(n) == seq![a, b, c],
    ensures
        spec_inner_html(spec_children(n)) == spec_raw_html(a) + spec_raw_html(b) + spec_raw_html(
            c,
        ),
        spec_raw_html(n) == "<"@ + spec_tag(n) + " "@ + spec_attrs_text(
            spec_attributes(n),
        ) + "> "@ + spec_raw_html(a) + spec_raw_html(b) + spec_raw_html(c) + " </"@ + spec_tag(n)
            + ">"@,
{
    let s = seq![a, b, c];
    assert(s.drop_last() =~= seq![a, b]);
    assert(seq![a, b].drop_last() =~= seq![a]);
    assert(seq![a].drop_last() =~= Seq::<Node>::empty());
    assert(spec_inner_html(Seq::<Node>::empty()) == Seq::<char>::empty());
    assert(spec_inner_html(seq![a]) =~= spec_raw_html(a));
    assert(spec_inner_html(seq![a, b]) =~= spec_raw_html(a) + spec_raw_html(b));
    assert(spec_inner_html(s) =~= spec_raw_html(a) + spec_raw_html(b) + spec_raw_html(c));
    assert(spec_raw_html(n) =~= "<"@ + spec_tag(n) + " "@ + spec_attrs_text(
        spec_attributes(n),
    ) + "> "@ + spec_raw_html(a) + spec_raw_html(b) + spec_raw_html(c) + " </"@ + spec_tag(n)
        + ">"@);
}

} // verus!
