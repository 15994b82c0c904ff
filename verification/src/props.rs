//! The configuration handed to the reactive-framework adapter.
//!
//! A framework component renders a node by creating one host element
//! from `tag`, setting each attribute of `attributes`, and assigning
//! `html` — the fully pre-rendered inner markup — as the element's
//! content directly. The framework is never shown the nested node
//! structure, only this flat triple.

use vstd::prelude::*;
use crate::attribute::Attribute;
use crate::markup::Node;
use crate::markup::spec_attributes;
use crate::markup::spec_children;
use crate::markup::spec_inner_html;
use crate::markup::spec_tag;

verus! {

/// Two attribute sequences carry the same text, pair by pair.
pub open spec fn attrs_congruent(a: Seq<Attribute>, b: Seq<Attribute>) -> bool {
    &&& a.len() == b.len()
    &&& forall|i: int|
        0 <= i < a.len() ==> (#[trigger] a[i]).name@ == b[i].name@ && a[i].value@ == b[i].value@
}

/// The flat configuration for the framework adapter: a tag, the
/// attributes to set, and the pre-rendered inner HTML.
#[derive(Debug)]
pub struct Props {
    pub tag: String,
    pub attributes: Vec<Attribute>,
    pub html: String,
}

/// Compares two attribute lists by their text, pair by pair.
fn attrs_eq(a: &Vec<Attribute>, b: &Vec<Attribute>) -> (r: bool)
    ensures
        r == attrs_congruent(a@, b@),
{
    if a.len() != b.len() {
        return false;
    }
    let mut i: usize = 0;
    while i < a.len()
        invariant
            i <= a@.len(),
            a@.len() == b@.len(),
            forall|j: int|
                0 <= j < i ==> (#[trigger] a@[j]).name@ == b@[j].name@ && a@[j].value@
                    == b@[j].value@,
        decreases a@.len() - i,
    {
        if !(a[i] == b[i]) {
            return false;
        }
        i += 1;
    }
    true
}

impl PartialEq for Props {
    /// Equality of configurations is structural: tag, attributes and
    /// html must all match, by their text.
    fn eq(&self, other: &Self) -> (r: bool) {
        self.tag == other.tag && attrs_eq(&self.attributes, &other.attributes) && self.html
            == other.html
    }
}

impl vstd::std_specs::cmp::PartialEqSpecImpl for Props {
    open spec fn obeys_eq_spec() -> bool {
        true
    }

    open spec fn eq_spec(&self, other: &Self) -> bool {
        &&& self.tag@ == other.tag@
        &&& attrs_congruent(self.attributes@, other.attributes@)
        &&& self.html@ == other.html@
    }
}

impl Node {
    /// Flattens the node for the framework adapter: its tag, its
    /// attributes, and all descendants pre-rendered into one HTML
    /// string.
    pub fn as_props(&self) -> (r: Props)
        ensures
            r.tag@ == spec_tag(*self),
            r.attributes@ == spec_attributes(*self),
            r.html@ == spec_inner_html(spec_children(*self)),
    {
        Props { tag: self.tag(), attributes: self.attributes(), html: self.inner_html_as_string() }
    }
}

} // verus!
