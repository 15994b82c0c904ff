//! HTML attributes: name/value pairs of text.

use vstd::prelude::*;
use vstd::string::StringExecFns;

verus! {

/// The textual form of an attribute: a bare `name` when the value is
/// empty, and `name="value"` otherwise. No escaping is performed.
pub open spec fn spec_attr_text(name: Seq<char>, value: Seq<char>) -> Seq<char> {
    if value.len() == 0 {
        name
    } else {
        name + "=\""@ + value + "\""@
    }
}

/// HTML attribute wrapper, a simple key-value string pair.
#[derive(Debug)]
pub struct Attribute {
    pub name: String,
    pub value: String,
}

impl Attribute {
    /// Builds an attribute from a name and a value.
    pub fn new(name: &str, value: &str) -> (r: Attribute)
        ensures
            r.name@ == name@,
            r.value@ == value@,
    {
        Attribute { name: String::from_str(name), value: String::from_str(value) }
    }

    /// Renders the attribute as it appears inside an opening tag: the
    /// bare name when the value is empty, `name="value"` otherwise.
    pub fn to_text(&self) -> (r: String)
        ensures
            r@ == spec_attr_text(self.name@, self.value@),
            self.value@.len() == 0 ==> r@ == self.name@,
            self.value@.len() > 0 ==> r@ == self.name@ + "=\""@ + self.value@ + "\""@,
    {
        if self.value.as_str().is_empty() {
            self.name.clone()
        } else {
            let mut r = self.name.clone();
            r.append("=\"");
            r.append(self.value.as_str());
            r.append("\"");
            proof {
                assert(r@ =~= spec_attr_text(self.name@, self.value@));
            }
            r
        }
    }
}

impl Clone for Attribute {
    /// Cloning is value-based: the copy carries the same name and value.
    fn clone(&self) -> (r: Self)
        ensures
            r == *self,
    {
        Attribute { name: self.name.clone(), value: self.value.clone() }
    }
}

impl PartialEq for Attribute {
    /// Equality is value-based: same name and same value.
    fn eq(&self, other: &Self) -> (r: bool) {
        self.name == other.name && self.value == other.value
    }
}

impl vstd::std_specs::cmp::PartialEqSpecImpl for Attribute {
    open spec fn obeys_eq_spec() -> bool {
        true
    }

    open spec fn eq_spec(&self, other: &Self) -> bool {
        self.name@ == other.name@ && self.value@ == other.value@
    }
}

} // verus!
