//! Materialization plans: the decisions behind turning a node into a
//! live DOM subtree.
//!
//! The library itself performs no host calls. Instead it compiles a
//! node into a straight-line sequence of [`DomStep`]s, and a thin host
//! layer executes them against the real DOM in order, keeping a stack
//! of open elements and aborting with an absent result on the first
//! host failure. All the decisions — the order in which attributes are
//! set, whether a child is appended as a text fragment or materialized
//! as an element, and when a finished child is attached to its parent —
//! are made here, and verified.

use vstd::prelude::*;
use crate::attribute::Attribute;
use crate::markup::Node;

verus! {

/// One instruction of a materialization plan, executed against a stack
/// of open elements.
#[derive(Debug)]
pub enum DomStep {
    /// Create an element with this tag and push it on the stack.
    CreateElement { tag: String },
    /// Set an attribute on the topmost element.
    SetAttribute { name: String, value: String },
    /// Append literal text to the topmost element.
    AppendText { text: String },
    /// Pop the topmost element and append it as a child of the element
    /// below it.
    AppendChildToParent,
}

/// The steps that set an attribute list on the topmost element, in
/// rendering order.
pub open spec fn spec_attr_steps(attrs: Seq<Attribute>) -> Seq<DomStep>
    decreases attrs.len(),
{
    if attrs.len() == 0 {
        Seq::<DomStep>::empty()
    } else {
        spec_attr_steps(attrs.drop_last()) + seq![
            DomStep::SetAttribute { name: attrs.last().name, value: attrs.last().value },
        ]
    }
}

/// The plan that materializes one node as an element: create it, set
/// its attributes in order, then handle its children in order. A
/// raw-text node is not an element and has no plan of its own.
pub open spec fn spec_dom_plan(n: Node) -> Seq<DomStep>
    decreases n, 0int,
{
    match n {
        Node::RawText { .. } => Seq::<DomStep>::empty(),
        Node::Element { tag, attributes, children } => seq![DomStep::CreateElement { tag }]
            + spec_attr_steps(attributes@) + spec_children_steps(children@),
    }
}

/// The steps contributed by a list of children, in order.
pub open spec fn spec_children_steps(children: Seq<Node>) -> Seq<DomStep>
    decreases children, 1int,
{
    if children.len() == 0 {
        Seq::<DomStep>::empty()
    } else {
        spec_children_steps(children.drop_last()) + spec_child_steps(children.last())
    }
}

/// The steps contributed by one child: a raw-text child is appended to
/// its parent as a text fragment; any other child is materialized in
/// full and then attached to its parent.
pub open spec fn spec_child_steps(child: Node) -> Seq<DomStep>
    decreases child, 2int,
{
    match child {
        Node::RawText { text } => seq![DomStep::AppendText { text }],
        Node::Element { .. } => spec_dom_plan(child) + seq![DomStep::AppendChildToParent],
    }
}

/// Appends the node's materialization plan to `out`.
fn push_dom_plan(n: &Node, out: &mut Vec<DomStep>)
    ensures
        final(out)@ == old(out)@ + spec_dom_plan(*n),
    decreases *n, 0int,
{
    match n {
        Node::RawText { .. } => {
            proof {
                assert(old(out)@ + spec_dom_plan(*n) =~= old(out)@);
            }
        },
        Node::Element { tag, attributes, children } => {
            out.push(DomStep::CreateElement { tag: tag.clone() });
            let mut i: usize = 0;
            while i < attributes.len()
                invariant
                    i <= attributes@.len(),
                    out@ == old(out)@ + seq![DomStep::CreateElement { tag: (*n)->Element_tag }]
                        + spec_attr_steps(attributes@.take(i as int)),
                    *n is Element,
                    (*n)->Element_attributes@ == attributes@,
                decreases attributes@.len() - i,
            {
                let a = &attributes[i];
                out.push(DomStep::SetAttribute { name: a.name.clone(), value: a.value.clone() });
                proof {
                    let s = attributes@.take((i + 1) as int);
                    assert(s.drop_last() =~= attributes@.take(i as int));
                    assert(s.last() == attributes@[i as int]);
                    assert(out@ =~= old(out)@ + seq![
                        DomStep::CreateElement { tag: (*n)->Element_tag },
                    ] + spec_attr_steps(s));
                }
                i += 1;
            }
            proof {
                assert(attributes@.take(attributes@.len() as int) =~= attributes@);
            }
            let mut j: usize = 0;
            while j < children.len()
                invariant
                    j <= children@.len(),
                    out@ == old(out)@ + seq![DomStep::CreateElement { tag: (*n)->Element_tag }]
                        + spec_attr_steps((*n)->Element_attributes@) + spec_children_steps(
                        children@.take(j as int),
                    ),
                    *n is Element,
                    (*n)->Element_children@ == children@,
                decreases children@.len() - j,
            {
                proof {
                    assert(decreases_to!(*n => (*n)->Element_children));
                    assert(decreases_to!((*n)->Element_children => children@));
                    assert(decreases_to!(children@ => children@[j as int]));
                    assert(decreases_to!(*n => children@[j as int]));
                }
                let child = &children[j];
                match child {
                    Node::RawText { text } => {
                        out.push(DomStep::AppendText { text: text.clone() });
                        proof {
                            assert(spec_child_steps(children@[j as int]) =~= seq![
                                DomStep::AppendText { text: *text },
                            ]);
                        }
                    },
                    Node::Element { .. } => {
                        push_dom_plan(child, out);
                        out.push(DomStep::AppendChildToParent);
                        proof {
                            assert(spec_child_steps(children@[j as int]) =~= spec_dom_plan(
                                children@[j as int],
                            ) + seq![DomStep::AppendChildToParent]);
                        }
                    },
                }
                proof {
                    let t = children@.take((j + 1) as int);
                    assert(t.drop_last() =~= children@.take(j as int));
                    assert(t.last() == children@[j as int]);
                    assert(spec_children_steps(t) == spec_children_steps(
                        children@.take(j as int),
                    ) + spec_child_steps(children@[j as int]));
                    assert(out@ =~= old(out)@ + seq![
                        DomStep::CreateElement { tag: (*n)->Element_tag },
                    ] + spec_attr_steps((*n)->Element_attributes@) + spec_children_steps(t));
                }
                j += 1;
            }
            proof {
                assert(children@.take(children@.len() as int) =~= children@);
                assert(out@ =~= old(out)@ + spec_dom_plan(*n));
            }
        },
    }
}

/// The stack-depth effect of one step: creating an element pushes one,
/// attaching a finished child pops one, the rest leave the stack as it
/// is.
pub open spec fn step_depth_change(s: DomStep) -> int {
    match s {
        DomStep::CreateElement { .. } => 1,
        DomStep::SetAttribute { .. } => 0,
        DomStep::AppendText { .. } => 0,
        DomStep::AppendChildToParent => -1,
    }
}

/// The net stack-depth effect of a step sequence.
pub open spec fn plan_depth_change(steps: Seq<DomStep>) -> int
    decreases steps.len(),
{
    if steps.len() == 0 {
        0
    } else {
        plan_depth_change(steps.drop_last()) + step_depth_change(steps.last())
    }
}

/// One step can execute at stack depth `d`: setting an attribute or
/// appending text needs an open element, and attaching a finished
/// child needs its parent beneath it.
pub open spec fn step_ok(s: DomStep, d: int) -> bool {
    match s {
        DomStep::CreateElement { .. } => true,
        DomStep::SetAttribute { .. } => d >= 1,
        DomStep::AppendText { .. } => d >= 1,
        DomStep::AppendChildToParent => d >= 2,
    }
}

/// A step sequence that, started at stack depth `d`, never asks for an
/// element that is not on the stack.
pub open spec fn plan_safe(steps: Seq<DomStep>, d: int) -> bool
    decreases steps.len(),
{
    if steps.len() == 0 {
        true
    } else {
        plan_safe(steps.drop_last(), d) && step_ok(
            steps.last(),
            d + plan_depth_change(steps.drop_last()),
        )
    }
}

proof fn lemma_depth_change_concat(a: Seq<DomStep>, b: Seq<DomStep>)
    ensures
        plan_depth_change(a + b) == plan_depth_change(a) + plan_depth_change(b),
    decreases b.len(),
{
    if b.len() == 0 {
        assert(a + b =~= a);
    } else {
        lemma_depth_change_concat(a, b.drop_last());
        assert((a + b).drop_last() =~= a + b.drop_last());
        assert((a + b).last() == b.last());
    }
}

proof fn lemma_safe_concat(a: Seq<DomStep>, b: Seq<DomStep>, d: int)
    ensures
        plan_safe(a + b, d) == (plan_safe(a, d) && plan_safe(b, d + plan_depth_change(a))),
    decreases b.len(),
{
    if b.len() == 0 {
        assert(a + b =~= a);
    } else {
        lemma_safe_concat(a, b.drop_last(), d);
        lemma_depth_change_concat(a, b.drop_last());
        assert((a + b).drop_last() =~= a + b.drop_last());
        assert((a + b).last() == b.last());
    }
}

proof fn lemma_singleton_plan(x: DomStep, d: int)
    ensures
        plan_depth_change(seq![x]) == step_depth_change(x),
        plan_safe(seq![x], d) == step_ok(x, d),
{
    let s = seq![x];
    assert(s.drop_last() =~= Seq::<DomStep>::empty());
    reveal_with_fuel(plan_depth_change, 2);
    reveal_with_fuel(plan_safe, 2);
}

proof fn lemma_attr_steps_well_formed(attrs: Seq<Attribute>, d: int)
    requires
        d >= 1,
    ensures
        plan_depth_change(spec_attr_steps(attrs)) == 0,
        plan_safe(spec_attr_steps(attrs), d),
    decreases attrs.len(),
{
    if attrs.len() == 0 {
        assert(spec_attr_steps(attrs) =~= Seq::<DomStep>::empty());
        assert(plan_depth_change(Seq::<DomStep>::empty()) == 0);
        assert(plan_safe(Seq::<DomStep>::empty(), d));
    } else {
        lemma_attr_steps_well_formed(attrs.drop_last(), d);
        let a = spec_attr_steps(attrs.drop_last());
        let x = DomStep::SetAttribute { name: attrs.last().name, value: attrs.last().value };
        let s = seq![x];
        assert(spec_attr_steps(attrs) == a + s);
        lemma_singleton_plan(x, d + plan_depth_change(a));
        lemma_depth_change_concat(a, s);
        lemma_safe_concat(a, s, d);
    }
}

proof fn lemma_children_steps_well_formed(children: Seq<Node>, d: int)
    requires
        d >= 1,
    ensures
        plan_depth_change(spec_children_steps(children)) == 0,
        plan_safe(spec_children_steps(children), d),
    decreases children, 1int,
{
    if children.len() > 0 {
        lemma_children_steps_well_formed(children.drop_last(), d);
        lemma_child_steps_well_formed(children.last(), d);
        lemma_depth_change_concat(
            spec_children_steps(children.drop_last()),
            spec_child_steps(children.last()),
        );
        lemma_safe_concat(
            spec_children_steps(children.drop_last()),
            spec_child_steps(children.last()),
            d,
        );
    }
}

proof fn lemma_child_steps_well_formed(child: Node, d: int)
    requires
        d >= 1,
    ensures
        plan_depth_change(spec_child_steps(child)) == 0,
        plan_safe(spec_child_steps(child), d),
    decreases child, 2int,
{
    match child {
        Node::RawText { text } => {
            let x = DomStep::AppendText { text };
            assert(spec_child_steps(child) == seq![x]);
            lemma_singleton_plan(x, d);
        },
        Node::Element { .. } => {
            lemma_dom_plan_well_formed(child, d);
            let x = DomStep::AppendChildToParent;
            let s = seq![x];
            assert(spec_child_steps(child) == spec_dom_plan(child) + s);
            lemma_singleton_plan(x, d + plan_depth_change(spec_dom_plan(child)));
            lemma_depth_change_concat(spec_dom_plan(child), s);
            lemma_safe_concat(spec_dom_plan(child), s, d);
        },
    }
}

/// An element's materialization plan is well formed: started at any
/// stack depth, it never asks for an element that is not on the stack,
/// and it leaves exactly one new element — the materialized node — on
/// top. A host layer that executes the plan in order therefore comes
/// back absent only when a host call itself fails.
pub proof fn lemma_dom_plan_well_formed(n: Node, d: int)
    requires
        n is Element,
        d >= 0,
    ensures
        plan_depth_change(spec_dom_plan(n)) == 1,
        plan_safe(spec_dom_plan(n), d),
    decreases n, 0int,
{
    let x = DomStep::CreateElement { tag: n->Element_tag };
    let c = seq![x];
    let a = spec_attr_steps(n->Element_attributes@);
    let k = spec_children_steps(n->Element_children@);
    assert(spec_dom_plan(n) == c + a + k);
    lemma_singleton_plan(x, d);
    lemma_attr_steps_well_formed(n->Element_attributes@, d + 1);
    lemma_children_steps_well_formed(n->Element_children@, d + 1);
    lemma_depth_change_concat(c, a);
    lemma_safe_concat(c, a, d);
    lemma_depth_change_concat(c + a, k);
    lemma_safe_concat(c + a, k, d);
}

impl Node {
    /// The plan that materializes this node as a DOM element: absent
    /// for a raw-text node, which is not an element, and otherwise the
    /// full instruction sequence, ready for a host layer to execute.
    pub fn as_element_plan(&self) -> (r: Option<Vec<DomStep>>)
        ensures
            (r is Some) <==> (*self is Element),
            r matches Some(steps) ==> steps@ == spec_dom_plan(*self),
    {
        match self {
            Node::RawText { .. } => None,
            Node::Element { .. } => {
                let mut out: Vec<DomStep> = Vec::new();
                push_dom_plan(self, &mut out);
                proof {
                    assert(out@ =~= spec_dom_plan(*self));
                }
                Some(out)
            },
        }
    }
}

} // verus!
