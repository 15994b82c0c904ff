use htmlify::Attribute;
use htmlify::DomStep;
use htmlify::Node;
use htmlify::Props;

#[test]
fn props_flatten_tag_attributes_and_prerendered_html() {
    let n = Node::element(
        "div",
        vec![Attribute::new("class", "box")],
        vec![Node::raw_text("hi"), Node::element("b", Vec::new(), Vec::new())],
    );
    let p = n.as_props();
    assert_eq!(p.tag, "div");
    assert_eq!(p.attributes, vec![Attribute::new("class", "box")]);
    assert_eq!(p.html, "hi<b >  </b>");
}

#[test]
fn props_equality_is_structural() {
    let make = || Props {
        tag: "div".to_string(),
        attributes: vec![Attribute::new("class", "box")],
        html: "hi".to_string(),
    };
    let p = make();
    let q = make();
    assert_eq!(p, q);
    let mut r = make();
    r.html = "ho".to_string();
    assert!(p != r);
    let mut s = make();
    s.attributes = vec![Attribute::new("class", "pane")];
    assert!(p != s);
}

#[test]
fn raw_text_has_no_element_plan() {
    let n = Node::raw_text("hi");
    assert!(n.as_element_plan().is_none());
}

#[test]
fn plan_execution_never_underflows_and_yields_one_element() {
    let n = Node::element(
        "ul",
        vec![Attribute::new("class", "list")],
        vec![
            Node::element("li", Vec::new(), vec![Node::raw_text("a")]),
            Node::element("li", Vec::new(), vec![Node::raw_text("b")]),
            Node::raw_text("tail"),
        ],
    );
    let steps = n.as_element_plan().expect("an element has a plan");
    let mut depth: i64 = 0;
    for step in &steps {
        match step {
            DomStep::CreateElement { .. } => depth += 1,
            DomStep::SetAttribute { .. } | DomStep::AppendText { .. } => {
                assert!(depth >= 1, "step addressed a missing open element")
            }
            DomStep::AppendChildToParent => {
                assert!(depth >= 2, "attach needs a child and its parent");
                depth -= 1;
            }
        }
    }
    assert_eq!(depth, 1, "a plan leaves exactly the materialized element");
}

#[test]
fn element_plan_creates_sets_attributes_then_handles_children_in_order() {
    let n = Node::element(
        "div",
        vec![Attribute::new("class", "box"), Attribute::new("id", "d")],
        vec![
            Node::raw_text("hi"),
            Node::element("span", vec![Attribute::new("id", "s")], Vec::new()),
        ],
    );
    let steps = n.as_element_plan().expect("an element has a plan");
    let shape: Vec<String> = steps
        .iter()
        .map(|s| match s {
            DomStep::CreateElement { tag } => format!("create {tag}"),
            DomStep::SetAttribute { name, value } => format!("set {name}={value}"),
            DomStep::AppendText { text } => format!("text {text}"),
            DomStep::AppendChildToParent => "attach".to_string(),
        })
        .collect();
    assert_eq!(
        shape,
        vec![
            "create div",
            "set class=box",
            "set id=d",
            "text hi",
            "create span",
            "set id=s",
            "attach",
        ]
    );
}
