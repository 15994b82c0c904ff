use htmlify::Attribute;
use htmlify::Node;

#[test]
fn attribute_with_value_renders_name_equals_quoted_value() {
    let a = Attribute::new("class", "box");
    assert_eq!(a.to_text(), "class=\"box\"");
}

#[test]
fn attribute_with_empty_value_renders_bare_name() {
    let a = Attribute::new("disabled", "");
    assert_eq!(a.to_text(), "disabled");
}

#[test]
fn attribute_equality_is_value_based() {
    let a = Attribute::new("class", "box");
    let b = Attribute::new("class", "box");
    let c = Attribute::new("class", "pane");
    assert_eq!(a, b);
    assert!(a != c);
    let d = a.clone();
    assert_eq!(a, d);
}

#[test]
fn empty_element_keeps_the_whitespace_template() {
    let n = Node::element("div", Vec::new(), Vec::new());
    assert_eq!(n.as_raw_html(), "<div >  </div>");
}

#[test]
fn empty_tag_empty_element_serializes_template_literally() {
    let n = Node::element("", Vec::new(), Vec::new());
    assert_eq!(n.as_raw_html(), "< >  </>");
}

#[test]
fn raw_text_serializes_verbatim_without_escaping() {
    let n = Node::raw_text("a <b> & </b> c");
    assert_eq!(n.as_raw_html(), "a <b> & </b> c");
}

#[test]
fn raw_text_node_reports_sentinel_tag() {
    let n = Node::raw_text("hi");
    assert_eq!(n.tag(), "__STRING_MARKER");
    assert!(n.attributes().is_empty());
    assert!(n.inner_html().is_empty());
}

#[test]
fn element_reports_tag_attributes_and_children() {
    let attrs = vec![Attribute::new("a", "1"), Attribute::new("a", "1"), Attribute::new("b", "")];
    let n = Node::element("p", attrs, vec![Node::raw_text("x")]);
    assert_eq!(n.tag(), "p");
    let back = n.attributes();
    assert_eq!(back.len(), 3);
    assert_eq!(back[0], Attribute::new("a", "1"));
    assert_eq!(back[1], Attribute::new("a", "1"));
    assert_eq!(back[2], Attribute::new("b", ""));
    let children = n.inner_html();
    assert_eq!(children.len(), 1);
    assert_eq!(children[0].as_raw_html(), "x");
}

#[test]
fn duplicate_attributes_are_rendered_twice_in_order() {
    let attrs = vec![Attribute::new("x", "1"), Attribute::new("x", "2")];
    let n = Node::element("i", attrs, Vec::new());
    assert_eq!(n.as_raw_html(), "<i x=\"1\" x=\"2\">  </i>");
}

#[test]
fn inner_html_concatenates_children_in_order_with_no_separator() {
    let a = Node::raw_text("one");
    let b = Node::element("em", Vec::new(), vec![Node::raw_text("two")]);
    let c = Node::raw_text("three");
    let expected =
        format!("{}{}{}", a.as_raw_html(), b.as_raw_html(), c.as_raw_html());
    let n = Node::element("div", Vec::new(), vec![a, b, c]);
    assert_eq!(n.inner_html_as_string(), expected);
    assert_eq!(n.inner_html_as_string(), "one<em > two </em>three");
}

#[test]
fn end_to_end_div_with_class_and_raw_text_child() {
    let n = Node::element(
        "div",
        vec![Attribute::new("class", "box")],
        vec![Node::raw_text("hi")],
    );
    assert_eq!(n.as_raw_html(), "<div class=\"box\"> hi </div>");
}

#[test]
fn nested_elements_serialize_recursively() {
    let inner = Node::element(
        "span",
        vec![Attribute::new("id", "s")],
        vec![Node::raw_text("deep")],
    );
    let outer = Node::element("section", Vec::new(), vec![inner]);
    assert_eq!(
        outer.as_raw_html(),
        "<section > <span id=\"s\"> deep </span> </section>"
    );
}
