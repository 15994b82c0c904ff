//! Declarative HTML generation from in-memory structures.
//!
//! A [`Node`](markup::Node) describes either an element, with a tag,
//! ordered attributes and ordered children, or a run of raw text that is
//! emitted verbatim. [`Node::as_raw_html`](markup::Node::as_raw_html)
//! renders a whole tree to a string; [`attribute::Attribute`] is the
//! name/value pair rendered into an opening tag.

pub mod attribute;
pub mod dom;
pub mod laws;
pub mod markup;
pub mod props;

pub use attribute::Attribute;
pub use dom::DomStep;
pub use markup::Node;
pub use props::Props;
