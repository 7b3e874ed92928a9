//! The tree shape shared by every stage of the pipeline.
//!
//! The parser produces a single root [`Element`] named `"Program"` whose
//! children are the top-level target declarations found in the source text;
//! every target compiler receives that same root.  The tree is built once
//! per compilation and only read afterwards.

use vstd::prelude::*;

verus! {

/// A named node: an identifier, an ordered list of annotations, and an
/// ordered list of child nodes.
///
/// At the root level the parser encodes a declaration's identity as the
/// colon-joined composite `"<target-type>:<app-name>"`.
pub struct Element {
    pub name: String,
    pub annotations: Vec<Annotation>,
    pub children: Vec<Node>,
}

/// A bare name tag attachable to an [`Element`].  The current parser never
/// produces one, but annotations are part of the stable tree shape that
/// compilers consume.
pub struct Annotation {
    pub name: String,
}

/// The closed set of tree shapes.  Only [`Node::Element`] is populated by
/// the current parser; the two leaf shapes exist for trees the parser does
/// not yet produce.
pub enum Node {
    Element(Element),
    ChildLine { modifier: Option<String>, id: String },
    KeyValue { key: String, value: String },
}

/// Mathematical image of an [`Element`]: every string replaced by its
/// character sequence.
#[verifier::ext_equal]
pub ghost struct ElemView {
    pub name: Seq<char>,
    pub annotations: Seq<Seq<char>>,
    pub children: Seq<NodeView>,
}

/// Mathematical image of a [`Node`].
#[verifier::ext_equal]
pub ghost enum NodeView {
    Element(ElemView),
    ChildLine { modifier: Option<Seq<char>>, id: Seq<char> },
    KeyValue { key: Seq<char>, value: Seq<char> },
}

pub open spec fn elem_view(e: Element) -> ElemView
    decreases e,
    via elem_view_decreases
{
    ElemView {
        name: e.name@,
        annotations: Seq::new(e.annotations@.len(), |i: int| e.annotations@[i].name@),
        children: Seq::new(
            e.children@.len(),
            |i: int|
                if 0 <= i < e.children@.len() {
                    node_view(e.children@[i])
                } else {
                    NodeView::KeyValue { key: Seq::empty(), value: Seq::empty() }
                },
        ),
    }
}

#[via_fn]
proof fn elem_view_decreases(e: Element) {
    broadcast use vstd::std_specs::vec::group_vec_axioms;

    assert forall|i: int| 0 <= i < e.children@.len() implies (decreases_to!(e =>
    e.children@[i])) by {
        assert(decreases_to!(e => e.children));
        assert(decreases_to!(e.children => e.children@));
        assert(decreases_to!(e.children@ => e.children@[i]));
    }
}

pub open spec fn node_view(n: Node) -> NodeView
    decreases n,
{
    match n {
        Node::Element(e) => NodeView::Element(elem_view(e)),
        Node::ChildLine { modifier, id } => NodeView::ChildLine {
            modifier: match modifier {
                Some(m) => Some(m@),
                None => None,
            },
            id: id@,
        },
        Node::KeyValue { key, value } => NodeView::KeyValue { key: key@, value: value@ },
    }
}

impl View for Element {
    type V = ElemView;

    open spec fn view(&self) -> ElemView {
        elem_view(*self)
    }
}

impl View for Node {
    type V = NodeView;

    open spec fn view(&self) -> NodeView {
        node_view(*self)
    }
}

impl View for Annotation {
    type V = Seq<char>;

    open spec fn view(&self) -> Seq<char> {
        self.name@
    }
}

} // verus!
