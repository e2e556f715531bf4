//! The nodes of a page and how they hang together.

use vstd::prelude::*;

use crate::element::{Element, ElementView};
use crate::text::opt_text;

verus! {

/// A node, as hubbub holds it: a number that means nothing to it, or zero
/// for no node.
pub type NodeDataPtr = usize;

/// A node.
#[derive(Clone, Copy, Debug, PartialEq, Eq, Structural)]
pub struct AbstractNode {
    pub obj: usize,
}

impl AbstractNode {
    /// The node as hubbub holds it.
    pub open spec fn ptr(self) -> NodeDataPtr {
        self.obj
    }

    /// The node that hubbub holds.
    pub open spec fn of_ptr(n: NodeDataPtr) -> AbstractNode {
        AbstractNode { obj: n }
    }

    /// The node as hubbub holds it.
    pub fn to_hubbub_node(self) -> (r: NodeDataPtr)
        ensures
            r == self.ptr(),
            r == self.obj,
    {
        self.obj
    }

    /// The node that hubbub holds.
    pub fn from_hubbub_node(n: NodeDataPtr) -> (r: AbstractNode)
        ensures
            r == AbstractNode::of_ptr(n),
            r.obj == n,
    {
        AbstractNode { obj: n }
    }
}

/// A document type declaration.
pub struct Doctype {
    pub name: String,
    pub public_id: Option<String>,
    pub system_id: Option<String>,
    pub force_quirks: bool,
}

/// The mathematical value of a [`Doctype`].
pub struct DoctypeView {
    pub name: Seq<char>,
    pub public_id: Option<Seq<char>>,
    pub system_id: Option<Seq<char>>,
    pub force_quirks: bool,
}

impl View for Doctype {
    type V = DoctypeView;

    open spec fn view(&self) -> DoctypeView {
        DoctypeView {
            name: self.name@,
            public_id: opt_text(self.public_id),
            system_id: opt_text(self.system_id),
            force_quirks: self.force_quirks,
        }
    }
}

/// What a node is.
pub enum NodeData {
    Doctype(Doctype),
    Comment(String),
    Text(String),
    Element(Element),
}

/// The mathematical value of a [`NodeData`].
pub enum NodeDataView {
    Doctype(DoctypeView),
    Comment(Seq<char>),
    Text(Seq<char>),
    Element(ElementView),
}

impl View for NodeData {
    type V = NodeDataView;

    open spec fn view(&self) -> NodeDataView {
        match *self {
            NodeData::Doctype(doctype) => NodeDataView::Doctype(doctype@),
            NodeData::Comment(text) => NodeDataView::Comment(text@),
            NodeData::Text(text) => NodeDataView::Text(text@),
            NodeData::Element(element) => NodeDataView::Element(element@),
        }
    }
}

/// A node with its place among the others.
pub struct Node {
    pub parent: Option<AbstractNode>,
    pub children: Vec<AbstractNode>,
    pub data: NodeData,
}

/// The mathematical value of a [`Node`].
pub struct NodeView {
    pub parent: Option<AbstractNode>,
    pub children: Seq<AbstractNode>,
    pub data: NodeDataView,
}

impl View for Node {
    type V = NodeView;

    open spec fn view(&self) -> NodeView {
        NodeView { parent: self.parent, children: self.children@, data: self.data@ }
    }
}

/// The nodes of a page.
pub struct Dom {
    pub nodes: Vec<Node>,
}

/// The mathematical value of a [`Dom`].
pub struct DomView {
    pub nodes: Seq<NodeView>,
}

impl View for Dom {
    type V = DomView;

    open spec fn view(&self) -> DomView {
        DomView { nodes: self.nodes@.map_values(|n: Node| n@) }
    }
}

impl DomView {
    /// No nodes.
    pub open spec fn empty() -> Self {
        DomView { nodes: Seq::empty() }
    }

    /// Whether this is a node of the page.
    pub open spec fn has(self, n: AbstractNode) -> bool {
        1 <= n.obj <= self.nodes.len()
    }

    /// A node of the page.
    pub open spec fn node(self, n: AbstractNode) -> NodeView
        recommends
            self.has(n),
    {
        self.nodes[n.obj - 1]
    }

    /// Parents and children agree: the children of a node are nodes of the page
    /// whose parent it is, none occurs twice, and a node that has a parent is
    /// among the children of it.
    pub open spec fn wf(self) -> bool {
        &&& forall|n: AbstractNode, i: int|
            #![trigger self.node(n).children[i]]
            self.has(n) && 0 <= i < self.node(n).children.len() ==> self.has(
                self.node(n).children[i],
            ) && self.node(self.node(n).children[i]).parent == Some(n)
        &&& forall|n: AbstractNode|
            #![trigger self.node(n)]
            self.has(n) ==> self.node(n).children.no_duplicates()
        &&& forall|n: AbstractNode|
            #![trigger self.node(n)]
            self.has(n) && self.node(n).parent is Some ==> self.has(self.node(n).parent->0)
                && self.node(self.node(n).parent->0).children.contains(n)
    }

    /// The node that is made next.
    pub open spec fn fresh(self) -> AbstractNode {
        AbstractNode { obj: (self.nodes.len() + 1) as usize }
    }

    /// The nodes, and one more that stands by itself.
    pub open spec fn with_node(self, data: NodeDataView) -> Self {
        DomView {
            nodes: self.nodes.push(NodeView { parent: None, children: Seq::empty(), data }),
        }
    }

    /// The nodes after `child` has become the last child of `parent`.
    pub open spec fn with_child(self, parent: AbstractNode, child: AbstractNode) -> Self {
        let adopted = self.nodes.update(
            child.obj - 1,
            NodeView { parent: Some(parent), ..self.node(child) },
        );
        let old_parent = adopted[parent.obj - 1];
        DomView {
            nodes: adopted.update(
                parent.obj - 1,
                NodeView { children: old_parent.children.push(child), ..old_parent },
            ),
        }
    }

    /// Whether `child` can become a child of `parent`: it has no parent yet.
    pub open spec fn can_append(self, parent: AbstractNode, child: AbstractNode) -> bool {
        self.has(parent) && self.has(child) && self.node(child).parent is None
    }

    /// Whether this is an element of the page.
    pub open spec fn is_element(self, n: AbstractNode) -> bool {
        self.has(n) && self.node(n).data is Element
    }

    /// Whether this is a node of the page and all its children are text.
    pub open spec fn has_only_text(self, n: AbstractNode) -> bool {
        &&& self.has(n)
        &&& forall|i: int|
            #![trigger self.node(n).children[i]]
            0 <= i < self.node(n).children.len() ==> self.has(self.node(n).children[i])
                && self.node(self.node(n).children[i]).data is Text
    }

    /// The text of some text nodes, one after the other.
    pub open spec fn joined_text(self, list: Seq<AbstractNode>) -> Seq<char>
        decreases list.len(),
    {
        if list.len() == 0 {
            Seq::empty()
        } else {
            self.joined_text(list.drop_last()) + self.node(list.last()).data->Text_0
        }
    }

    /// The text inside a node whose children are all text.
    pub open spec fn inner_text(self, n: AbstractNode) -> Seq<char> {
        self.joined_text(self.node(n).children)
    }
}

impl Dom {
    /// Whether the children of a node are all text shows in the nodes themselves.
    proof fn lemma_only_text(&self, n: AbstractNode)
        ensures
            self@.has_only_text(n) <==> {
                &&& 1 <= n.obj <= self.nodes@.len()
                &&& forall|i: int|
                    #![trigger self.nodes@[n.obj - 1].children@[i]]
                    0 <= i < self.nodes@[n.obj - 1].children@.len() ==> {
                        let child = self.nodes@[n.obj - 1].children@[i];
                        1 <= child.obj <= self.nodes@.len() && self.nodes@[child.obj
                            - 1].data is Text
                    }
            },
    {
        if 1 <= n.obj <= self.nodes@.len() {
            let kids = self.nodes@[n.obj - 1].children@;
            assert(self@.node(n).children == kids);
            if self@.has_only_text(n) {
                assert forall|i: int|
                    #![trigger self.nodes@[n.obj - 1].children@[i]]
                    0 <= i < kids.len() implies {
                    let child = self.nodes@[n.obj - 1].children@[i];
                    1 <= child.obj <= self.nodes@.len() && self.nodes@[child.obj - 1].data is Text
                } by {
                    let child = self@.node(n).children[i];
                    assert(self@.has(child) && self@.node(child).data is Text);
                    assert(self@.node(child) == self.nodes@[child.obj - 1]@);
                }
            }
            if forall|i: int|
                #![trigger self.nodes@[n.obj - 1].children@[i]]
                0 <= i < kids.len() ==> {
                    let child = self.nodes@[n.obj - 1].children@[i];
                    1 <= child.obj <= self.nodes@.len() && self.nodes@[child.obj - 1].data is Text
                } {
                assert forall|i: int|
                    #![trigger self@.node(n).children[i]]
                    0 <= i < self@.node(n).children.len() implies self@.has(
                    self@.node(n).children[i],
                ) && self@.node(self@.node(n).children[i]).data is Text by {
                    let child = self.nodes@[n.obj - 1].children@[i];
                    assert(1 <= child.obj <= self.nodes@.len());
                    assert(self@.node(child) == self.nodes@[child.obj - 1]@);
                }
            }
        }
    }

    /// No nodes.
    pub fn new() -> (r: Self)
        ensures
            r@ == DomView::empty(),
            r@.wf(),
            r.nodes@.len() == 0,
    {
        let r = Dom { nodes: Vec::new() };
        assert(r@.nodes =~= Seq::empty());
        r
    }

    /// Makes a node that stands by itself.
    pub fn add_node(&mut self, data: NodeData) -> (r: AbstractNode)
        requires
            old(self)@.nodes.len() < usize::MAX,
        ensures
            final(self)@ == old(self)@.with_node(data@),
            r == old(self)@.fresh(),
            old(self)@.wf() ==> final(self)@.wf(),
            r.obj == old(self).nodes@.len() + 1,
            final(self).nodes@.len() == old(self).nodes@.len() + 1,
            final(self).nodes@.drop_last() == old(self).nodes@,
            final(self).nodes@.last().parent is None,
            final(self).nodes@.last().children@.len() == 0,
            final(self).nodes@.last().data == data,
    {
        proof {
            if self@.wf() {
                law_new_node(self@, data@, self@.fresh());
            }
        }
        self.nodes.push(Node { parent: None, children: Vec::new(), data });
        assert(self.nodes@[self.nodes@.len() - 1]@.children =~= Seq::empty());
        assert(self@.nodes =~= old(self)@.with_node(data@).nodes);
        AbstractNode { obj: self.nodes.len() }
    }

    /// Makes `child` the last child of `parent`.
    pub fn add_child(&mut self, parent: AbstractNode, child: AbstractNode)
        requires
            old(self)@.can_append(parent, child),
        ensures
            final(self)@ == old(self)@.with_child(parent, child),
            old(self)@.wf() ==> final(self)@.wf(),
            final(self).nodes@.len() == old(self).nodes@.len(),
            forall|i: int|
                #![trigger final(self).nodes@[i]]
                0 <= i < old(self).nodes@.len() ==> {
                    &&& final(self).nodes@[i].data == old(self).nodes@[i].data
                    &&& final(self).nodes@[i].parent == if i == child.obj - 1 {
                        Some(parent)
                    } else {
                        old(self).nodes@[i].parent
                    }
                    &&& final(self).nodes@[i].children@ == if i == parent.obj - 1 {
                        old(self).nodes@[i].children@.push(child)
                    } else {
                        old(self).nodes@[i].children@
                    }
                },
    {
        proof {
            if self@.wf() {
                law_append_child(self@, parent, child, child);
            }
        }
        self.nodes[child.obj - 1].parent = Some(parent);
        self.nodes[parent.obj - 1].children.push(child);
        assert(self@.nodes =~= old(self)@.with_child(parent, child).nodes);
    }

    /// Whether `child` can become a child of `parent`.
    pub fn can_append(&self, parent: AbstractNode, child: AbstractNode) -> (r: bool)
        ensures
            r == self@.can_append(parent, child),
            r <==> {
                &&& 1 <= parent.obj <= self.nodes@.len()
                &&& 1 <= child.obj <= self.nodes@.len()
                &&& self.nodes@[child.obj - 1].parent is None
            },
    {
        1 <= parent.obj && parent.obj <= self.nodes.len() && 1 <= child.obj && child.obj
            <= self.nodes.len() && self.nodes[child.obj - 1].parent.is_none()
    }

    /// The element that a node is, or nothing.
    pub fn element(&self, n: AbstractNode) -> (r: Option<&Element>)
        ensures
            match r {
                Some(e) => self@.is_element(n) && self@.node(n).data == NodeDataView::Element(e@),
                None => !self@.is_element(n),
            },
            match r {
                Some(e) => {
                    &&& 1 <= n.obj <= self.nodes@.len()
                    &&& self.nodes@[n.obj - 1].data == NodeData::Element(*e)
                },
                None => 1 <= n.obj <= self.nodes@.len() ==> self.nodes@[n.obj
                    - 1].data !is Element,
            },
    {
        if 1 <= n.obj && n.obj <= self.nodes.len() {
            match &self.nodes[n.obj - 1].data {
                NodeData::Element(e) => Some(e),
                _ => None,
            }
        } else {
            None
        }
    }

    /// Whether this is a node of the page and all its children are text.
    pub fn has_only_text(&self, n: AbstractNode) -> (r: bool)
        ensures
            r == self@.has_only_text(n),
            r <==> {
                &&& 1 <= n.obj <= self.nodes@.len()
                &&& forall|i: int|
                    #![trigger self.nodes@[n.obj - 1].children@[i]]
                    0 <= i < self.nodes@[n.obj - 1].children@.len() ==> {
                        let child = self.nodes@[n.obj - 1].children@[i];
                        1 <= child.obj <= self.nodes@.len() && self.nodes@[child.obj
                            - 1].data is Text
                    }
            },
    {
        proof {
            self.lemma_only_text(n);
        }
        if n.obj < 1 || n.obj > self.nodes.len() {
            return false;
        }
        let node = &self.nodes[n.obj - 1];
        let mut i: usize = 0;
        while i < node.children.len()
            invariant
                self@.has(n),
                node@ == self@.node(n),
                0 <= i <= node.children.len(),
                forall|j: int|
                    #![trigger self@.node(n).children[j]]
                    0 <= j < i ==> self@.has(self@.node(n).children[j]) && self@.node(
                        self@.node(n).children[j],
                    ).data is Text,
            decreases node.children.len() - i,
        {
            let child = node.children[i];
            assert(self@.node(n).children[i as int] == child);
            if child.obj < 1 || child.obj > self.nodes.len() {
                return false;
            }
            match &self.nodes[child.obj - 1].data {
                NodeData::Text(_) => {},
                _ => {
                    return false;
                },
            }
            i = i + 1;
        }
        true
    }

    /// The text inside a node whose children are all text.
    pub fn inner_text(&self, n: AbstractNode) -> (r: String)
        requires
            self@.has_only_text(n),
        ensures
            r@ == self@.inner_text(n),
            r@ == self.nodes@[n.obj - 1].children@.map_values(
                |c: AbstractNode| self.nodes@[c.obj - 1].data->Text_0@,
            ).flatten(),
    {
        proof {
            law_inner_text(self@, n);
            self.lemma_only_text(n);
            assert(self@.nodes[n.obj - 1].children.map_values(
                |c: AbstractNode| self@.nodes[c.obj - 1].data->Text_0,
            ) =~= self.nodes@[n.obj - 1].children@.map_values(
                |c: AbstractNode| self.nodes@[c.obj - 1].data->Text_0@,
            )) by {
                assert forall|i: int| 0 <= i < self.nodes@[n.obj - 1].children@.len() implies ({
                    let c = #[trigger] self.nodes@[n.obj - 1].children@[i];
                    self@.nodes[c.obj - 1].data->Text_0 == self.nodes@[c.obj - 1].data->Text_0@
                }) by {
                    let c = self.nodes@[n.obj - 1].children@[i];
                    assert(1 <= c.obj <= self.nodes@.len());
                    assert(self@.nodes[c.obj - 1] == self.nodes@[c.obj - 1]@);
                }
            }
        }
        let node = &self.nodes[n.obj - 1];
        let mut data = String::new();
        let mut i: usize = 0;
        assert(node@.children.take(0) =~= Seq::empty());
        while i < node.children.len()
            invariant
                self@.has_only_text(n),
                node@ == self@.node(n),
                0 <= i <= node.children.len(),
                data@ == self@.joined_text(node@.children.take(i as int)),
            decreases node.children.len() - i,
        {
            let child = node.children[i];
            assert(self@.node(n).children[i as int] == child);
            assert(node@.children.take(i + 1).drop_last() =~= node@.children.take(i as int));
            match &self.nodes[child.obj - 1].data {
                NodeData::Text(text) => {
                    data.append(text.as_str());
                },
                _ => {},
            }
            i = i + 1;
        }
        assert(node@.children.take(i as int) =~= node@.children);
        data
    }
}

/// A node comes back from hubbub as the node that was handed to it, two
/// nodes never look the same to it, and no node of a page looks like no node.
pub proof fn law_handles(dom: DomView, n: AbstractNode, ptr: NodeDataPtr)
    ensures
        AbstractNode::of_ptr(n.ptr()) == n,
        AbstractNode::of_ptr(ptr).ptr() == ptr,
        dom.has(n) ==> n.ptr() != 0,
{
}

/// Making a node leaves all others as they are, and the node is none of those
/// that the page had.
pub proof fn law_new_node(dom: DomView, data: NodeDataView, n: AbstractNode)
    requires
        dom.wf(),
        dom.nodes.len() < usize::MAX,
    ensures
        dom.with_node(data).wf(),
        !dom.has(dom.fresh()),
        dom.with_node(data).has(dom.fresh()),
        dom.with_node(data).node(dom.fresh()).data == data,
        dom.with_node(data).node(dom.fresh()).parent is None,
        dom.with_node(data).node(dom.fresh()).children.len() == 0,
        dom.with_node(data).nodes.len() == dom.nodes.len() + 1,
        dom.has(n) ==> dom.with_node(data).has(n) && dom.with_node(data).node(n) == dom.node(n),
{
    let post = dom.with_node(data);
    assert forall|m: AbstractNode, i: int|
        #![trigger post.node(m).children[i]]
        post.has(m) && 0 <= i < post.node(m).children.len() implies post.has(
        post.node(m).children[i],
    ) && post.node(post.node(m).children[i]).parent == Some(m) by {
        assert(dom.has(m));
        assert(post.node(m) == dom.node(m));
        let c = dom.node(m).children[i];
        assert(post.node(c) == dom.node(c));
    }
    assert forall|m: AbstractNode|
        #![trigger post.node(m)]
        post.has(m) && post.node(m).parent is Some implies post.has(post.node(m).parent->0)
        && post.node(post.node(m).parent->0).children.contains(m) by {
        assert(dom.has(m));
        assert(post.node(m) == dom.node(m));
        let p = dom.node(m).parent->0;
        assert(post.node(p) == dom.node(p));
    }
    assert forall|m: AbstractNode| #![trigger post.node(m)] post.has(m) implies post.node(
        m,
    ).children.no_duplicates() by {
        if dom.has(m) {
            assert(post.node(m) == dom.node(m));
        }
    }
}

/// Appending a child makes it the last child of its parent and leaves all else
/// as it is; parents and children go on to agree.
pub proof fn law_append_child(
    dom: DomView,
    parent: AbstractNode,
    child: AbstractNode,
    n: AbstractNode,
)
    requires
        dom.wf(),
        dom.can_append(parent, child),
    ensures
        dom.with_child(parent, child).wf(),
        dom.with_child(parent, child).nodes.len() == dom.nodes.len(),
        dom.with_child(parent, child).node(child).parent == Some(parent),
        dom.with_child(parent, child).node(parent).children == dom.node(parent).children.push(
            child,
        ),
        dom.has(n) ==> dom.with_child(parent, child).node(n).data == dom.node(n).data,
        dom.has(n) && n != child ==> dom.with_child(parent, child).node(n).parent == dom.node(
            n,
        ).parent,
        dom.has(n) && n != parent ==> dom.with_child(parent, child).node(n).children == dom.node(
            n,
        ).children,
{
    let post = dom.with_child(parent, child);
    let siblings = dom.node(parent).children;
    assert(post.node(parent).children == siblings.push(child));
    assert(!siblings.contains(child)) by {
        if siblings.contains(child) {
            let i = choose|i: int| 0 <= i < siblings.len() && siblings[i] == child;
            assert(dom.node(parent).children[i] == child);
        }
    }
    assert forall|m: AbstractNode, i: int|
        #![trigger post.node(m).children[i]]
        post.has(m) && 0 <= i < post.node(m).children.len() implies post.has(
        post.node(m).children[i],
    ) && post.node(post.node(m).children[i]).parent == Some(m) by {
        assert(dom.has(m));
        if m == parent && i == siblings.len() {
        } else {
            assert(post.node(m).children[i] == dom.node(m).children[i]);
            let c = dom.node(m).children[i];
            assert(dom.node(c).parent == Some(m));
        }
    }
    assert forall|m: AbstractNode|
        #![trigger post.node(m)]
        post.has(m) && post.node(m).parent is Some implies post.has(post.node(m).parent->0)
        && post.node(post.node(m).parent->0).children.contains(m) by {
        assert(dom.has(m));
        if m == child {
            assert(post.node(parent).children[siblings.len() as int] == child);
        } else {
            assert(post.node(m).parent == dom.node(m).parent);
            let p = dom.node(m).parent->0;
            assert(dom.node(p).children.contains(m));
            let i = choose|i: int|
                0 <= i < dom.node(p).children.len() && dom.node(p).children[i] == m;
            assert(post.node(p).children[i] == m);
        }
    }
    assert forall|m: AbstractNode| #![trigger post.node(m)] post.has(m) implies post.node(
        m,
    ).children.no_duplicates() by {
        assert(dom.node(m).children.no_duplicates());
        if m == parent {
            assert forall|i: int, j: int|
                0 <= i < siblings.len() && j == siblings.len() implies siblings.push(child)[i]
                != siblings.push(child)[j] by {
                assert(siblings.contains(siblings[i]));
            }
        }
    }
}

/// The joined text of some nodes depends on what they are, not on where they
/// hang.
proof fn lemma_joined_text(dom: DomView, post: DomView, list: Seq<AbstractNode>)
    requires
        forall|i: int|
            #![trigger list[i]]
            0 <= i < list.len() ==> post.node(list[i]).data == dom.node(list[i]).data,
    ensures
        post.joined_text(list) == dom.joined_text(list),
    decreases list.len(),
{
    if list.len() != 0 {
        let rest = list.drop_last();
        assert forall|i: int| #![trigger rest[i]] 0 <= i < rest.len() implies post.node(
            rest[i],
        ).data == dom.node(rest[i]).data by {
            assert(rest[i] == list[i]);
        }
        lemma_joined_text(dom, post, rest);
        assert(list[list.len() - 1] == list.last());
    }
}

/// A text that is appended to a script or a style sheet comes after all text
/// that is in it already.
pub proof fn law_text_comes_last(dom: DomView, parent: AbstractNode, child: AbstractNode)
    requires
        dom.wf(),
        dom.has_only_text(parent),
        dom.can_append(parent, child),
        dom.node(child).data is Text,
    ensures
        dom.with_child(parent, child).has_only_text(parent),
        dom.with_child(parent, child).inner_text(parent) == dom.inner_text(parent) + dom.node(
            child,
        ).data->Text_0,
{
    let post = dom.with_child(parent, child);
    let list = dom.node(parent).children;
    law_append_child(dom, parent, child, child);
    assert(post.node(parent).children == list.push(child));
    assert forall|i: int| #![trigger list[i]] 0 <= i < list.len() implies post.has(list[i])
        && post.node(list[i]).data == dom.node(list[i]).data && dom.node(list[i]).data is Text by {
        assert(dom.node(parent).children[i] == list[i]);
        law_append_child(dom, parent, child, list[i]);
    }
    assert forall|i: int|
        #![trigger post.node(parent).children[i]]
        0 <= i < post.node(parent).children.len() implies post.has(post.node(parent).children[i])
        && post.node(post.node(parent).children[i]).data is Text by {
        if i < list.len() {
            assert(post.node(parent).children[i] == list[i]);
        }
    }
    lemma_joined_text(dom, post, list);
    assert(list.push(child).drop_last() =~= list);
}

/// A node is one of the page exactly where its number counts one of the nodes,
/// from one on; it can become a child exactly where both are nodes of the page
/// and it has no parent; and it holds nothing but text exactly where each of its
/// children is a text of the page.
pub proof fn law_what_nodes_are(dom: DomView, n: AbstractNode, child: AbstractNode)
    ensures
        dom.has(n) <==> 1 <= n.obj <= dom.nodes.len(),
        dom.has(n) ==> dom.node(n) == dom.nodes[n.obj - 1],
        dom.is_element(n) <==> 1 <= n.obj <= dom.nodes.len() && dom.nodes[n.obj
            - 1].data is Element,
        dom.can_append(n, child) <==> {
            &&& 1 <= n.obj <= dom.nodes.len()
            &&& 1 <= child.obj <= dom.nodes.len()
            &&& dom.nodes[child.obj - 1].parent is None
        },
        dom.has_only_text(n) <==> {
            &&& 1 <= n.obj <= dom.nodes.len()
            &&& forall|c: AbstractNode| #[trigger]
                dom.nodes[n.obj - 1].children.contains(c) ==> 1 <= c.obj <= dom.nodes.len()
                    && dom.nodes[c.obj - 1].data is Text
        },
{
    if 1 <= n.obj <= dom.nodes.len() {
        let kids = dom.nodes[n.obj - 1].children;
        assert(dom.node(n).children == kids);
        if dom.has_only_text(n) {
            assert forall|c: AbstractNode| #[trigger] kids.contains(c) implies 1 <= c.obj
                <= dom.nodes.len() && dom.nodes[c.obj - 1].data is Text by {
                let i = choose|i: int| 0 <= i < kids.len() && kids[i] == c;
                assert(dom.node(n).children[i] == c);
            }
        }
        if forall|c: AbstractNode| #[trigger]
            kids.contains(c) ==> 1 <= c.obj <= dom.nodes.len() && dom.nodes[c.obj
                - 1].data is Text {
            assert forall|i: int|
                #![trigger dom.node(n).children[i]]
                0 <= i < dom.node(n).children.len() implies dom.has(dom.node(n).children[i])
                && dom.node(dom.node(n).children[i]).data is Text by {
                assert(kids.contains(kids[i]));
            }
        }
    }
}

/// The joined text of some nodes is the text of each of them, one after the
/// other.
proof fn lemma_joined_is_flat(dom: DomView, list: Seq<AbstractNode>)
    ensures
        dom.joined_text(list) == list.map_values(
            |c: AbstractNode| dom.node(c).data->Text_0,
        ).flatten(),
    decreases list.len(),
{
    let texts = list.map_values(|c: AbstractNode| dom.node(c).data->Text_0);
    texts.lemma_flatten_and_flatten_alt_are_equivalent();
    if list.len() != 0 {
        let rest = list.drop_last();
        let rest_texts = rest.map_values(|c: AbstractNode| dom.node(c).data->Text_0);
        lemma_joined_is_flat(dom, rest);
        rest_texts.lemma_flatten_and_flatten_alt_are_equivalent();
        assert(texts.drop_last() =~= rest_texts);
    }
}

/// The text inside a node is the text of its children, one after the other, and
/// nothing else: it is empty where there are no children, and whatever else the
/// node is or holds makes no difference to it.
pub proof fn law_inner_text(dom: DomView, n: AbstractNode)
    ensures
        dom.inner_text(n) == dom.nodes[n.obj - 1].children.map_values(
            |c: AbstractNode| dom.nodes[c.obj - 1].data->Text_0,
        ).flatten(),
        dom.nodes[n.obj - 1].children.len() == 0 ==> dom.inner_text(n).len() == 0,
{
    lemma_joined_is_flat(dom, dom.node(n).children);
    assert(dom.nodes[n.obj - 1].children.map_values(
        |c: AbstractNode| dom.nodes[c.obj - 1].data->Text_0,
    ) =~= dom.node(n).children.map_values(|c: AbstractNode| dom.node(c).data->Text_0));
}

/// Two nodes, of one page or of two, whose children have the same texts have the
/// same text inside.
pub proof fn law_same_children_same_text(
    dom: DomView,
    n: AbstractNode,
    other: DomView,
    m: AbstractNode,
)
    requires
        dom.nodes[n.obj - 1].children.len() == other.nodes[m.obj - 1].children.len(),
        forall|i: int|
            0 <= i < dom.nodes[n.obj - 1].children.len() ==> dom.nodes[(
            #[trigger] dom.nodes[n.obj - 1].children[i]).obj - 1].data->Text_0
                == other.nodes[other.nodes[m.obj - 1].children[i].obj - 1].data->Text_0,
    ensures
        dom.inner_text(n) == other.inner_text(m),
{
    law_inner_text(dom, n);
    law_inner_text(other, m);
    assert(dom.nodes[n.obj - 1].children.map_values(
        |c: AbstractNode| dom.nodes[c.obj - 1].data->Text_0,
    ) =~= other.nodes[m.obj - 1].children.map_values(
        |c: AbstractNode| other.nodes[c.obj - 1].data->Text_0,
    ));
}

/// The value of the nodes of a page shows all that the nodes hold.
pub proof fn law_dom_view(dom: Dom, i: int)
    ensures
        dom@.nodes.len() == dom.nodes@.len(),
        0 <= i < dom.nodes@.len() ==> {
            &&& dom@.nodes[i].parent == dom.nodes@[i].parent
            &&& dom@.nodes[i].children == dom.nodes@[i].children@
            &&& match dom.nodes@[i].data {
                NodeData::Doctype(doctype) => dom@.nodes[i].data == NodeDataView::Doctype(
                    DoctypeView {
                        name: doctype.name@,
                        public_id: match doctype.public_id {
                            Some(id) => Some(id@),
                            None => None,
                        },
                        system_id: match doctype.system_id {
                            Some(id) => Some(id@),
                            None => None,
                        },
                        force_quirks: doctype.force_quirks,
                    },
                ),
                NodeData::Comment(text) => dom@.nodes[i].data == NodeDataView::Comment(text@),
                NodeData::Text(text) => dom@.nodes[i].data == NodeDataView::Text(text@),
                NodeData::Element(e) => dom@.nodes[i].data == NodeDataView::Element(e@),
            }
        },
{
}

} // verus!
