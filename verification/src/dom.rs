//! A node-tree model for element traversal queries.
//!
//! The renderer's style system asks simple structural questions of the
//! document tree: the nearest sibling that is an element, the last child
//! element, and per-node flag bits. The tree is held as an arena of nodes
//! in document order, with sibling and child links as indices; a wrapper
//! type borrows the arena and answers the queries.

use vstd::prelude::*;

verus! {

/// This element has descendants waiting for lazy frame construction.
pub const NODE_DESCENDANTS_NEED_FRAMES: u32 = 0x400000;

/// This element itself needs lazy frame construction.
pub const NODE_NEEDS_FRAME: u32 = 0x800000;

/// The boolean-flag bit saying a node is an element.
pub const BOOL_FLAG_IS_ELEMENT: u32 = 1;

/// The boolean-flag bit saying a node is connected to its document.
pub const BOOL_FLAG_IS_IN_DOCUMENT: u32 = 2;

/// The node type code of a document node.
pub const NODE_TYPE_DOCUMENT: u16 = 9;

/// The node type code of a text node.
pub const NODE_TYPE_TEXT: u16 = 3;

/// One node of the document tree. Links are indices into the arena; a
/// node's previous sibling always has a smaller index and its next
/// sibling a larger one, since nodes are stored in document order.
#[derive(Clone, Copy, Debug, PartialEq, Eq, Structural)]
pub struct NodeData {
    pub parent: Option<usize>,
    pub first_child: Option<usize>,
    pub last_child: Option<usize>,
    pub prev_sibling: Option<usize>,
    pub next_sibling: Option<usize>,
    /// General node flag bits.
    pub flags: u32,
    /// Boolean flag bits (element, in-document, ...).
    pub bool_flags: u32,
    /// The DOM node type code.
    pub node_type: u16,
}

/// The arena of one document's nodes, in document order.
pub struct Dom {
    pub nodes: Vec<NodeData>,
}

impl Dom {
    /// Links point inside the arena; sibling links respect document
    /// order, which makes every sibling walk terminate.
    pub open spec fn wf(self) -> bool {
        forall|i: int| 0 <= i < self.nodes@.len() ==> {
            &&& ((#[trigger] self.nodes@[i]).prev_sibling matches Some(p) ==> p < i)
            &&& (self.nodes@[i].next_sibling matches Some(n) ==> i < n
                && n < self.nodes@.len())
            &&& (self.nodes@[i].parent matches Some(p) ==> p < self.nodes@.len())
            &&& (self.nodes@[i].first_child matches Some(c) ==> c < self.nodes@.len())
            &&& (self.nodes@[i].last_child matches Some(c) ==> c < self.nodes@.len())
        }
    }

    /// Whether the node at `i` is an element.
    pub open spec fn spec_is_element(self, i: int) -> bool {
        (self.nodes@[i].bool_flags & BOOL_FLAG_IS_ELEMENT) == BOOL_FLAG_IS_ELEMENT
    }

    /// The nearest previous sibling of `i` that is an element, walking
    /// the sibling chain towards the front.
    pub open spec fn spec_prev_sibling_element(self, i: int) -> Option<int>
        decreases i,
    {
        if i < 0 {
            None::<int>
        } else {
            match self.nodes@[i].prev_sibling {
                Some(p) => if self.spec_is_element(p as int) {
                    Some(p as int)
                } else {
                    if (p as int) < i {
                        self.spec_prev_sibling_element(p as int)
                    } else {
                        None::<int>
                    }
                },
                None => None::<int>,
            }
        }
    }

    /// The nearest next sibling of `i` that is an element, walking the
    /// sibling chain towards the back.
    pub open spec fn spec_next_sibling_element(self, i: int) -> Option<int>
        decreases self.nodes@.len() - i,
    {
        if i < 0 || i >= self.nodes@.len() {
            None::<int>
        } else {
            match self.nodes@[i].next_sibling {
                Some(n) => if self.spec_is_element(n as int) {
                    Some(n as int)
                } else {
                    if i < (n as int) && (n as int) < self.nodes@.len() {
                        self.spec_next_sibling_element(n as int)
                    } else {
                        None::<int>
                    }
                },
                None => None::<int>,
            }
        }
    }
}

/// A wrapper over one node of a document tree.
#[derive(Clone, Copy)]
pub struct GeckoNode<'ln> {
    pub dom: &'ln Dom,
    pub index: usize,
}

/// A wrapper over an element node of a document tree.
#[derive(Clone, Copy)]
pub struct GeckoElement<'le> {
    pub dom: &'le Dom,
    pub index: usize,
}

/// A wrapper over the document itself.
#[derive(Clone, Copy)]
pub struct GeckoDocument<'ld> {
    pub dom: &'ld Dom,
    pub index: usize,
}

/// A wrapper over a shadow root node.
#[derive(Clone, Copy)]
pub struct GeckoShadowRoot<'lr> {
    pub dom: &'lr Dom,
    pub index: usize,
}

impl<'ln> GeckoNode<'ln> {
    pub open spec fn wf(self) -> bool {
        &&& self.dom.wf()
        &&& (self.index as int) < self.dom.nodes@.len()
    }

    pub open spec fn spec_data(self) -> NodeData {
        self.dom.nodes@[self.index as int]
    }

    pub fn new(dom: &'ln Dom, index: usize) -> (r: GeckoNode<'ln>)
        requires
            dom.wf(),
            (index as int) < dom.nodes@.len(),
        ensures
            r.wf(),
            r.dom == dom,
            r.index == index,
    {
        GeckoNode { dom, index }
    }

    /// The node's general flag bits.
    pub fn flags(&self) -> (r: u32)
        requires
            self.wf(),
        ensures
            r == self.spec_data().flags,
    {
        self.dom.nodes[self.index].flags
    }

    /// The node's boolean flag bits.
    pub fn bool_flags(&self) -> (r: u32)
        requires
            self.wf(),
        ensures
            r == self.spec_data().bool_flags,
    {
        self.dom.nodes[self.index].bool_flags
    }

    /// Whether a given boolean flag bit is set on this node.
    pub fn get_bool_flag(&self, flag: u32) -> (r: bool)
        requires
            self.wf(),
        ensures
            r == ((self.spec_data().bool_flags & flag) == flag),
    {
        (self.bool_flags() & flag) == flag
    }

    /// Whether this node is an element.
    pub fn is_element(&self) -> (r: bool)
        requires
            self.wf(),
        ensures
            r == self.dom.spec_is_element(self.index as int),
    {
        self.get_bool_flag(BOOL_FLAG_IS_ELEMENT)
    }

    /// Whether this node is a document node.
    pub fn is_document(&self) -> (r: bool)
        requires
            self.wf(),
        ensures
            r == (self.spec_data().node_type == NODE_TYPE_DOCUMENT),
    {
        self.dom.nodes[self.index].node_type == NODE_TYPE_DOCUMENT
    }

    /// Whether this node is a text node.
    pub fn is_text_node(&self) -> (r: bool)
        requires
            self.wf(),
        ensures
            r == (self.spec_data().node_type == NODE_TYPE_TEXT),
    {
        self.dom.nodes[self.index].node_type == NODE_TYPE_TEXT
    }

    /// Whether this node is connected to its document.
    pub fn is_in_document(&self) -> (r: bool)
        requires
            self.wf(),
        ensures
            r == ((self.spec_data().bool_flags & BOOL_FLAG_IS_IN_DOCUMENT)
                == BOOL_FLAG_IS_IN_DOCUMENT),
    {
        self.get_bool_flag(BOOL_FLAG_IS_IN_DOCUMENT)
    }

    /// The parent node, if any.
    pub fn parent_node(&self) -> (r: Option<GeckoNode<'ln>>)
        requires
            self.wf(),
        ensures
            match r {
                Some(p) => self.spec_data().parent == Some(p.index) && p.wf() && p.dom
                    == self.dom,
                None => self.spec_data().parent is None,
            },
    {
        match self.dom.nodes[self.index].parent {
            Some(p) => Some(GeckoNode { dom: self.dom, index: p }),
            None => None,
        }
    }

    /// The previous sibling, if any.
    pub fn prev_sibling(&self) -> (r: Option<GeckoNode<'ln>>)
        requires
            self.wf(),
        ensures
            match r {
                Some(p) => self.spec_data().prev_sibling == Some(p.index) && p.wf() && p.dom
                    == self.dom && (p.index as int) < self.index,
                None => self.spec_data().prev_sibling is None,
            },
    {
        match self.dom.nodes[self.index].prev_sibling {
            Some(p) => {
                proof {
                    assert(self.dom.nodes@[self.index as int].prev_sibling == Some(p));
                }
                Some(GeckoNode { dom: self.dom, index: p })
            }
            None => None,
        }
    }

    /// The next sibling, if any.
    pub fn next_sibling(&self) -> (r: Option<GeckoNode<'ln>>)
        requires
            self.wf(),
        ensures
            match r {
                Some(n) => self.spec_data().next_sibling == Some(n.index) && n.wf() && n.dom
                    == self.dom && self.index < (n.index as int),
                None => self.spec_data().next_sibling is None,
            },
    {
        match self.dom.nodes[self.index].next_sibling {
            Some(n) => {
                proof {
                    assert(self.dom.nodes@[self.index as int].next_sibling == Some(n));
                }
                Some(GeckoNode { dom: self.dom, index: n })
            }
            None => None,
        }
    }

    /// The first child, if any.
    pub fn first_child(&self) -> (r: Option<GeckoNode<'ln>>)
        requires
            self.wf(),
        ensures
            match r {
                Some(c) => self.spec_data().first_child == Some(c.index) && c.wf() && c.dom
                    == self.dom,
                None => self.spec_data().first_child is None,
            },
    {
        match self.dom.nodes[self.index].first_child {
            Some(c) => Some(GeckoNode { dom: self.dom, index: c }),
            None => None,
        }
    }

    /// The last child, if any.
    pub fn last_child(&self) -> (r: Option<GeckoNode<'ln>>)
        requires
            self.wf(),
        ensures
            match r {
                Some(c) => self.spec_data().last_child == Some(c.index) && c.wf() && c.dom
                    == self.dom,
                None => self.spec_data().last_child is None,
            },
    {
        match self.dom.nodes[self.index].last_child {
            Some(c) => Some(GeckoNode { dom: self.dom, index: c }),
            None => None,
        }
    }

    /// This node as an element, if it is one.
    pub fn as_element(&self) -> (r: Option<GeckoElement<'ln>>)
        requires
            self.wf(),
        ensures
            match r {
                Some(e) => self.dom.spec_is_element(self.index as int) && e.index == self.index
                    && e.dom == self.dom,
                None => !self.dom.spec_is_element(self.index as int),
            },
    {
        if self.is_element() {
            Some(GeckoElement { dom: self.dom, index: self.index })
        } else {
            None
        }
    }

    /// The nearest previous sibling of this node that is an element.
    pub fn prev_sibling_element(&self) -> (r: Option<GeckoElement<'ln>>)
        requires
            self.wf(),
        ensures
            match r {
                Some(e) => Some(e.index as int) == self.dom.spec_prev_sibling_element(
                    self.index as int,
                ) && e.dom == self.dom && e.wf(),
                None => self.dom.spec_prev_sibling_element(self.index as int) is None,
            },
    {
        let mut prev = self.prev_sibling();
        let ghost start = self.index as int;
        while prev.is_some()
            invariant
                self.wf(),
                start == self.index as int,
                match prev {
                    Some(p) => {
                        &&& p.wf()
                        &&& p.dom == self.dom
                        &&& (p.index as int) < self.dom.nodes@.len()
                        &&& self.dom.spec_prev_sibling_element(start) == (
                        if self.dom.spec_is_element(p.index as int) {
                            Some(p.index as int)
                        } else {
                            self.dom.spec_prev_sibling_element(p.index as int)
                        })
                    }
                    None => self.dom.spec_prev_sibling_element(start) is None,
                },
            decreases (match prev {
                Some(p) => p.index as int + 1,
                None => 0,
            }),
        {
            let p = match prev {
                Some(p) => p,
                None => {
                    proof {
                        assert(false);
                    }
                    return None;
                }
            };
            match p.as_element() {
                Some(e) => {
                    proof {
                        assert(self.dom.spec_prev_sibling_element(start) == Some(
                            p.index as int,
                        ));
                        assert(e.wf());
                    }
                    return Some(e);
                }
                None => {
                    prev = p.prev_sibling();
                }
            }
        }
        None
    }

    /// The nearest next sibling of this node that is an element.
    pub fn next_sibling_element(&self) -> (r: Option<GeckoElement<'ln>>)
        requires
            self.wf(),
        ensures
            match r {
                Some(e) => Some(e.index as int) == self.dom.spec_next_sibling_element(
                    self.index as int,
                ) && e.dom == self.dom && e.wf(),
                None => self.dom.spec_next_sibling_element(self.index as int) is None,
            },
    {
        let mut next = self.next_sibling();
        let ghost start = self.index as int;
        while next.is_some()
            invariant
                self.wf(),
                start == self.index as int,
                match next {
                    Some(n) => {
                        &&& n.wf()
                        &&& n.dom == self.dom
                        &&& self.dom.spec_next_sibling_element(start) == (
                        if self.dom.spec_is_element(n.index as int) {
                            Some(n.index as int)
                        } else {
                            self.dom.spec_next_sibling_element(n.index as int)
                        })
                    }
                    None => self.dom.spec_next_sibling_element(start) is None,
                },
            decreases (match next {
                Some(n) => self.dom.nodes@.len() - n.index,
                None => 0int,
            }),
        {
            let n = match next {
                Some(n) => n,
                None => {
                    proof {
                        assert(false);
                    }
                    return None;
                }
            };
            match n.as_element() {
                Some(e) => {
                    proof {
                        assert(self.dom.spec_next_sibling_element(start) == Some(
                            n.index as int,
                        ));
                        assert(e.wf());
                    }
                    return Some(e);
                }
                None => {
                    next = n.next_sibling();
                }
            }
        }
        None
    }

    /// The last child of this node, if that child is an element.
    pub fn last_child_element(&self) -> (r: Option<GeckoElement<'ln>>)
        requires
            self.wf(),
        ensures
            match r {
                Some(e) => self.spec_data().last_child == Some(e.index) && self.dom
                    .spec_is_element(e.index as int) && e.dom == self.dom,
                None => match self.spec_data().last_child {
                    Some(c) => !self.dom.spec_is_element(c as int),
                    None => true,
                },
            },
    {
        let last = match self.last_child() {
            Some(n) => n,
            None => {
                return None;
            }
        };
        last.as_element()
    }
}

impl<'le> GeckoElement<'le> {
    pub open spec fn wf(self) -> bool {
        &&& self.dom.wf()
        &&& (self.index as int) < self.dom.nodes@.len()
    }

    pub open spec fn spec_data(self) -> NodeData {
        self.dom.nodes@[self.index as int]
    }

    pub fn new(dom: &'le Dom, index: usize) -> (r: GeckoElement<'le>)
        requires
            dom.wf(),
            (index as int) < dom.nodes@.len(),
        ensures
            r.wf(),
            r.dom == dom,
            r.index == index,
    {
        GeckoElement { dom, index }
    }

    /// This element as a plain node.
    pub fn as_node(&self) -> (r: GeckoNode<'le>)
        requires
            self.wf(),
        ensures
            r.wf(),
            r.dom == self.dom,
            r.index == self.index,
    {
        GeckoNode { dom: self.dom, index: self.index }
    }

    /// The element's general flag bits.
    pub fn flags(&self) -> (r: u32)
        requires
            self.wf(),
        ensures
            r == self.spec_data().flags,
    {
        self.as_node().flags()
    }

    /// Whether this element has descendants for lazy frame construction.
    pub fn descendants_need_frames(&self) -> (r: bool)
        requires
            self.wf(),
        ensures
            r == ((self.spec_data().flags & NODE_DESCENDANTS_NEED_FRAMES) != 0),
    {
        (self.flags() & NODE_DESCENDANTS_NEED_FRAMES) != 0
    }

    /// Whether this element itself needs lazy frame construction.
    pub fn needs_frame(&self) -> (r: bool)
        requires
            self.wf(),
        ensures
            r == ((self.spec_data().flags & NODE_NEEDS_FRAME) != 0),
    {
        (self.flags() & NODE_NEEDS_FRAME) != 0
    }

    /// The nearest previous sibling element of this element.
    pub fn prev_sibling_element(&self) -> (r: Option<GeckoElement<'le>>)
        requires
            self.wf(),
        ensures
            match r {
                Some(e) => Some(e.index as int) == self.dom.spec_prev_sibling_element(
                    self.index as int,
                ),
                None => self.dom.spec_prev_sibling_element(self.index as int) is None,
            },
    {
        self.as_node().prev_sibling_element()
    }

    /// The nearest next sibling element of this element.
    pub fn next_sibling_element(&self) -> (r: Option<GeckoElement<'le>>)
        requires
            self.wf(),
        ensures
            match r {
                Some(e) => Some(e.index as int) == self.dom.spec_next_sibling_element(
                    self.index as int,
                ),
                None => self.dom.spec_next_sibling_element(self.index as int) is None,
            },
    {
        self.as_node().next_sibling_element()
    }
}

impl<'ld> GeckoDocument<'ld> {
    pub open spec fn wf(self) -> bool {
        &&& self.dom.wf()
        &&& (self.index as int) < self.dom.nodes@.len()
        &&& self.dom.nodes@[self.index as int].node_type == NODE_TYPE_DOCUMENT
    }

    pub fn new(dom: &'ld Dom, index: usize) -> (r: Option<GeckoDocument<'ld>>)
        requires
            dom.wf(),
            (index as int) < dom.nodes@.len(),
        ensures
            match r {
                Some(d) => d.wf() && d.dom == dom && d.index == index
                    && dom.nodes@[index as int].node_type == NODE_TYPE_DOCUMENT,
                None => dom.nodes@[index as int].node_type != NODE_TYPE_DOCUMENT,
            },
    {
        if dom.nodes[index].node_type == NODE_TYPE_DOCUMENT {
            Some(GeckoDocument { dom, index })
        } else {
            None
        }
    }

    /// The document as a plain node.
    pub fn as_node(&self) -> (r: GeckoNode<'ld>)
        requires
            self.wf(),
        ensures
            r.wf(),
            r.dom == self.dom,
            r.index == self.index,
    {
        GeckoNode { dom: self.dom, index: self.index }
    }
}

impl<'lr> GeckoShadowRoot<'lr> {
    pub open spec fn wf(self) -> bool {
        &&& self.dom.wf()
        &&& (self.index as int) < self.dom.nodes@.len()
    }

    pub fn new(dom: &'lr Dom, index: usize) -> (r: GeckoShadowRoot<'lr>)
        requires
            dom.wf(),
            (index as int) < dom.nodes@.len(),
        ensures
            r.wf(),
            r.dom == dom,
            r.index == index,
    {
        GeckoShadowRoot { dom, index }
    }

    /// The shadow root as a plain node.
    pub fn as_node(&self) -> (r: GeckoNode<'lr>)
        requires
            self.wf(),
        ensures
            r.wf(),
            r.dom == self.dom,
            r.index == self.index,
    {
        GeckoNode { dom: self.dom, index: self.index }
    }
}

/// Iterates the children of one node by following sibling links from its
/// first child.
pub enum GeckoChildrenIterator<'a> {
    /// The plain light-tree walk: the next node to hand out.
    Current(Option<GeckoNode<'a>>),
}

impl<'a> GeckoChildrenIterator<'a> {
    /// An iterator over the children of `parent`.
    pub fn new(parent: &GeckoNode<'a>) -> (r: GeckoChildrenIterator<'a>)
        requires
            parent.wf(),
        ensures
            match r {
                GeckoChildrenIterator::Current(c) => match c {
                    Some(c) => parent.spec_data().first_child == Some(c.index) && c.wf()
                        && c.dom == parent.dom,
                    None => parent.spec_data().first_child is None,
                },
            },
    {
        GeckoChildrenIterator::Current(parent.first_child())
    }

    /// The current node, advancing to its next sibling.
    pub fn next(&mut self) -> (r: Option<GeckoNode<'a>>)
        requires
            match *old(self) {
                GeckoChildrenIterator::Current(c) => match c {
                    Some(n) => n.wf(),
                    None => true,
                },
            },
        ensures
            match *old(self) {
                GeckoChildrenIterator::Current(c) => {
                    &&& r == c
                    &&& match c {
                        Some(n) => match *final(self) {
                            GeckoChildrenIterator::Current(c2) => match c2 {
                                Some(n2) => n.spec_data().next_sibling == Some(n2.index)
                                    && n2.wf(),
                                None => n.spec_data().next_sibling is None,
                            },
                        },
                        None => *final(self) == *old(self),
                    }
                }
            },
    {
        match self {
            GeckoChildrenIterator::Current(curr) => {
                let c = *curr;
                match &c {
                    Some(node) => {
                        let next = node.next_sibling();
                        *self = GeckoChildrenIterator::Current(next);
                    }
                    None => {}
                }
                c
            }
        }
    }
}

} // verus!
