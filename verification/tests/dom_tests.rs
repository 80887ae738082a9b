use batching::dom::{
    Dom, GeckoChildrenIterator, GeckoDocument, GeckoElement, GeckoNode, GeckoShadowRoot,
    NodeData, BOOL_FLAG_IS_ELEMENT, NODE_DESCENDANTS_NEED_FRAMES, NODE_NEEDS_FRAME,
    NODE_TYPE_DOCUMENT,
};

fn node() -> NodeData {
    NodeData {
        parent: None,
        first_child: None,
        last_child: None,
        prev_sibling: None,
        next_sibling: None,
        flags: 0,
        bool_flags: 0,
        node_type: 1,
    }
}

/// A document with a root element holding children: text(2), element(3),
/// text(4), element(5), in document order.
fn sample() -> Dom {
    let mut doc = node();
    doc.node_type = NODE_TYPE_DOCUMENT;
    doc.first_child = Some(1);
    doc.last_child = Some(1);

    let mut root = node();
    root.parent = Some(0);
    root.bool_flags = BOOL_FLAG_IS_ELEMENT;
    root.first_child = Some(2);
    root.last_child = Some(5);

    let mut text1 = node();
    text1.parent = Some(1);
    text1.node_type = 3;
    text1.next_sibling = Some(3);

    let mut elem1 = node();
    elem1.parent = Some(1);
    elem1.bool_flags = BOOL_FLAG_IS_ELEMENT;
    elem1.prev_sibling = Some(2);
    elem1.next_sibling = Some(4);

    let mut text2 = node();
    text2.parent = Some(1);
    text2.node_type = 3;
    text2.prev_sibling = Some(3);
    text2.next_sibling = Some(5);

    let mut elem2 = node();
    elem2.parent = Some(1);
    elem2.bool_flags = BOOL_FLAG_IS_ELEMENT;
    elem2.prev_sibling = Some(4);

    Dom { nodes: vec![doc, root, text1, elem1, text2, elem2] }
}

#[test]
fn prev_sibling_element_skips_text_nodes() {
    let dom = sample();
    // The text node at 4 has the element at 3 as its nearest previous
    // sibling element.
    let n = GeckoNode::new(&dom, 4);
    let e = n.prev_sibling_element().expect("an element precedes");
    assert_eq!(e.index, 3);
    // The element at 5 also reaches 3, skipping the text node at 4.
    let n5 = GeckoNode::new(&dom, 5);
    assert_eq!(n5.prev_sibling_element().unwrap().index, 3);
    // The first child has no previous sibling element.
    let n2 = GeckoNode::new(&dom, 2);
    assert!(n2.prev_sibling_element().is_none());
}

#[test]
fn next_sibling_element_skips_text_nodes() {
    let dom = sample();
    let n3 = GeckoNode::new(&dom, 3);
    assert_eq!(n3.next_sibling_element().unwrap().index, 5);
    let n2 = GeckoNode::new(&dom, 2);
    assert_eq!(n2.next_sibling_element().unwrap().index, 3);
    let n5 = GeckoNode::new(&dom, 5);
    assert!(n5.next_sibling_element().is_none());
}

#[test]
fn last_child_element_answers_only_for_an_element_child() {
    let dom = sample();
    let root = GeckoNode::new(&dom, 1);
    assert_eq!(root.last_child_element().unwrap().index, 5);
    // The document's last child is the root element.
    let doc_node = GeckoNode::new(&dom, 0);
    assert_eq!(doc_node.last_child_element().unwrap().index, 1);
    // A childless node has none.
    let leaf = GeckoNode::new(&dom, 2);
    assert!(leaf.last_child_element().is_none());
}

#[test]
fn frame_construction_flags_read_the_right_bits() {
    let mut dom = sample();
    dom.nodes[3].flags = NODE_DESCENDANTS_NEED_FRAMES;
    dom.nodes[5].flags = NODE_NEEDS_FRAME;
    let e3 = GeckoElement::new(&dom, 3);
    assert!(e3.descendants_need_frames());
    assert!(!e3.needs_frame());
    let e5 = GeckoElement::new(&dom, 5);
    assert!(e5.needs_frame());
    assert!(!e5.descendants_need_frames());
}

#[test]
fn document_and_shadow_root_wrap_their_node() {
    let dom = sample();
    let doc = GeckoDocument::new(&dom, 0).expect("node 0 is the document");
    assert_eq!(doc.as_node().index, 0);
    assert!(GeckoDocument::new(&dom, 1).is_none());
    let sr = GeckoShadowRoot::new(&dom, 1);
    assert_eq!(sr.as_node().index, 1);
}

#[test]
fn children_iterator_walks_sibling_links() {
    let dom = sample();
    let root = GeckoNode::new(&dom, 1);
    let mut it = GeckoChildrenIterator::new(&root);
    let mut seen = Vec::new();
    while let Some(child) = it.next() {
        seen.push(child.index);
    }
    assert_eq!(seen, vec![2, 3, 4, 5]);
}
