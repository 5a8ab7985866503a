//! The paint tree that the pass produces, and its mathematical view.

use vstd::prelude::*;
use crate::backend::Backend;
use crate::blend::CompositeOp;
use crate::scene::ViewBox;

verus! {

/// A compositing layer: its children are painted into a surface of their own,
/// which is then clipped, masked, filtered and blended into the parent.
pub struct Group<D: Backend> {
    pub opacity: D::Opacity,
    pub blend_mode: CompositeOp,
    pub clip_path: Option<D::ClipPath>,
    pub mask: Option<D::Mask>,
    pub filters: Vec<D::Filter>,
    pub filter_fill: Option<D::Paint>,
    pub filter_stroke: Option<D::Paint>,
    /// The layer bounding box, in device coordinates.
    pub bbox: D::Bbox,
    pub children: Vec<Node<D>>,
}

/// A node of the paint tree. Nodes carry no transform: the geometry of every
/// leaf is already in device coordinates.
pub enum Node<D: Backend> {
    Group(Group<D>),
    FillPath(D::FillPath),
    StrokePath(D::StrokePath),
    Image(D::Image),
}

/// A paint tree with the frame of its document.
pub struct Tree<D: Backend> {
    /// The size of the image that fits the document.
    pub size: D::Size,
    /// The part of the document that is rendered.
    pub view_box: ViewBox<D>,
    /// The bounding box of everything that is painted, strokes and filter
    /// regions included. `None` when nothing is painted.
    pub content_area: Option<D::Bbox>,
    pub children: Vec<Node<D>>,
}

/// What a [`Group`] is, with its lists as sequences.
pub struct GroupView<D: Backend> {
    pub opacity: D::Opacity,
    pub blend_mode: CompositeOp,
    pub clip_path: Option<D::ClipPath>,
    pub mask: Option<D::Mask>,
    pub filters: Seq<D::Filter>,
    pub filter_fill: Option<D::Paint>,
    pub filter_stroke: Option<D::Paint>,
    pub bbox: D::Bbox,
    pub children: Seq<NodeView<D>>,
}

/// What a [`Node`] is.
pub enum NodeView<D: Backend> {
    Group(GroupView<D>),
    FillPath(D::FillPath),
    StrokePath(D::StrokePath),
    Image(D::Image),
}

/// What a [`Tree`] is.
pub struct TreeView<D: Backend> {
    pub size: D::Size,
    pub view_box: ViewBox<D>,
    pub content_area: Option<D::Bbox>,
    pub children: Seq<NodeView<D>>,
}

/// The view of one node.
pub open spec fn node_view<D: Backend>(node: Node<D>) -> NodeView<D>
    decreases node,
{
    match node {
        Node::Group(group) => NodeView::Group(
            GroupView {
                opacity: group.opacity,
                blend_mode: group.blend_mode,
                clip_path: group.clip_path,
                mask: group.mask,
                filters: group.filters@,
                filter_fill: group.filter_fill,
                filter_stroke: group.filter_stroke,
                bbox: group.bbox,
                children: nodes_view(group.children@),
            },
        ),
        Node::FillPath(path) => NodeView::FillPath(path),
        Node::StrokePath(path) => NodeView::StrokePath(path),
        Node::Image(image) => NodeView::Image(image),
    }
}

/// The views of a list of nodes, in the same order.
pub open spec fn nodes_view<D: Backend>(nodes: Seq<Node<D>>) -> Seq<NodeView<D>>
    decreases nodes,
{
    if nodes.len() == 0 {
        Seq::empty()
    } else {
        nodes_view(nodes.drop_last()).push(node_view(nodes.last()))
    }
}

impl<D: Backend> View for Node<D> {
    type V = NodeView<D>;

    open spec fn view(&self) -> NodeView<D> {
        node_view(*self)
    }
}

impl<D: Backend> View for Group<D> {
    type V = GroupView<D>;

    open spec fn view(&self) -> GroupView<D> {
        GroupView {
            opacity: self.opacity,
            blend_mode: self.blend_mode,
            clip_path: self.clip_path,
            mask: self.mask,
            filters: self.filters@,
            filter_fill: self.filter_fill,
            filter_stroke: self.filter_stroke,
            bbox: self.bbox,
            children: nodes_view(self.children@),
        }
    }
}

impl<D: Backend> View for Tree<D> {
    type V = TreeView<D>;

    open spec fn view(&self) -> TreeView<D> {
        TreeView {
            size: self.size,
            view_box: self.view_box,
            content_area: self.content_area,
            children: nodes_view(self.children@),
        }
    }
}

/// The view of a list has one entry for each node, and that entry is the
/// node's view.
pub proof fn lemma_nodes_view_index<D: Backend>(nodes: Seq<Node<D>>)
    ensures
        nodes_view(nodes).len() == nodes.len(),
        forall|i: int| 0 <= i < nodes.len() ==> #[trigger] nodes_view(nodes)[i] == node_view(nodes[i]),
    decreases nodes.len(),
{
    if nodes.len() > 0 {
        lemma_nodes_view_index(nodes.drop_last());
    }
}

/// The view of two lists joined is the two views joined.
pub proof fn lemma_nodes_view_concat<D: Backend>(front: Seq<Node<D>>, back: Seq<Node<D>>)
    ensures
        nodes_view(front + back) == nodes_view(front) + nodes_view(back),
{
    lemma_nodes_view_index(front);
    lemma_nodes_view_index(back);
    lemma_nodes_view_index(front + back);
    assert(nodes_view(front + back) =~= nodes_view(front) + nodes_view(back));
}

} // verus!
