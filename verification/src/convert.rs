//! The pass itself: from scene nodes to paint nodes.

use vstd::prelude::*;
use crate::accumulate::{lemma_accumulated_push, Accumulator};
use crate::backend::{Backend, Leaf, Resolvers};
use crate::blend::convert_blend_mode;
use crate::node::{
    lemma_nodes_view_concat,
    lemma_nodes_view_index,
    nodes_view,
    Group,
    Node,
    NodeView,
    Tree,
};
use crate::scene::{AspectRatio, Diagnostic, SceneGroup, SceneNode, SceneTree, ViewBox};

verus! {

impl<D: Backend> Tree<D> {
    /// Builds the paint tree of a whole document.
    ///
    /// The root is converted under the identity transform. The tree keeps the
    /// document's size and view box, and its content area is the layer box that
    /// the root reports. Diagnostics are added to `sink`.
    pub fn from_usvg<Compose, Unite, HasContent, Measure, Shapes, Images, Filters, Paints, Clips, Masks>(
        scene: &SceneTree<D>,
        resolvers: &Resolvers<D, Compose, Unite, HasContent, Measure, Shapes, Images, Filters, Paints, Clips, Masks>,
        sink: &mut Vec<Diagnostic>,
    ) -> (tree: Self) where
        Compose: Fn(D::Transform, D::Transform) -> D::Transform,
        Unite: Fn(D::Bbox, D::Bbox) -> D::Bbox,
        HasContent: Fn(D::Bbox) -> bool,
        Measure: Fn(D::Rect) -> D::Size,
        Shapes: Fn(&D::Shape, D::Transform) -> Leaf<D>,
        Images: Fn(&D::Picture, D::Transform) -> Leaf<D>,
        Filters: Fn(&Vec<D::FilterRef>, Option<D::Bbox>, Option<D::Bbox>, D::Transform) -> (
            Vec<D::Filter>,
            Option<D::Bbox>,
        ),
        Paints: Fn(&D::PaintRef, D::Opacity, D::Bbox) -> Option<D::Paint>,
        Clips: Fn(&D::ClipRef, D::Bbox, D::Transform) -> Option<D::ClipPath>,
        Masks: Fn(&D::MaskRef, D::Bbox, D::Transform) -> Option<D::Mask>,

        requires
            resolvers.well_formed(),
        ensures
            tree@ == resolvers.document_tree(*scene),
            final(sink)@ == old(sink)@ + resolvers.node_outcome(
                scene.root,
                resolvers.identity,
            ).diagnostics,
    {
        let (children, layer_bbox) = convert_node(&scene.root, resolvers.identity, resolvers, sink);
        Tree {
            size: scene.size,
            view_box: ViewBox { rect: scene.view_box.rect, aspect: scene.view_box.aspect },
            content_area: layer_bbox,
            children,
        }
    }

    /// Builds the paint tree of one node, framed by the node's own bounding
    /// box.
    ///
    /// `bounds` is that bounding box, or `None` if the node has no area. A node
    /// without area gives no tree, only the diagnostic
    /// [`Diagnostic::ZeroSizedNode`]. Otherwise the view box of the tree shows
    /// exactly `bounds`, fitted by the neutral policy, and the node is
    /// converted under the identity transform.
    pub fn from_usvg_node<Compose, Unite, HasContent, Measure, Shapes, Images, Filters, Paints, Clips, Masks>(
        node: &SceneNode<D>,
        bounds: Option<D::Rect>,
        resolvers: &Resolvers<D, Compose, Unite, HasContent, Measure, Shapes, Images, Filters, Paints, Clips, Masks>,
        sink: &mut Vec<Diagnostic>,
    ) -> (r: Option<Self>) where
        Compose: Fn(D::Transform, D::Transform) -> D::Transform,
        Unite: Fn(D::Bbox, D::Bbox) -> D::Bbox,
        HasContent: Fn(D::Bbox) -> bool,
        Measure: Fn(D::Rect) -> D::Size,
        Shapes: Fn(&D::Shape, D::Transform) -> Leaf<D>,
        Images: Fn(&D::Picture, D::Transform) -> Leaf<D>,
        Filters: Fn(&Vec<D::FilterRef>, Option<D::Bbox>, Option<D::Bbox>, D::Transform) -> (
            Vec<D::Filter>,
            Option<D::Bbox>,
        ),
        Paints: Fn(&D::PaintRef, D::Opacity, D::Bbox) -> Option<D::Paint>,
        Clips: Fn(&D::ClipRef, D::Bbox, D::Transform) -> Option<D::ClipPath>,
        Masks: Fn(&D::MaskRef, D::Bbox, D::Transform) -> Option<D::Mask>,

        requires
            resolvers.well_formed(),
        ensures
            bounds is None ==> r is None && final(sink)@ == old(sink)@.push(
                Diagnostic::ZeroSizedNode,
            ),
            bounds matches Some(rect) ==> r matches Some(tree) && tree@ == resolvers.subtree(
                *node,
                rect,
            ) && final(sink)@ == old(sink)@ + resolvers.node_outcome(
                *node,
                resolvers.identity,
            ).diagnostics,
    {
        let node_bbox = match bounds {
            Some(rect) => rect,
            None => {
                sink.push(Diagnostic::ZeroSizedNode);
                return None;
            },
        };
        let view_box = ViewBox { rect: node_bbox, aspect: AspectRatio::default() };
        let (children, layer_bbox) = convert_node(node, resolvers.identity, resolvers, sink);
        Some(
            Tree {
                size: resolvers.measure(node_bbox),
                view_box,
                content_area: layer_bbox,
                children,
            },
        )
    }
}

/// Converts a node and everything under it.
///
/// Returns the paint nodes that the node turns into, in paint order, and the
/// layer bounding box of the node, which is absent when the node paints
/// nothing. Diagnostics are added to `sink`.
pub fn convert_node<D, Compose, Unite, HasContent, Measure, Shapes, Images, Filters, Paints, Clips, Masks>(
    node: &SceneNode<D>,
    transform: D::Transform,
    resolvers: &Resolvers<D, Compose, Unite, HasContent, Measure, Shapes, Images, Filters, Paints, Clips, Masks>,
    sink: &mut Vec<Diagnostic>,
) -> (r: (Vec<Node<D>>, Option<D::Bbox>)) where
    D: Backend,
    Compose: Fn(D::Transform, D::Transform) -> D::Transform,
    Unite: Fn(D::Bbox, D::Bbox) -> D::Bbox,
    HasContent: Fn(D::Bbox) -> bool,
    Measure: Fn(D::Rect) -> D::Size,
    Shapes: Fn(&D::Shape, D::Transform) -> Leaf<D>,
    Images: Fn(&D::Picture, D::Transform) -> Leaf<D>,
    Filters: Fn(&Vec<D::FilterRef>, Option<D::Bbox>, Option<D::Bbox>, D::Transform) -> (
        Vec<D::Filter>,
        Option<D::Bbox>,
    ),
    Paints: Fn(&D::PaintRef, D::Opacity, D::Bbox) -> Option<D::Paint>,
    Clips: Fn(&D::ClipRef, D::Bbox, D::Transform) -> Option<D::ClipPath>,
    Masks: Fn(&D::MaskRef, D::Bbox, D::Transform) -> Option<D::Mask>,

    requires
        resolvers.well_formed(),
    ensures
        nodes_view(r.0@) == resolvers.node_outcome(*node, transform).nodes,
        r.1 == resolvers.node_outcome(*node, transform).layer(),
        final(sink)@ == old(sink)@ + resolvers.node_outcome(*node, transform).diagnostics,
{
    let mut children = Vec::new();
    let bboxes = resolvers.convert_node_inner(node, transform, &mut children, sink);
    let layer_bbox = match bboxes {
        Some((layer, _)) => Some(layer),
        None => None,
    };
    (children, layer_bbox)
}

/// Moves the nodes of a leaf to the end of `children`.
fn append_leaf<D: Backend>(nodes: Vec<Node<D>>, children: &mut Vec<Node<D>>)
    ensures
        nodes_view(final(children)@) == nodes_view(old(children)@) + nodes_view(nodes@),
{
    let mut nodes = nodes;
    proof {
        lemma_nodes_view_concat(children@, nodes@);
    }
    children.append(&mut nodes);
}

/// Adds one layer to the end of `children`.
fn push_layer<D: Backend>(group: Group<D>, children: &mut Vec<Node<D>>)
    ensures
        nodes_view(final(children)@) == nodes_view(old(children)@) + seq![NodeView::Group(group@)],
{
    proof {
        lemma_nodes_view_concat(children@, seq![Node::Group(group)]);
        lemma_nodes_view_index(seq![Node::Group(group)]);
        assert(nodes_view(seq![Node::Group(group)]) =~= seq![NodeView::Group(group@)]);
        assert(children@.push(Node::Group(group)) =~= children@ + seq![Node::Group(group)]);
    }
    children.push(Node::Group(group));
}

impl<D, Compose, Unite, HasContent, Measure, Shapes, Images, Filters, Paints, Clips, Masks> Resolvers<
    D,
    Compose,
    Unite,
    HasContent,
    Measure,
    Shapes,
    Images,
    Filters,
    Paints,
    Clips,
    Masks,
> where
    D: Backend,
    Compose: Fn(D::Transform, D::Transform) -> D::Transform,
    Unite: Fn(D::Bbox, D::Bbox) -> D::Bbox,
    HasContent: Fn(D::Bbox) -> bool,
    Measure: Fn(D::Rect) -> D::Size,
    Shapes: Fn(&D::Shape, D::Transform) -> Leaf<D>,
    Images: Fn(&D::Picture, D::Transform) -> Leaf<D>,
    Filters: Fn(&Vec<D::FilterRef>, Option<D::Bbox>, Option<D::Bbox>, D::Transform) -> (
        Vec<D::Filter>,
        Option<D::Bbox>,
    ),
    Paints: Fn(&D::PaintRef, D::Opacity, D::Bbox) -> Option<D::Paint>,
    Clips: Fn(&D::ClipRef, D::Bbox, D::Transform) -> Option<D::ClipPath>,
    Masks: Fn(&D::MaskRef, D::Bbox, D::Transform) -> Option<D::Mask>,
 {
    /// Converts a node into `children`, and returns the boxes
    /// `(layer, object)` it reports.
    fn convert_node_inner(
        &self,
        node: &SceneNode<D>,
        parent_transform: D::Transform,
        children: &mut Vec<Node<D>>,
        sink: &mut Vec<Diagnostic>,
    ) -> (r: Option<(D::Bbox, D::Bbox)>)
        requires
            self.well_formed(),
        ensures
            nodes_view(final(children)@) == nodes_view(old(children)@) + self.node_outcome(
                *node,
                parent_transform,
            ).nodes,
            r == self.node_outcome(*node, parent_transform).bboxes,
            final(sink)@ == old(sink)@ + self.node_outcome(*node, parent_transform).diagnostics,
        decreases node,
    {
        match node {
            SceneNode::Group(group) => self.convert_group(group, parent_transform, children, sink),
            SceneNode::Shape(shape) => {
                let leaf = self.shape(shape, parent_transform);
                append_leaf(leaf.nodes, children);
                leaf.bboxes
            },
            SceneNode::Image(picture) => {
                let leaf = self.image(picture, parent_transform);
                append_leaf(leaf.nodes, children);
                leaf.bboxes
            },
            SceneNode::Text => {
                sink.push(Diagnostic::TextSkipped);
                None
            },
        }
    }

    /// Converts a group: flattens it into `children`, or adds it as one layer,
    /// or drops it.
    fn convert_group(
        &self,
        group: &SceneGroup<D>,
        parent_transform: D::Transform,
        children: &mut Vec<Node<D>>,
        sink: &mut Vec<Diagnostic>,
    ) -> (r: Option<(D::Bbox, D::Bbox)>)
        requires
            self.well_formed(),
        ensures
            nodes_view(final(children)@) == nodes_view(old(children)@) + self.group_outcome(
                *group,
                parent_transform,
            ).nodes,
            r == self.group_outcome(*group, parent_transform).bboxes,
            final(sink)@ == old(sink)@ + self.group_outcome(*group, parent_transform).diagnostics,
        decreases group,
    {
        let transform = self.compose_transforms(parent_transform, group.transform);

        if !group.should_isolate() {
            return self.convert_children(&group.children, transform, children, sink);
        }
        let mut group_children = Vec::new();
        let gathered = self.convert_children(&group.children, transform, &mut group_children, sink);
        let (mut layer_bbox, object_bbox) = match gathered {
            Some(v) => v,
            None => {
                return self.convert_empty_group(group, transform, children);
            },
        };

        let mut filters = Vec::new();
        if group.filters.len() > 0 {
            let (resolved, filter_bbox) = self.filter(
                &group.filters,
                Some(layer_bbox),
                Some(object_bbox),
                transform,
            );
            // A chain without a region takes the whole group with it.
            match filter_bbox {
                Some(region) => {
                    layer_bbox = region;
                    filters = resolved;
                },
                None => {
                    assert(nodes_view(children@) =~= nodes_view(old(children)@) + Seq::empty());
                    return None;
                },
            }
        }
        let layer = Group {
            opacity: group.opacity,
            blend_mode: convert_blend_mode(group.blend_mode),
            clip_path: self.clip(&group.clip_path, object_bbox, transform),
            mask: self.mask(&group.mask, object_bbox, transform),
            filters,
            filter_fill: self.paint(&group.filter_fill, layer_bbox),
            filter_stroke: self.paint(&group.filter_stroke, layer_bbox),
            bbox: layer_bbox,
            children: group_children,
        };
        push_layer(layer, children);
        Some((layer_bbox, object_bbox))
    }

    /// Converts a group that needs a layer and whose children left no
    /// content.
    ///
    /// Only filters can paint into such a layer: without filters, or without a
    /// region for them, the group is dropped. The layer that is added has no
    /// children, no clip path and no mask, and reports the unit square as its
    /// object box.
    fn convert_empty_group(
        &self,
        group: &SceneGroup<D>,
        transform: D::Transform,
        children: &mut Vec<Node<D>>,
    ) -> (r: Option<(D::Bbox, D::Bbox)>)
        requires
            self.well_formed(),
        ensures
            self.layer_region(*group, transform, None) matches Some(region) ==> r == Some(
                (region, self.unit_square),
            ) && nodes_view(final(children)@) == nodes_view(old(children)@) + seq![
                NodeView::Group(self.layer_view(*group, transform, Seq::empty(), None, region)),
            ],
            self.layer_region(*group, transform, None) is None ==> r is None && nodes_view(
                final(children)@,
            ) == nodes_view(old(children)@),
    {
        if group.filters.len() == 0 {
            return None;
        }
        let (filters, filter_bbox) = self.filter(&group.filters, None, None, transform);
        let layer_bbox = match filter_bbox {
            Some(region) => region,
            None => {
                return None;
            },
        };
        let layer = Group {
            opacity: group.opacity,
            blend_mode: convert_blend_mode(group.blend_mode),
            clip_path: None,
            mask: None,
            filters,
            filter_fill: self.paint(&group.filter_fill, layer_bbox),
            filter_stroke: self.paint(&group.filter_stroke, layer_bbox),
            bbox: layer_bbox,
            children: Vec::new(),
        };
        proof {
            assert(nodes_view(layer.children@) =~= Seq::empty());
        }
        push_layer(layer, children);
        Some((layer_bbox, self.unit_square))
    }

    /// Converts siblings in order into `children`, and gathers their boxes.
    fn convert_children(
        &self,
        siblings: &Vec<SceneNode<D>>,
        parent_transform: D::Transform,
        children: &mut Vec<Node<D>>,
        sink: &mut Vec<Diagnostic>,
    ) -> (r: Option<(D::Bbox, D::Bbox)>)
        requires
            self.well_formed(),
        ensures
            nodes_view(final(children)@) == nodes_view(old(children)@) + self.siblings_outcome(
                siblings@,
                parent_transform,
            ).nodes,
            r == self.gathered(self.siblings_outcome(siblings@, parent_transform).reports),
            final(sink)@ == old(sink)@ + self.siblings_outcome(
                siblings@,
                parent_transform,
            ).diagnostics,
        decreases siblings,
    {
        let mut unions = Accumulator::new(self.no_content);
        let mut i: usize = 0;
        assert(siblings@.take(0) =~= Seq::empty());
        assert(nodes_view(children@) =~= nodes_view(children@) + Seq::empty());
        assert(sink@ =~= sink@ + Seq::empty());
        while i < siblings.len()
            invariant
                i <= siblings.len(),
                self.well_formed(),
                nodes_view(children@) == nodes_view(old(children)@) + self.siblings_outcome(
                    siblings@.take(i as int),
                    parent_transform,
                ).nodes,
                unions.unions() == self.accumulated(
                    self.siblings_outcome(siblings@.take(i as int), parent_transform).reports,
                ),
                sink@ == old(sink)@ + self.siblings_outcome(
                    siblings@.take(i as int),
                    parent_transform,
                ).diagnostics,
            decreases siblings.len() - i,
        {
            let ghost before = self.siblings_outcome(siblings@.take(i as int), parent_transform);
            let ghost last = self.node_outcome(siblings@[i as int], parent_transform);
            proof {
                assert(siblings@.take(i + 1).drop_last() =~= siblings@.take(i as int));
                assert(siblings@.take(i + 1).last() == siblings@[i as int]);
                lemma_accumulated_push(self.union, self.no_content, before.reports, last.bboxes);
                assert((nodes_view(old(children)@) + before.nodes) + last.nodes =~= nodes_view(
                    old(children)@,
                ) + (before.nodes + last.nodes));
                assert((old(sink)@ + before.diagnostics) + last.diagnostics =~= old(sink)@ + (
                before.diagnostics + last.diagnostics));
            }
            let report = self.convert_node_inner(&siblings[i], parent_transform, children, sink);
            unions.absorb(report, &self.union);
            i += 1;
        }
        assert(siblings@.take(i as int) =~= siblings@);
        unions.finish(&self.has_content)
    }
}

} // verus!
