//! What the pass produces for a scene, as a function of the scene and of what
//! the resolvers return.

use vstd::prelude::*;
use crate::accumulate::{accumulated, with_content};
use crate::backend::{Backend, Leaf, Resolvers};
use crate::blend::composite_of;
use crate::node::{GroupView, NodeView, TreeView};
use crate::scene::{AspectRatio, Diagnostic, SceneGroup, SceneNode, SceneTree, ViewBox};

verus! {

/// The result of converting one node.
pub struct Outcome<D: Backend> {
    /// The nodes that the conversion adds to the list of its caller, in order.
    pub nodes: Seq<NodeView<D>>,
    /// The bounding boxes `(layer, object)` that the node reports to its
    /// parent; `None` when it takes no part in the parent's boxes.
    pub bboxes: Option<(D::Bbox, D::Bbox)>,
    /// The diagnostics raised on the way, in order.
    pub diagnostics: Seq<Diagnostic>,
}

/// The result of converting a list of siblings.
pub struct Siblings<D: Backend> {
    /// The nodes of all siblings, in the order of the siblings.
    pub nodes: Seq<NodeView<D>>,
    /// What each sibling reported, one entry for each.
    pub reports: Seq<Option<(D::Bbox, D::Bbox)>>,
    /// The diagnostics of all siblings, in the order of the siblings.
    pub diagnostics: Seq<Diagnostic>,
}

impl<D: Backend> Outcome<D> {
    /// The layer box that the node reports, if it reports boxes.
    pub open spec fn layer(&self) -> Option<D::Bbox> {
        match self.bboxes {
            Some((layer, _)) => Some(layer),
            None => None,
        }
    }
}

impl<D, Compose, Unite, HasContent, Measure, Shapes, Images, Filters, Paints, Clips, Masks> Resolvers<
    D,
    Compose,
    Unite,
    HasContent,
    Measure,
    Shapes,
    Images,
    Filters,
    Paints,
    Clips,
    Masks,
> where
    D: Backend,
    Compose: Fn(D::Transform, D::Transform) -> D::Transform,
    Unite: Fn(D::Bbox, D::Bbox) -> D::Bbox,
    HasContent: Fn(D::Bbox) -> bool,
    Measure: Fn(D::Rect) -> D::Size,
    Shapes: Fn(&D::Shape, D::Transform) -> Leaf<D>,
    Images: Fn(&D::Picture, D::Transform) -> Leaf<D>,
    Filters: Fn(&Vec<D::FilterRef>, Option<D::Bbox>, Option<D::Bbox>, D::Transform) -> (
        Vec<D::Filter>,
        Option<D::Bbox>,
    ),
    Paints: Fn(&D::PaintRef, D::Opacity, D::Bbox) -> Option<D::Paint>,
    Clips: Fn(&D::ClipRef, D::Bbox, D::Transform) -> Option<D::ClipPath>,
    Masks: Fn(&D::MaskRef, D::Bbox, D::Transform) -> Option<D::Mask>,
 {
    /// The unions `(layer, object)` of what the children of a group reported.
    pub open spec fn accumulated(&self, reports: Seq<Option<(D::Bbox, D::Bbox)>>) -> (
        D::Bbox,
        D::Bbox,
    ) {
        accumulated(self.union, self.no_content, reports)
    }

    /// The boxes `(layer, object)` of a group whose children reported
    /// `reports`: the unions of the reports, or `None` where the children left
    /// either union without content.
    pub open spec fn gathered(&self, reports: Seq<Option<(D::Bbox, D::Bbox)>>) -> Option<
        (D::Bbox, D::Bbox),
    > {
        with_content(self.has_content, self.accumulated(reports))
    }

    /// The outcome of a node under an inherited transform.
    ///
    /// A shape or an image is what its resolver makes of it. A text node adds
    /// nothing but a diagnostic. A group is converted by
    /// [`Self::group_outcome`].
    pub open spec fn node_outcome(&self, node: SceneNode<D>, inherited: D::Transform) -> Outcome<D>
        decreases node,
    {
        match node {
            SceneNode::Group(group) => self.group_outcome(group, inherited),
            SceneNode::Shape(shape) => {
                let leaf = self.shape_leaf(shape, inherited);
                Outcome { nodes: leaf.nodes, bboxes: leaf.bboxes, diagnostics: Seq::empty() }
            },
            SceneNode::Image(picture) => {
                let leaf = self.image_leaf(picture, inherited);
                Outcome { nodes: leaf.nodes, bboxes: leaf.bboxes, diagnostics: Seq::empty() }
            },
            SceneNode::Text => Outcome {
                nodes: Seq::empty(),
                bboxes: None,
                diagnostics: seq![Diagnostic::TextSkipped],
            },
        }
    }

    /// The outcome of a list of siblings under one transform: each sibling is
    /// converted in turn, and the nodes and diagnostics are joined in order.
    pub open spec fn siblings_outcome(
        &self,
        children: Seq<SceneNode<D>>,
        transform: D::Transform,
    ) -> Siblings<D>
        decreases children,
    {
        if children.len() == 0 {
            Siblings { nodes: Seq::empty(), reports: Seq::empty(), diagnostics: Seq::empty() }
        } else {
            let before = self.siblings_outcome(children.drop_last(), transform);
            let last = self.node_outcome(children.last(), transform);
            Siblings {
                nodes: before.nodes + last.nodes,
                reports: before.reports.push(last.bboxes),
                diagnostics: before.diagnostics + last.diagnostics,
            }
        }
    }

    /// The outcome of a group under an inherited transform.
    ///
    /// The children are converted under the group's transform applied inside
    /// the inherited one. A group that needs no layer hands on the nodes of its
    /// children and their gathered boxes. A group that needs a layer becomes
    /// one `Group` node, or nothing at all if [`Self::layer_region`] finds no
    /// region for it.
    pub open spec fn group_outcome(&self, group: SceneGroup<D>, inherited: D::Transform) -> Outcome<D>
        decreases group,
    {
        let transform = self.composed(inherited, group.transform);
        let kids = self.siblings_outcome(group.children@, transform);
        let gathered = self.gathered(kids.reports);
        if !group.isolates() {
            Outcome { nodes: kids.nodes, bboxes: gathered, diagnostics: kids.diagnostics }
        } else {
            match self.layer_region(group, transform, gathered) {
                Some(region) => Outcome {
                    nodes: seq![
                        NodeView::Group(self.layer_view(group, transform, kids.nodes, gathered, region)),
                    ],
                    bboxes: Some((region, self.layer_object(gathered))),
                    diagnostics: kids.diagnostics,
                },
                None => Outcome {
                    nodes: Seq::empty(),
                    bboxes: None,
                    diagnostics: kids.diagnostics,
                },
            }
        }
    }

    /// The layer box of a group that needs a layer; `None` when the group is
    /// dropped.
    ///
    /// Without filters the layer box is the gathered layer box, and a group
    /// without content is dropped. With filters the region comes from the
    /// filter resolver, which is given the gathered boxes, or no boxes where
    /// the children left no content; a chain without a region drops the group
    /// and everything under it.
    pub open spec fn layer_region(
        &self,
        group: SceneGroup<D>,
        transform: D::Transform,
        gathered: Option<(D::Bbox, D::Bbox)>,
    ) -> Option<D::Bbox> {
        if group.filters@.len() == 0 {
            match gathered {
                Some((layer, _)) => Some(layer),
                None => None,
            }
        } else {
            self.filter_result(group, transform, gathered).1
        }
    }

    /// What the filter resolver returns for a group: it is asked with the
    /// gathered boxes, or with none where the children left no content.
    pub open spec fn filter_result(
        &self,
        group: SceneGroup<D>,
        transform: D::Transform,
        gathered: Option<(D::Bbox, D::Bbox)>,
    ) -> (Seq<D::Filter>, Option<D::Bbox>) {
        match gathered {
            Some((layer, object)) => self.filtered(group.filters, Some(layer), Some(object), transform),
            None => self.filtered(group.filters, None, None, transform),
        }
    }

    /// The object box that a layer reports: the gathered one, or the unit
    /// square for a layer that has only what its filters paint.
    pub open spec fn layer_object(&self, gathered: Option<(D::Bbox, D::Bbox)>) -> D::Bbox {
        match gathered {
            Some((_, object)) => object,
            None => self.unit_square,
        }
    }

    /// The `Group` node of a group that needs a layer and has `region` as its
    /// layer box.
    ///
    /// Clip path and mask are resolved against the gathered object box and
    /// the transform; a layer without content has neither, and no children.
    /// The paints that filters read are resolved at full opacity for the
    /// region.
    pub open spec fn layer_view(
        &self,
        group: SceneGroup<D>,
        transform: D::Transform,
        kids: Seq<NodeView<D>>,
        gathered: Option<(D::Bbox, D::Bbox)>,
        region: D::Bbox,
    ) -> GroupView<D> {
        GroupView {
            opacity: group.opacity,
            blend_mode: composite_of(group.blend_mode),
            clip_path: match gathered {
                Some((_, object)) => self.clipped_if_present(group.clip_path, object, transform),
                None => None,
            },
            mask: match gathered {
                Some((_, object)) => self.masked_if_present(group.mask, object, transform),
                None => None,
            },
            filters: if group.filters@.len() == 0 {
                Seq::empty()
            } else {
                self.filter_result(group, transform, gathered).0
            },
            filter_fill: self.painted_if_present(group.filter_fill, region),
            filter_stroke: self.painted_if_present(group.filter_stroke, region),
            bbox: region,
            children: match gathered {
                Some(_) => kids,
                None => Seq::empty(),
            },
        }
    }

    /// The paint tree of a whole document: the root converted under the
    /// identity transform, inside the document's own frame.
    pub open spec fn document_tree(&self, scene: SceneTree<D>) -> TreeView<D> {
        let outcome = self.node_outcome(scene.root, self.identity);
        TreeView {
            size: scene.size,
            view_box: scene.view_box,
            content_area: outcome.layer(),
            children: outcome.nodes,
        }
    }

    /// The paint tree of one node with the bounding box `bounds`: the node
    /// converted under the identity transform, inside a frame that shows
    /// exactly `bounds`.
    pub open spec fn subtree(&self, node: SceneNode<D>, bounds: D::Rect) -> TreeView<D> {
        let outcome = self.node_outcome(node, self.identity);
        TreeView {
            size: self.extent(bounds),
            view_box: ViewBox { rect: bounds, aspect: AspectRatio::neutral() },
            content_area: outcome.layer(),
            children: outcome.nodes,
        }
    }
}

} // verus!
