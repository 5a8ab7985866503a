//! What holds of every conversion.

use vstd::prelude::*;
use crate::accumulate::{
    law_accumulation_ignores_order,
    lemma_absent_report_changes_nothing,
    lemma_accumulated_push,
    union_is_exact,
};
use crate::backend::{Backend, Leaf, Resolvers};
use crate::blend::{blend_mode_of, composite_of, BlendMode};
use crate::node::NodeView;
use crate::outcome::Outcome;
use crate::scene::{Diagnostic, SceneGroup, SceneNode};

verus! {

impl<D, Compose, Unite, HasContent, Measure, Shapes, Images, Filters, Paints, Clips, Masks> Resolvers<
    D,
    Compose,
    Unite,
    HasContent,
    Measure,
    Shapes,
    Images,
    Filters,
    Paints,
    Clips,
    Masks,
> where
    D: Backend,
    Compose: Fn(D::Transform, D::Transform) -> D::Transform,
    Unite: Fn(D::Bbox, D::Bbox) -> D::Bbox,
    HasContent: Fn(D::Bbox) -> bool,
    Measure: Fn(D::Rect) -> D::Size,
    Shapes: Fn(&D::Shape, D::Transform) -> Leaf<D>,
    Images: Fn(&D::Picture, D::Transform) -> Leaf<D>,
    Filters: Fn(&Vec<D::FilterRef>, Option<D::Bbox>, Option<D::Bbox>, D::Transform) -> (
        Vec<D::Filter>,
        Option<D::Bbox>,
    ),
    Paints: Fn(&D::PaintRef, D::Opacity, D::Bbox) -> Option<D::Paint>,
    Clips: Fn(&D::ClipRef, D::Bbox, D::Transform) -> Option<D::ClipPath>,
    Masks: Fn(&D::MaskRef, D::Bbox, D::Transform) -> Option<D::Mask>,
 {
    /// Two sets of resolvers hold the same values and give the same answer to
    /// every question.
    pub open spec fn answers_like(&self, other: Self) -> bool {
        &&& self.identity == other.identity
        &&& self.no_content == other.no_content
        &&& self.unit_square == other.unit_square
        &&& self.full_opacity == other.full_opacity
        &&& forall|a: D::Transform, b: D::Transform| #[trigger]
            self.composed(a, b) == other.composed(a, b)
        &&& forall|a: D::Bbox, b: D::Bbox| #[trigger] self.united(a, b) == other.united(a, b)
        &&& forall|a: D::Bbox| #[trigger] self.is_content(a) == other.is_content(a)
        &&& forall|a: D::Rect| #[trigger] self.extent(a) == other.extent(a)
        &&& forall|s: D::Shape, t: D::Transform| #[trigger]
            self.shape_leaf(s, t) == other.shape_leaf(s, t)
        &&& forall|p: D::Picture, t: D::Transform| #[trigger]
            self.image_leaf(p, t) == other.image_leaf(p, t)
        &&& forall|c: Vec<D::FilterRef>, l: Option<D::Bbox>, o: Option<D::Bbox>, t: D::Transform|
         #[trigger]
            self.filtered(c, l, o, t) == other.filtered(c, l, o, t)
        &&& forall|p: D::PaintRef, a: D::Opacity, b: D::Bbox| #[trigger]
            self.painted(p, a, b) == other.painted(p, a, b)
        &&& forall|c: D::ClipRef, b: D::Bbox, t: D::Transform| #[trigger]
            self.clipped(c, b, t) == other.clipped(c, b, t)
        &&& forall|m: D::MaskRef, b: D::Bbox, t: D::Transform| #[trigger]
            self.masked(m, b, t) == other.masked(m, b, t)
    }

    /// Conversion is a function of the scene and of the answers of the
    /// resolvers. Run again on the same node, under the same transform, with
    /// resolvers that answer alike, it yields the same nodes, the same boxes
    /// and the same diagnostics.
    pub proof fn law_conversion_is_deterministic(
        &self,
        other: Self,
        node: SceneNode<D>,
        transform: D::Transform,
    )
        requires
            self.answers_like(other),
        ensures
            self.node_outcome(node, transform) == other.node_outcome(node, transform),
        decreases node,
    {
        match node {
            SceneNode::Group(group) => {
                self.lemma_group_is_deterministic(other, group, transform);
            },
            SceneNode::Shape(shape) => {},
            SceneNode::Image(picture) => {},
            SceneNode::Text => {},
        }
    }

    proof fn lemma_group_is_deterministic(
        &self,
        other: Self,
        group: SceneGroup<D>,
        inherited: D::Transform,
    )
        requires
            self.answers_like(other),
        ensures
            self.group_outcome(group, inherited) == other.group_outcome(group, inherited),
        decreases group,
    {
        let transform = self.composed(inherited, group.transform);
        self.lemma_siblings_are_deterministic(other, group.children@, transform);
        let kids = self.siblings_outcome(group.children@, transform);
        self.lemma_gathering_is_deterministic(other, kids.reports);
        let gathered = self.gathered(kids.reports);
        assert(self.filter_result(group, transform, gathered) == other.filter_result(
            group,
            transform,
            gathered,
        ));
        assert(self.layer_region(group, transform, gathered) == other.layer_region(
            group,
            transform,
            gathered,
        ));
        if let Some(region) = self.layer_region(group, transform, gathered) {
            assert(self.layer_view(group, transform, kids.nodes, gathered, region)
                == other.layer_view(group, transform, kids.nodes, gathered, region));
        }
    }

    proof fn lemma_siblings_are_deterministic(
        &self,
        other: Self,
        children: Seq<SceneNode<D>>,
        transform: D::Transform,
    )
        requires
            self.answers_like(other),
        ensures
            self.siblings_outcome(children, transform) == other.siblings_outcome(
                children,
                transform,
            ),
        decreases children,
    {
        if children.len() > 0 {
            self.lemma_siblings_are_deterministic(other, children.drop_last(), transform);
            self.law_conversion_is_deterministic(other, children.last(), transform);
        }
    }

    proof fn lemma_gathering_is_deterministic(
        &self,
        other: Self,
        reports: Seq<Option<(D::Bbox, D::Bbox)>>,
    )
        requires
            self.answers_like(other),
        ensures
            self.accumulated(reports) == other.accumulated(reports),
            self.gathered(reports) == other.gathered(reports),
        decreases reports.len(),
    {
        if reports.len() > 0 {
            self.lemma_gathering_is_deterministic(other, reports.drop_last());
            lemma_accumulated_push(self.union, self.no_content, reports.drop_last(), reports.last());
            lemma_accumulated_push(other.union, other.no_content, reports.drop_last(), reports.last());
            assert(reports.drop_last().push(reports.last()) =~= reports);
            let before = self.accumulated(reports.drop_last());
            if let Some((layer, object)) = reports.last() {
                assert(self.united(before.0, layer) == other.united(before.0, layer));
                assert(self.united(before.1, object) == other.united(before.1, object));
            }
        }
        let unions = self.accumulated(reports);
        assert(self.is_content(unions.0) == other.is_content(unions.0));
        assert(self.is_content(unions.1) == other.is_content(unions.1));
    }

    /// A shape and an image turn into what their resolvers make of them under
    /// the inherited transform, and raise no diagnostic.
    pub proof fn law_leaves_are_resolved_under_the_inherited_transform(
        &self,
        node: SceneNode<D>,
        inherited: D::Transform,
    )
        ensures
            node matches SceneNode::Shape(shape) ==> self.node_outcome(node, inherited) == (Outcome {
                nodes: self.shape_leaf(shape, inherited).nodes,
                bboxes: self.shape_leaf(shape, inherited).bboxes,
                diagnostics: Seq::empty(),
            }),
            node matches SceneNode::Image(picture) ==> self.node_outcome(node, inherited) == (Outcome {
                nodes: self.image_leaf(picture, inherited).nodes,
                bboxes: self.image_leaf(picture, inherited).bboxes,
                diagnostics: Seq::empty(),
            }),
    {
    }

    /// A text node adds no node and reports no boxes; it raises one
    /// diagnostic.
    pub proof fn law_text_adds_nothing_but_a_diagnostic(&self, inherited: D::Transform)
        ensures
            self.node_outcome(SceneNode::Text, inherited) == (Outcome::<D> {
                nodes: Seq::empty(),
                bboxes: None,
                diagnostics: seq![Diagnostic::TextSkipped],
            }),
    {
    }

    /// Siblings are converted one after the other under the same transform:
    /// no siblings give nothing, and a list with one more sibling gives the
    /// outcome of the list followed by the outcome of that sibling.
    pub proof fn law_children_are_converted_in_turn(
        &self,
        children: Seq<SceneNode<D>>,
        child: SceneNode<D>,
        transform: D::Transform,
    )
        ensures
            self.siblings_outcome(Seq::empty(), transform).nodes == Seq::<NodeView<D>>::empty(),
            self.siblings_outcome(Seq::empty(), transform).reports == Seq::<
                Option<(D::Bbox, D::Bbox)>,
            >::empty(),
            self.siblings_outcome(children.push(child), transform).nodes == self.siblings_outcome(
                children,
                transform,
            ).nodes + self.node_outcome(child, transform).nodes,
            self.siblings_outcome(children.push(child), transform).reports
                == self.siblings_outcome(children, transform).reports.push(
                self.node_outcome(child, transform).bboxes,
            ),
            self.siblings_outcome(Seq::empty(), transform).diagnostics == Seq::<
                Diagnostic,
            >::empty(),
            self.siblings_outcome(children.push(child), transform).diagnostics
                == self.siblings_outcome(children, transform).diagnostics + self.node_outcome(
                child,
                transform,
            ).diagnostics,
    {
        assert(children.push(child).drop_last() =~= children);
    }

    /// Siblings come out in the order they went in: the outcome of a list is
    /// the outcome of its front part followed by the outcome of its back part.
    pub proof fn law_siblings_keep_their_order(
        &self,
        front: Seq<SceneNode<D>>,
        back: Seq<SceneNode<D>>,
        transform: D::Transform,
    )
        ensures
            self.siblings_outcome(front + back, transform).nodes == self.siblings_outcome(
                front,
                transform,
            ).nodes + self.siblings_outcome(back, transform).nodes,
            self.siblings_outcome(front + back, transform).reports == self.siblings_outcome(
                front,
                transform,
            ).reports + self.siblings_outcome(back, transform).reports,
            self.siblings_outcome(front + back, transform).diagnostics == self.siblings_outcome(
                front,
                transform,
            ).diagnostics + self.siblings_outcome(back, transform).diagnostics,
        decreases back.len(),
    {
        let whole = self.siblings_outcome(front + back, transform);
        let head = self.siblings_outcome(front, transform);
        let tail = self.siblings_outcome(back, transform);
        if back.len() == 0 {
            assert(front + back =~= front);
            assert(whole.nodes =~= head.nodes + tail.nodes);
            assert(whole.reports =~= head.reports + tail.reports);
            assert(whole.diagnostics =~= head.diagnostics + tail.diagnostics);
        } else {
            self.law_siblings_keep_their_order(front, back.drop_last(), transform);
            assert((front + back).drop_last() =~= front + back.drop_last());
            assert((front + back).last() == back.last());
            let shorter = self.siblings_outcome(back.drop_last(), transform);
            let last = self.node_outcome(back.last(), transform);
            assert(whole.nodes =~= head.nodes + (shorter.nodes + last.nodes));
            assert(whole.reports =~= head.reports + shorter.reports.push(last.bboxes));
            assert(whole.diagnostics =~= head.diagnostics + (shorter.diagnostics
                + last.diagnostics));
        }
    }

    /// A group that is not marked for isolation, has no clip path, no mask and
    /// no filter, and blends normally, leaves no node of its own: the nodes of
    /// its children stand in its place, in their order, and it reports the
    /// gathered boxes of its children.
    pub proof fn law_plain_group_is_flattened(&self, group: SceneGroup<D>, inherited: D::Transform)
        requires
            !group.isolate,
            group.clip_path is None,
            group.mask is None,
            group.filters@.len() == 0,
            group.blend_mode == BlendMode::Normal,
        ensures
            ({
                let kids = self.siblings_outcome(
                    group.children@,
                    self.composed(inherited, group.transform),
                );
                let outcome = self.node_outcome(SceneNode::Group(group), inherited);
                &&& outcome.nodes == kids.nodes
                &&& outcome.bboxes == self.gathered(kids.reports)
                &&& outcome.diagnostics == kids.diagnostics
            }),
    {
    }

    /// A group that needs a layer becomes one `Group` node or nothing.
    ///
    /// Where a region is found for it, the node is the layer that
    /// [`Resolvers::layer_view`] describes, and the group reports the region
    /// as its layer box. Where none is found, the group leaves no node and
    /// reports no boxes. The diagnostics of its children are kept either way.
    pub proof fn law_isolated_group_is_one_layer_or_nothing(
        &self,
        group: SceneGroup<D>,
        inherited: D::Transform,
    )
        requires
            group.isolates(),
        ensures
            ({
                let transform = self.composed(inherited, group.transform);
                let kids = self.siblings_outcome(group.children@, transform);
                let gathered = self.gathered(kids.reports);
                let outcome = self.node_outcome(SceneNode::Group(group), inherited);
                &&& outcome.diagnostics == kids.diagnostics
                &&& self.layer_region(group, transform, gathered) matches Some(region)
                    ==> outcome.nodes == seq![
                    NodeView::Group(self.layer_view(group, transform, kids.nodes, gathered, region)),
                ] && outcome.bboxes == Some((region, self.layer_object(gathered)))
                &&& self.layer_region(group, transform, gathered) is None ==> outcome.nodes
                    == Seq::<NodeView<D>>::empty() && outcome.bboxes is None
            }),
    {
    }

    /// A group with a filter chain whose region resolves is never flattened:
    /// it becomes exactly one `Group` node, whose box is the resolved region
    /// and which carries the resolved filters. This holds for a group with a
    /// single child and for a group whose children paint nothing.
    pub proof fn law_filtered_group_is_a_layer(&self, group: SceneGroup<D>, inherited: D::Transform)
        requires
            group.filters@.len() > 0,
            ({
                let transform = self.composed(inherited, group.transform);
                let kids = self.siblings_outcome(group.children@, transform);
                self.filter_result(group, transform, self.gathered(kids.reports)).1 is Some
            }),
        ensures
            ({
                let transform = self.composed(inherited, group.transform);
                let kids = self.siblings_outcome(group.children@, transform);
                let gathered = self.gathered(kids.reports);
                let resolved = self.filter_result(group, transform, gathered);
                let outcome = self.node_outcome(SceneNode::Group(group), inherited);
                &&& outcome.nodes.len() == 1
                &&& outcome.nodes[0] matches NodeView::Group(layer)
                &&& layer.bbox == resolved.1->Some_0
                &&& layer.filters == resolved.0
                &&& layer.children == if gathered is Some {
                    kids.nodes
                } else {
                    Seq::empty()
                }
                &&& outcome.layer() == resolved.1
            }),
    {
    }

    /// The paints that the filters of a layer read are resolved at full
    /// opacity and for the final box of the layer: the opacity of the group is
    /// applied once, when the layer is composited, and is handed on unchanged.
    pub proof fn law_filter_paints_are_fully_opaque(
        &self,
        group: SceneGroup<D>,
        inherited: D::Transform,
    )
        requires
            group.isolates(),
            self.node_outcome(SceneNode::Group(group), inherited).nodes.len() == 1,
            self.node_outcome(SceneNode::Group(group), inherited).nodes[0] is Group,
        ensures
            ({
                let layer = self.node_outcome(SceneNode::Group(group), inherited).nodes[0]->Group_0;
                &&& layer.opacity == group.opacity
                &&& layer.blend_mode == composite_of(group.blend_mode)
                &&& layer.filter_fill == match group.filter_fill {
                    Some(paint) => self.painted(paint, self.full_opacity, layer.bbox),
                    None => None,
                }
                &&& layer.filter_stroke == match group.filter_stroke {
                    Some(paint) => self.painted(paint, self.full_opacity, layer.bbox),
                    None => None,
                }
            }),
    {
    }

    /// A group whose filter chain resolves to no region is dropped with
    /// everything under it, whatever its descendants would have painted: it
    /// adds no node and reports no boxes.
    pub proof fn law_unresolved_filter_drops_the_group(
        &self,
        group: SceneGroup<D>,
        inherited: D::Transform,
    )
        requires
            group.filters@.len() > 0,
            ({
                let transform = self.composed(inherited, group.transform);
                let kids = self.siblings_outcome(group.children@, transform);
                self.filter_result(group, transform, self.gathered(kids.reports)).1 is None
            }),
        ensures
            self.node_outcome(SceneNode::Group(group), inherited).nodes == Seq::<
                NodeView<D>,
            >::empty(),
            self.node_outcome(SceneNode::Group(group), inherited).bboxes is None,
    {
    }

    /// A group that needs a layer but has neither content nor filters leaves
    /// nothing: no node, no boxes.
    pub proof fn law_layer_without_content_is_dropped(
        &self,
        group: SceneGroup<D>,
        inherited: D::Transform,
    )
        requires
            group.isolates(),
            group.filters@.len() == 0,
            ({
                let kids = self.siblings_outcome(
                    group.children@,
                    self.composed(inherited, group.transform),
                );
                self.gathered(kids.reports) is None
            }),
        ensures
            self.node_outcome(SceneNode::Group(group), inherited).nodes == Seq::<
                NodeView<D>,
            >::empty(),
            self.node_outcome(SceneNode::Group(group), inherited).bboxes is None,
    {
    }

    /// A group is visible only if both of its unions hold content: whenever a
    /// group reports boxes that it gathered from its children, the layer box
    /// and the object box both hold content.
    pub proof fn law_gathered_boxes_hold_content(
        &self,
        reports: Seq<Option<(D::Bbox, D::Bbox)>>,
    )
        ensures
            self.gathered(reports) matches Some((layer, object)) ==> self.is_content(layer)
                && self.is_content(object) && (layer, object) == self.accumulated(reports),
            self.gathered(reports) is None <==> !self.is_content(self.accumulated(reports).0)
                || !self.is_content(self.accumulated(reports).1),
    {
    }

    /// Unions that no child widened stay at "no content": if no child of a
    /// group reports boxes, and the box that stands for "no content" is told
    /// from content, the group gathers nothing.
    pub proof fn law_group_without_reports_gathers_nothing(
        &self,
        reports: Seq<Option<(D::Bbox, D::Bbox)>>,
    )
        requires
            !self.is_content(self.no_content),
            forall|i: int| 0 <= i < reports.len() ==> reports[i] is None,
        ensures
            self.accumulated(reports) == (self.no_content, self.no_content),
            self.gathered(reports) is None,
        decreases reports.len(),
    {
        if reports.len() > 0 {
            self.law_group_without_reports_gathers_nothing(reports.drop_last());
            lemma_accumulated_push(self.union, self.no_content, reports.drop_last(), reports.last());
            assert(reports.drop_last().push(reports.last()) =~= reports);
        }
    }

    /// The first child to report sets the unions: if the union with "no
    /// content" leaves a box as it is, a group with one reporting child has
    /// the boxes of that child as its unions.
    pub proof fn law_single_report_sets_the_unions(&self, layer: D::Bbox, object: D::Bbox)
        requires
            self.united(self.no_content, layer) == layer,
            self.united(self.no_content, object) == object,
        ensures
            self.accumulated(seq![Some((layer, object))]) == (layer, object),
    {
        lemma_accumulated_push(self.union, self.no_content, Seq::empty(), Some((layer, object)));
        assert(Seq::<Option<(D::Bbox, D::Bbox)>>::empty().push(Some((layer, object))) =~= seq![
            Some((layer, object)),
        ]);
    }

    /// With an exact union, the gathered boxes of a group do not depend on the
    /// order of its children: two lists of reports that hold the same reports,
    /// however arranged, gather to the same boxes.
    pub proof fn law_gathering_ignores_order(
        &self,
        first: Seq<Option<(D::Bbox, D::Bbox)>>,
        second: Seq<Option<(D::Bbox, D::Bbox)>>,
    )
        requires
            union_is_exact(self.union),
            first.to_multiset() == second.to_multiset(),
        ensures
            self.accumulated(first) == self.accumulated(second),
            self.gathered(first) == self.gathered(second),
    {
        law_accumulation_ignores_order(self.union, self.no_content, first, second);
    }

    /// A text node between siblings is skipped: the nodes and the gathered
    /// boxes are those of the siblings without it, and one diagnostic stands
    /// where the text stood.
    pub proof fn law_text_is_skipped(
        &self,
        front: Seq<SceneNode<D>>,
        back: Seq<SceneNode<D>>,
        transform: D::Transform,
    )
        ensures
            ({
                let with_text = self.siblings_outcome(front.push(SceneNode::Text) + back, transform);
                let without = self.siblings_outcome(front + back, transform);
                let head = self.siblings_outcome(front, transform);
                let tail = self.siblings_outcome(back, transform);
                &&& with_text.nodes == without.nodes
                &&& with_text.nodes == head.nodes + tail.nodes
                &&& self.gathered(with_text.reports) == self.gathered(without.reports)
                &&& with_text.diagnostics == head.diagnostics.push(Diagnostic::TextSkipped)
                    + tail.diagnostics
            }),
    {
        let text = SceneNode::<D>::Text;
        let head = self.siblings_outcome(front, transform);
        let tail = self.siblings_outcome(back, transform);
        let padded = self.siblings_outcome(front.push(text), transform);
        self.law_siblings_keep_their_order(front.push(text), back, transform);
        self.law_siblings_keep_their_order(front, back, transform);
        assert(front.push(text).drop_last() =~= front);
        assert(front.push(text).last() == text);
        assert(self.node_outcome(text, transform).nodes =~= Seq::empty());
        assert(padded.nodes == head.nodes + self.node_outcome(text, transform).nodes);
        assert(padded.nodes =~= head.nodes);
        assert(padded.reports == head.reports.push(None));
        assert(padded.diagnostics =~= head.diagnostics.push(Diagnostic::TextSkipped));
        lemma_absent_report_changes_nothing(self.union, self.no_content, head.reports, tail.reports);
    }

    /// Every text node raises one diagnostic, and nothing else raises any:
    /// whether a group is flattened, kept or dropped, the text nodes under it
    /// are all reported.
    pub proof fn law_every_text_node_is_reported(&self, node: SceneNode<D>, transform: D::Transform)
        ensures
            self.node_outcome(node, transform).diagnostics == Seq::new(
                node.text_nodes(),
                |i: int| Diagnostic::TextSkipped,
            ),
        decreases node,
    {
        match node {
            SceneNode::Group(group) => {
                self.lemma_text_nodes_among_are_reported(
                    group.children@,
                    self.composed(transform, group.transform),
                );
            },
            SceneNode::Text => {
                assert(self.node_outcome(node, transform).diagnostics =~= Seq::new(
                    1,
                    |i: int| Diagnostic::TextSkipped,
                ));
            },
            _ => {
                assert(self.node_outcome(node, transform).diagnostics =~= Seq::new(
                    0,
                    |i: int| Diagnostic::TextSkipped,
                ));
            },
        }
    }

    proof fn lemma_text_nodes_among_are_reported(
        &self,
        siblings: Seq<SceneNode<D>>,
        transform: D::Transform,
    )
        ensures
            self.siblings_outcome(siblings, transform).diagnostics == Seq::new(
                SceneNode::text_nodes_among(siblings),
                |i: int| Diagnostic::TextSkipped,
            ),
        decreases siblings,
    {
        if siblings.len() == 0 {
            assert(self.siblings_outcome(siblings, transform).diagnostics =~= Seq::new(
                0,
                |i: int| Diagnostic::TextSkipped,
            ));
        } else {
            self.lemma_text_nodes_among_are_reported(siblings.drop_last(), transform);
            self.law_every_text_node_is_reported(siblings.last(), transform);
            assert(self.siblings_outcome(siblings, transform).diagnostics =~= Seq::new(
                SceneNode::text_nodes_among(siblings),
                |i: int| Diagnostic::TextSkipped,
            ));
        }
    }
}

/// Every blend mode has its own compositing operator: two modes that are
/// rendered by the same operator are the same mode.
pub proof fn law_blend_modes_map_one_to_one(first: BlendMode, second: BlendMode)
    ensures
        blend_mode_of(composite_of(first)) == Some(first),
        composite_of(first) == composite_of(second) ==> first == second,
{
    assert(blend_mode_of(composite_of(second)) == Some(second));
}

} // verus!
