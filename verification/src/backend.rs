//! The types a backend works with and the functions it supplies.
//!
//! The pass never looks inside a transform, a bounding box or a payload. It
//! asks the functions held in [`Resolvers`] instead, and its contracts speak of
//! what those functions return: [`Resolvers::composed`], [`Resolvers::united`]
//! and so on name the one value each function gives for an argument.

use vstd::prelude::*;
use crate::accumulate::{holds_content, united};
use crate::node::{nodes_view, Node, NodeView};

verus! {

/// The types of one backend: its geometry, what the scene holds, and what the
/// paint tree holds.
pub trait Backend: Sized {
    /// An affine transform into device space.
    type Transform: Copy;

    /// An axis-aligned bounding box in device space.
    type Bbox: Copy;

    /// A rectangle with an area.
    type Rect: Copy;

    /// A width and a height.
    type Size: Copy;

    /// An opacity between nothing and full.
    type Opacity: Copy;

    /// The geometry and paint of a shape of the scene.
    type Shape;

    /// An image of the scene.
    type Picture;

    /// A reference to a clip path of the scene.
    type ClipRef;

    /// A reference to a mask of the scene.
    type MaskRef;

    /// One filter of a group's filter chain.
    type FilterRef;

    /// A paint as the scene describes it.
    type PaintRef;

    /// A shape ready to be filled.
    type FillPath;

    /// A shape ready to be stroked.
    type StrokePath;

    /// An image ready to be drawn.
    type Image;

    /// A clip path resolved for one group.
    type ClipPath;

    /// A mask resolved for one group.
    type Mask;

    /// A filter resolved for one group.
    type Filter;

    /// A paint resolved for one region.
    type Paint;
}

/// What a shape or an image turns into: the nodes to paint, in paint order, and
/// its bounding boxes as `(layer, object)`. Without boxes the leaf takes no part
/// in the bounding boxes of its ancestors.
pub struct Leaf<D: Backend> {
    pub nodes: Vec<Node<D>>,
    pub bboxes: Option<(D::Bbox, D::Bbox)>,
}

/// What a [`Leaf`] is.
pub struct LeafView<D: Backend> {
    pub nodes: Seq<NodeView<D>>,
    pub bboxes: Option<(D::Bbox, D::Bbox)>,
}

impl<D: Backend> View for Leaf<D> {
    type V = LeafView<D>;

    open spec fn view(&self) -> LeafView<D> {
        LeafView { nodes: nodes_view(self.nodes@), bboxes: self.bboxes }
    }
}

/// The values and functions of a backend.
///
/// The functions are held as they are given, each with a type of its own.
pub struct Resolvers<D: Backend, Compose, Unite, HasContent, Measure, Shapes, Images, Filters, Paints, Clips, Masks> {
    /// The transform that changes nothing.
    pub identity: D::Transform,
    /// The box that stands for "no content".
    pub no_content: D::Bbox,
    /// The box from the origin to (1, 1).
    pub unit_square: D::Bbox,
    pub full_opacity: D::Opacity,
    /// Applies a local transform inside an inherited one.
    pub compose: Compose,
    /// The smallest box around two boxes. The box that stands for "no content"
    /// is expected to leave the other box as it is.
    pub union: Unite,
    /// Tells a box with content from the one that stands for "no content",
    /// with whatever tolerance the geometry needs.
    pub has_content: HasContent,
    /// The size of a rectangle.
    pub size_of: Measure,
    /// Turns a shape into its fill and stroke nodes under a transform.
    pub convert_shape: Shapes,
    /// Places an image under a transform.
    pub convert_image: Images,
    /// Resolves a filter chain against a layer box, an object box and a
    /// transform. The boxes are absent for a group without painted children.
    /// Returns the resolved filters and the region they paint into; no region
    /// means that the chain cannot be rendered.
    pub resolve_filters: Filters,
    /// Resolves a paint at an opacity for a region.
    pub resolve_paint: Paints,
    /// Resolves a clip path against an object box and a transform.
    pub resolve_clip: Clips,
    /// Resolves a mask against an object box and a transform.
    pub resolve_mask: Masks,
}

impl<D, Compose, Unite, HasContent, Measure, Shapes, Images, Filters, Paints, Clips, Masks> Resolvers<
    D,
    Compose,
    Unite,
    HasContent,
    Measure,
    Shapes,
    Images,
    Filters,
    Paints,
    Clips,
    Masks,
> where
    D: Backend,
    Compose: Fn(D::Transform, D::Transform) -> D::Transform,
    Unite: Fn(D::Bbox, D::Bbox) -> D::Bbox,
    HasContent: Fn(D::Bbox) -> bool,
    Measure: Fn(D::Rect) -> D::Size,
    Shapes: Fn(&D::Shape, D::Transform) -> Leaf<D>,
    Images: Fn(&D::Picture, D::Transform) -> Leaf<D>,
    Filters: Fn(&Vec<D::FilterRef>, Option<D::Bbox>, Option<D::Bbox>, D::Transform) -> (
        Vec<D::Filter>,
        Option<D::Bbox>,
    ),
    Paints: Fn(&D::PaintRef, D::Opacity, D::Bbox) -> Option<D::Paint>,
    Clips: Fn(&D::ClipRef, D::Bbox, D::Transform) -> Option<D::ClipPath>,
    Masks: Fn(&D::MaskRef, D::Bbox, D::Transform) -> Option<D::Mask>,
 {
    /// Every function can be called on every argument.
    pub open spec fn callable(&self) -> bool {
        &&& forall|a: D::Transform, b: D::Transform| call_requires(self.compose, (a, b))
        &&& forall|a: D::Bbox, b: D::Bbox| call_requires(self.union, (a, b))
        &&& forall|a: D::Bbox| call_requires(self.has_content, (a,))
        &&& forall|a: D::Rect| call_requires(self.size_of, (a,))
        &&& forall|s: &D::Shape, t: D::Transform| call_requires(self.convert_shape, (s, t))
        &&& forall|p: &D::Picture, t: D::Transform| call_requires(self.convert_image, (p, t))
        &&& forall|c: &Vec<D::FilterRef>, l: Option<D::Bbox>, o: Option<D::Bbox>, t: D::Transform|
            call_requires(self.resolve_filters, (c, l, o, t))
        &&& forall|p: &D::PaintRef, a: D::Opacity, b: D::Bbox|
            call_requires(self.resolve_paint, (p, a, b))
        &&& forall|c: &D::ClipRef, b: D::Bbox, t: D::Transform|
            call_requires(self.resolve_clip, (c, b, t))
        &&& forall|m: &D::MaskRef, b: D::Bbox, t: D::Transform|
            call_requires(self.resolve_mask, (m, b, t))
    }

    /// Every function gives one result for one argument: whatever two calls
    /// may return for the same argument has the same view.
    pub open spec fn single_valued(&self) -> bool {
        &&& forall|a: D::Transform, b: D::Transform, r1: D::Transform, r2: D::Transform|
            call_ensures(self.compose, (a, b), r1) && call_ensures(self.compose, (a, b), r2)
                ==> r1 == r2
        &&& forall|a: D::Bbox, b: D::Bbox, r1: D::Bbox, r2: D::Bbox|
            call_ensures(self.union, (a, b), r1) && call_ensures(self.union, (a, b), r2) ==> r1
                == r2
        &&& forall|a: D::Bbox, r1: bool, r2: bool|
            call_ensures(self.has_content, (a,), r1) && call_ensures(self.has_content, (a,), r2)
                ==> r1 == r2
        &&& forall|a: D::Rect, r1: D::Size, r2: D::Size|
            call_ensures(self.size_of, (a,), r1) && call_ensures(self.size_of, (a,), r2) ==> r1
                == r2
        &&& forall|s: &D::Shape, t: D::Transform, r1: Leaf<D>, r2: Leaf<D>|
            call_ensures(self.convert_shape, (s, t), r1) && call_ensures(
                self.convert_shape,
                (s, t),
                r2,
            ) ==> r1@ == r2@
        &&& forall|p: &D::Picture, t: D::Transform, r1: Leaf<D>, r2: Leaf<D>|
            call_ensures(self.convert_image, (p, t), r1) && call_ensures(
                self.convert_image,
                (p, t),
                r2,
            ) ==> r1@ == r2@
        &&& forall|
            c: &Vec<D::FilterRef>,
            l: Option<D::Bbox>,
            o: Option<D::Bbox>,
            t: D::Transform,
            r1: (Vec<D::Filter>, Option<D::Bbox>),
            r2: (Vec<D::Filter>, Option<D::Bbox>),
        |
            call_ensures(self.resolve_filters, (c, l, o, t), r1) && call_ensures(
                self.resolve_filters,
                (c, l, o, t),
                r2,
            ) ==> r1.0@ == r2.0@ && r1.1 == r2.1
        &&& forall|p: &D::PaintRef, a: D::Opacity, b: D::Bbox, r1: Option<D::Paint>, r2: Option<D::Paint>|
            call_ensures(self.resolve_paint, (p, a, b), r1) && call_ensures(
                self.resolve_paint,
                (p, a, b),
                r2,
            ) ==> r1 == r2
        &&& forall|
            c: &D::ClipRef,
            b: D::Bbox,
            t: D::Transform,
            r1: Option<D::ClipPath>,
            r2: Option<D::ClipPath>,
        |
            call_ensures(self.resolve_clip, (c, b, t), r1) && call_ensures(
                self.resolve_clip,
                (c, b, t),
                r2,
            ) ==> r1 == r2
        &&& forall|
            m: &D::MaskRef,
            b: D::Bbox,
            t: D::Transform,
            r1: Option<D::Mask>,
            r2: Option<D::Mask>,
        |
            call_ensures(self.resolve_mask, (m, b, t), r1) && call_ensures(
                self.resolve_mask,
                (m, b, t),
                r2,
            ) ==> r1 == r2
    }

    /// What the pass asks of its resolvers: they can be called on every
    /// argument, and they are functions of their arguments.
    pub open spec fn well_formed(&self) -> bool {
        self.callable() && self.single_valued()
    }

    /// The local transform applied inside the inherited one.
    pub open spec fn composed(&self, inherited: D::Transform, local: D::Transform) -> D::Transform {
        choose|r: D::Transform| call_ensures(self.compose, (inherited, local), r)
    }

    /// The union of two boxes.
    pub open spec fn united(&self, a: D::Bbox, b: D::Bbox) -> D::Bbox {
        united(self.union, a, b)
    }

    /// Whether a box holds content.
    pub open spec fn is_content(&self, bbox: D::Bbox) -> bool {
        holds_content(self.has_content, bbox)
    }

    /// The size of a rectangle.
    pub open spec fn extent(&self, rect: D::Rect) -> D::Size {
        choose|r: D::Size| call_ensures(self.size_of, (rect,), r)
    }

    /// What a shape turns into under a transform.
    pub open spec fn shape_leaf(&self, shape: D::Shape, transform: D::Transform) -> LeafView<D> {
        (choose|r: Leaf<D>| call_ensures(self.convert_shape, (&shape, transform), r))@
    }

    /// What an image turns into under a transform.
    pub open spec fn image_leaf(&self, picture: D::Picture, transform: D::Transform) -> LeafView<D> {
        (choose|r: Leaf<D>| call_ensures(self.convert_image, (&picture, transform), r))@
    }

    /// The resolved filters of a chain and the region they paint into.
    pub open spec fn filtered(
        &self,
        chain: Vec<D::FilterRef>,
        layer: Option<D::Bbox>,
        object: Option<D::Bbox>,
        transform: D::Transform,
    ) -> (Seq<D::Filter>, Option<D::Bbox>) {
        let r = choose|r: (Vec<D::Filter>, Option<D::Bbox>)|
            call_ensures(self.resolve_filters, (&chain, layer, object, transform), r);
        (r.0@, r.1)
    }

    /// A paint resolved at an opacity for a region.
    pub open spec fn painted(&self, paint: D::PaintRef, opacity: D::Opacity, region: D::Bbox) -> Option<
        D::Paint,
    > {
        choose|r: Option<D::Paint>| call_ensures(self.resolve_paint, (&paint, opacity, region), r)
    }

    /// A clip path resolved against an object box and a transform.
    pub open spec fn clipped(&self, clip: D::ClipRef, object: D::Bbox, transform: D::Transform) -> Option<
        D::ClipPath,
    > {
        choose|r: Option<D::ClipPath>| call_ensures(self.resolve_clip, (&clip, object, transform), r)
    }

    /// A mask resolved against an object box and a transform.
    pub open spec fn masked(&self, mask: D::MaskRef, object: D::Bbox, transform: D::Transform) -> Option<
        D::Mask,
    > {
        choose|r: Option<D::Mask>| call_ensures(self.resolve_mask, (&mask, object, transform), r)
    }

    /// The paint a filter reads, resolved at full opacity for the layer's
    /// region; nothing where the group declares no such paint. Opacity is
    /// applied once, when the layer is composited.
    pub open spec fn painted_if_present(&self, paint: Option<D::PaintRef>, region: D::Bbox) -> Option<
        D::Paint,
    > {
        match paint {
            Some(paint) => self.painted(paint, self.full_opacity, region),
            None => None,
        }
    }

    /// The resolved clip path of a group; nothing where the group has none.
    pub open spec fn clipped_if_present(
        &self,
        clip: Option<D::ClipRef>,
        object: D::Bbox,
        transform: D::Transform,
    ) -> Option<D::ClipPath> {
        match clip {
            Some(clip) => self.clipped(clip, object, transform),
            None => None,
        }
    }

    /// The resolved mask of a group; nothing where the group has none.
    pub open spec fn masked_if_present(
        &self,
        mask: Option<D::MaskRef>,
        object: D::Bbox,
        transform: D::Transform,
    ) -> Option<D::Mask> {
        match mask {
            Some(mask) => self.masked(mask, object, transform),
            None => None,
        }
    }

    /// Applies `local` inside `inherited`.
    pub fn compose_transforms(&self, inherited: D::Transform, local: D::Transform) -> (r:
        D::Transform)
        requires
            self.well_formed(),
        ensures
            r == self.composed(inherited, local),
    {
        (self.compose)(inherited, local)
    }

    /// Measures a rectangle.
    pub fn measure(&self, rect: D::Rect) -> (r: D::Size)
        requires
            self.well_formed(),
        ensures
            r == self.extent(rect),
    {
        (self.size_of)(rect)
    }

    /// Converts a shape under a transform.
    pub fn shape(&self, shape: &D::Shape, transform: D::Transform) -> (r: Leaf<D>)
        requires
            self.well_formed(),
        ensures
            r@ == self.shape_leaf(*shape, transform),
    {
        (self.convert_shape)(shape, transform)
    }

    /// Converts an image under a transform.
    pub fn image(&self, picture: &D::Picture, transform: D::Transform) -> (r: Leaf<D>)
        requires
            self.well_formed(),
        ensures
            r@ == self.image_leaf(*picture, transform),
    {
        (self.convert_image)(picture, transform)
    }

    /// Resolves a filter chain.
    pub fn filter(
        &self,
        chain: &Vec<D::FilterRef>,
        layer: Option<D::Bbox>,
        object: Option<D::Bbox>,
        transform: D::Transform,
    ) -> (r: (Vec<D::Filter>, Option<D::Bbox>))
        requires
            self.well_formed(),
        ensures
            (r.0@, r.1) == self.filtered(*chain, layer, object, transform),
    {
        (self.resolve_filters)(chain, layer, object, transform)
    }

    /// Resolves a paint that is present, at full opacity, for a region.
    pub fn paint(&self, paint: &Option<D::PaintRef>, region: D::Bbox) -> (r: Option<D::Paint>)
        requires
            self.well_formed(),
        ensures
            r == self.painted_if_present(*paint, region),
    {
        match paint {
            Some(paint) => (self.resolve_paint)(paint, self.full_opacity, region),
            None => None,
        }
    }

    /// Resolves a clip path that is present.
    pub fn clip(&self, clip: &Option<D::ClipRef>, object: D::Bbox, transform: D::Transform) -> (r:
        Option<D::ClipPath>)
        requires
            self.well_formed(),
        ensures
            r == self.clipped_if_present(*clip, object, transform),
    {
        match clip {
            Some(clip) => (self.resolve_clip)(clip, object, transform),
            None => None,
        }
    }

    /// Resolves a mask that is present.
    pub fn mask(&self, mask: &Option<D::MaskRef>, object: D::Bbox, transform: D::Transform) -> (r:
        Option<D::Mask>)
        requires
            self.well_formed(),
        ensures
            r == self.masked_if_present(*mask, object, transform),
    {
        match mask {
            Some(mask) => (self.resolve_mask)(mask, object, transform),
            None => None,
        }
    }
}

} // verus!
