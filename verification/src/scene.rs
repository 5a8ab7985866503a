//! The scene graph that the pass reads, and the frame of a document.

use vstd::prelude::*;
use crate::backend::Backend;
use crate::blend::BlendMode;

verus! {

/// A note about content that the pass left out.
#[derive(Clone, Copy, Debug, PartialEq, Eq, Structural)]
pub enum Diagnostic {
    /// A text node was met. Text has to be turned into shapes beforehand; the
    /// node was skipped.
    TextSkipped,
    /// A tree was asked for a node whose own bounding box has no area.
    ZeroSizedNode,
}

/// Where a view box is placed inside a viewport of another aspect ratio.
#[derive(Clone, Copy, Debug, PartialEq, Eq, Structural)]
pub enum Align {
    /// No alignment: the view box is stretched to fill the viewport.
    Stretch,
    XMinYMin,
    XMidYMin,
    XMaxYMin,
    XMinYMid,
    XMidYMid,
    XMaxYMid,
    XMinYMax,
    XMidYMax,
    XMaxYMax,
}

/// How a view box is fitted into a viewport.
#[derive(Clone, Copy, Debug, PartialEq, Eq, Structural)]
pub struct AspectRatio {
    pub defer: bool,
    pub align: Align,
    /// `true` to cover the viewport and cut what sticks out, `false` to fit
    /// inside it.
    pub slice: bool,
}

impl AspectRatio {
    /// The policy of a document that states none: centred, fitted inside.
    pub open spec fn neutral() -> AspectRatio {
        AspectRatio { defer: false, align: Align::XMidYMid, slice: false }
    }
}

impl Default for AspectRatio {
    fn default() -> (r: AspectRatio)
        ensures
            r == AspectRatio::neutral(),
    {
        AspectRatio { defer: false, align: Align::XMidYMid, slice: false }
    }
}

/// The part of the document that is shown, and how it is fitted.
pub struct ViewBox<D: Backend> {
    pub rect: D::Rect,
    pub aspect: AspectRatio,
}

/// A group of the scene.
pub struct SceneGroup<D: Backend> {
    /// The group's own transform, relative to its parent.
    pub transform: D::Transform,
    pub opacity: D::Opacity,
    pub blend_mode: BlendMode,
    /// Set when the group has to be composited as a unit for a reason that the
    /// other fields do not show: isolation was asked for, or the opacity is
    /// below full.
    pub isolate: bool,
    pub clip_path: Option<D::ClipRef>,
    pub mask: Option<D::MaskRef>,
    pub filters: Vec<D::FilterRef>,
    /// The paint a filter reads as its fill input, when a filter reads one.
    pub filter_fill: Option<D::PaintRef>,
    /// The paint a filter reads as its stroke input, when a filter reads one.
    pub filter_stroke: Option<D::PaintRef>,
    /// The children, in paint order.
    pub children: Vec<SceneNode<D>>,
}

/// A node of the scene.
pub enum SceneNode<D: Backend> {
    Group(SceneGroup<D>),
    Shape(D::Shape),
    Image(D::Picture),
    /// Text that was not turned into shapes. It cannot be painted.
    Text,
}

/// A whole document.
pub struct SceneTree<D: Backend> {
    pub size: D::Size,
    pub view_box: ViewBox<D>,
    pub root: SceneNode<D>,
}

impl<D: Backend> SceneNode<D> {
    /// The number of text nodes in a node and everything under it.
    pub open spec fn text_nodes(self) -> nat
        decreases self,
    {
        match self {
            SceneNode::Group(group) => Self::text_nodes_among(group.children@),
            SceneNode::Text => 1,
            _ => 0,
        }
    }

    /// The number of text nodes in a list of siblings and everything under
    /// them.
    pub open spec fn text_nodes_among(siblings: Seq<SceneNode<D>>) -> nat
        decreases siblings,
    {
        if siblings.len() == 0 {
            0
        } else {
            Self::text_nodes_among(siblings.drop_last()) + siblings.last().text_nodes()
        }
    }
}

impl<D: Backend> SceneGroup<D> {
    /// Whether the group needs a compositing layer of its own: it is marked so,
    /// or it has a clip path, a mask, a filter, or a blend mode other than
    /// `Normal`.
    pub open spec fn isolates(&self) -> bool {
        ||| self.isolate
        ||| self.clip_path is Some
        ||| self.mask is Some
        ||| self.filters@.len() > 0
        ||| self.blend_mode != BlendMode::Normal
    }

    /// Decides whether the group becomes a layer (`true`) or is flattened into
    /// its parent (`false`).
    pub fn should_isolate(&self) -> (r: bool)
        ensures
            r == self.isolates(),
    {
        self.isolate || self.clip_path.is_some() || self.mask.is_some() || self.filters.len() > 0
            || self.blend_mode != BlendMode::Normal
    }
}

} // verus!
