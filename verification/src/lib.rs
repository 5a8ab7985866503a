//! A compiler pass from a vector-graphics scene graph to a flattened paint tree.
//!
//! The input is a tree of groups, shapes, images and text nodes that carry local
//! transforms. The output is a display list in device coordinates: every leaf is
//! already transformed, every compositing layer is already decided, and every
//! layer carries its bounding box.
//!
//! The pass is generic over a [`Backend`], which names the geometry and payload
//! types, and it is driven by a set of [`Resolvers`], the functions that do the
//! geometry and build the payloads. The pass asks of them that they can be
//! called on every argument and that they are functions of their arguments
//! ([`Resolvers::well_formed`]). Everything the pass decides by itself (which
//! groups become layers, which subtrees are dropped, in what order nodes come
//! out, how bounding boxes are gathered) is stated in contracts over
//! [`Resolvers::node_outcome`] and proved; the module [`laws`] holds what
//! follows for every scene.

pub mod accumulate;
pub mod backend;
pub mod blend;
pub mod convert;
pub mod laws;
pub mod node;
pub mod option_log;
pub mod outcome;
pub mod scene;

pub use accumulate::Accumulator;
pub use backend::{Backend, Leaf, LeafView, Resolvers};
pub use blend::{convert_blend_mode, BlendMode, CompositeOp};
pub use convert::convert_node;
pub use node::{Group, GroupView, Node, NodeView, Tree, TreeView};
pub use option_log::OptionLog;
pub use outcome::{Outcome, Siblings};
pub use scene::{Align, AspectRatio, Diagnostic, SceneGroup, SceneNode, SceneTree, ViewBox};
