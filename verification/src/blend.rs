//! Blend modes of the scene and the compositing operators of the backend.

use vstd::prelude::*;

verus! {

/// How a group is mixed with what lies beneath it, as the scene states it.
#[derive(Clone, Copy, Debug, PartialEq, Eq, Structural)]
pub enum BlendMode {
    Normal,
    Multiply,
    Screen,
    Overlay,
    Darken,
    Lighten,
    ColorDodge,
    ColorBurn,
    HardLight,
    SoftLight,
    Difference,
    Exclusion,
    Hue,
    Saturation,
    Color,
    Luminosity,
}

/// The compositing operators a rasterizer offers: the Porter-Duff operators
/// followed by the separable and the non-separable blend functions.
#[derive(Clone, Copy, Debug, PartialEq, Eq, Structural)]
pub enum CompositeOp {
    Clear,
    Source,
    Destination,
    SourceOver,
    DestinationOver,
    SourceIn,
    DestinationIn,
    SourceOut,
    DestinationOut,
    SourceAtop,
    DestinationAtop,
    Xor,
    Plus,
    Modulate,
    Screen,
    Overlay,
    Darken,
    Lighten,
    ColorDodge,
    ColorBurn,
    HardLight,
    SoftLight,
    Difference,
    Exclusion,
    Multiply,
    Hue,
    Saturation,
    Color,
    Luminosity,
}

/// The operator that renders a blend mode: plain source-over for `Normal`, and
/// the operator of the same name for every other mode.
pub open spec fn composite_of(mode: BlendMode) -> CompositeOp {
    match mode {
        BlendMode::Normal => CompositeOp::SourceOver,
        BlendMode::Multiply => CompositeOp::Multiply,
        BlendMode::Screen => CompositeOp::Screen,
        BlendMode::Overlay => CompositeOp::Overlay,
        BlendMode::Darken => CompositeOp::Darken,
        BlendMode::Lighten => CompositeOp::Lighten,
        BlendMode::ColorDodge => CompositeOp::ColorDodge,
        BlendMode::ColorBurn => CompositeOp::ColorBurn,
        BlendMode::HardLight => CompositeOp::HardLight,
        BlendMode::SoftLight => CompositeOp::SoftLight,
        BlendMode::Difference => CompositeOp::Difference,
        BlendMode::Exclusion => CompositeOp::Exclusion,
        BlendMode::Hue => CompositeOp::Hue,
        BlendMode::Saturation => CompositeOp::Saturation,
        BlendMode::Color => CompositeOp::Color,
        BlendMode::Luminosity => CompositeOp::Luminosity,
    }
}

/// The blend mode that an operator renders, if it renders one.
pub open spec fn blend_mode_of(op: CompositeOp) -> Option<BlendMode> {
    match op {
        CompositeOp::SourceOver => Some(BlendMode::Normal),
        CompositeOp::Multiply => Some(BlendMode::Multiply),
        CompositeOp::Screen => Some(BlendMode::Screen),
        CompositeOp::Overlay => Some(BlendMode::Overlay),
        CompositeOp::Darken => Some(BlendMode::Darken),
        CompositeOp::Lighten => Some(BlendMode::Lighten),
        CompositeOp::ColorDodge => Some(BlendMode::ColorDodge),
        CompositeOp::ColorBurn => Some(BlendMode::ColorBurn),
        CompositeOp::HardLight => Some(BlendMode::HardLight),
        CompositeOp::SoftLight => Some(BlendMode::SoftLight),
        CompositeOp::Difference => Some(BlendMode::Difference),
        CompositeOp::Exclusion => Some(BlendMode::Exclusion),
        CompositeOp::Hue => Some(BlendMode::Hue),
        CompositeOp::Saturation => Some(BlendMode::Saturation),
        CompositeOp::Color => Some(BlendMode::Color),
        CompositeOp::Luminosity => Some(BlendMode::Luminosity),
        _ => None,
    }
}

/// Maps a blend mode of the scene to the operator that renders it.
pub fn convert_blend_mode(mode: BlendMode) -> (op: CompositeOp)
    ensures
        op == composite_of(mode),
        blend_mode_of(op) == Some(mode),
{
    match mode {
        BlendMode::Normal => CompositeOp::SourceOver,
        BlendMode::Multiply => CompositeOp::Multiply,
        BlendMode::Screen => CompositeOp::Screen,
        BlendMode::Overlay => CompositeOp::Overlay,
        BlendMode::Darken => CompositeOp::Darken,
        BlendMode::Lighten => CompositeOp::Lighten,
        BlendMode::ColorDodge => CompositeOp::ColorDodge,
        BlendMode::ColorBurn => CompositeOp::ColorBurn,
        BlendMode::HardLight => CompositeOp::HardLight,
        BlendMode::SoftLight => CompositeOp::SoftLight,
        BlendMode::Difference => CompositeOp::Difference,
        BlendMode::Exclusion => CompositeOp::Exclusion,
        BlendMode::Hue => CompositeOp::Hue,
        BlendMode::Saturation => CompositeOp::Saturation,
        BlendMode::Color => CompositeOp::Color,
        BlendMode::Luminosity => CompositeOp::Luminosity,
    }
}

} // verus!
