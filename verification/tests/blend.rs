use render_tree::{convert_blend_mode, BlendMode, CompositeOp, OptionLog};
use std::cell::Cell;

const MODES: [BlendMode; 16] = [
    BlendMode::Normal,
    BlendMode::Multiply,
    BlendMode::Screen,
    BlendMode::Overlay,
    BlendMode::Darken,
    BlendMode::Lighten,
    BlendMode::ColorDodge,
    BlendMode::ColorBurn,
    BlendMode::HardLight,
    BlendMode::SoftLight,
    BlendMode::Difference,
    BlendMode::Exclusion,
    BlendMode::Hue,
    BlendMode::Saturation,
    BlendMode::Color,
    BlendMode::Luminosity,
];

#[test]
fn every_blend_mode_has_its_operator() {
    let expected = [
        CompositeOp::SourceOver,
        CompositeOp::Multiply,
        CompositeOp::Screen,
        CompositeOp::Overlay,
        CompositeOp::Darken,
        CompositeOp::Lighten,
        CompositeOp::ColorDodge,
        CompositeOp::ColorBurn,
        CompositeOp::HardLight,
        CompositeOp::SoftLight,
        CompositeOp::Difference,
        CompositeOp::Exclusion,
        CompositeOp::Hue,
        CompositeOp::Saturation,
        CompositeOp::Color,
        CompositeOp::Luminosity,
    ];
    for (mode, op) in MODES.iter().zip(expected.iter()) {
        assert_eq!(convert_blend_mode(*mode), *op);
    }
}

#[test]
fn no_two_blend_modes_share_an_operator() {
    for (i, first) in MODES.iter().enumerate() {
        for (j, second) in MODES.iter().enumerate() {
            if i != j {
                assert_ne!(convert_blend_mode(*first), convert_blend_mode(*second));
            }
        }
    }
}

#[test]
fn log_none_keeps_a_present_value_and_stays_silent() {
    let calls = Cell::new(0);
    let value = Some(5).log_none(|| calls.set(calls.get() + 1));
    assert_eq!(value, Some(5));
    assert_eq!(calls.get(), 0);
}

#[test]
fn log_none_reports_an_absent_value_once() {
    let calls = Cell::new(0);
    let value: Option<u8> = None.log_none(|| calls.set(calls.get() + 1));
    assert_eq!(value, None);
    assert_eq!(calls.get(), 1);
}
