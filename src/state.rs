//! One record of the style attributes that drawing operations read.
//!
//! Real-valued attributes are held as IEEE 754 double-precision bit patterns:
//! the state only stores and copies them, it never computes with them.

use vstd::prelude::*;

verus! {

/// Bit pattern of the double-precision value 0.0.
pub const F64_ZERO_BITS: u64 = 0x0000_0000_0000_0000;

/// Bit pattern of the double-precision value 1.0.
pub const F64_ONE_BITS: u64 = 0x3FF0_0000_0000_0000;

/// Bit pattern of the double-precision value 10.0.
pub const F64_TEN_BITS: u64 = 0x4024_0000_0000_0000;

#[derive(Clone, Copy, Debug, PartialEq, Eq, Structural)]
pub enum TextAlign {
    Start,
    End,
    Left,
    Right,
    Center,
}

#[derive(Clone, Copy, Debug, PartialEq, Eq, Structural)]
pub enum TextBaseline {
    Top,
    Hanging,
    Middle,
    Alphabetic,
    Ideographic,
    Bottom,
}

/// How the corners of a stroked path are joined.
#[derive(Clone, Copy, Debug, PartialEq, Eq, Structural)]
pub enum JoinStyle {
    Bevel,
    Round,
    Miter,
    MiterOrBevel,
}

/// How the ends of a stroked line are drawn.
#[derive(Clone, Copy, Debug, PartialEq, Eq, Structural)]
pub enum CapStyle {
    Butt,
    Round,
    Square,
}

/// How new pixels are combined with those already in the buffer.
#[derive(Clone, Copy, Debug, PartialEq, Eq, Structural)]
pub enum CompositionOp {
    Over,
    Add,
    Atop,
    Out,
    In,
    Source,
    Clear,
    DestIn,
    DestOut,
    DestOver,
    DestAtop,
    Xor,
    Multiply,
    Screen,
    Overlay,
    Darken,
    Lighten,
    ColorDodge,
    ColorBurn,
    HardLight,
    SoftLight,
    Difference,
    Exclusion,
    Hue,
    Saturation,
    Color,
    Luminosity,
}

/// The style attributes in force for subsequent drawing operations.
///
/// The fields `line_width`, `miter_limit`, `dash_offset`, `global_alpha`
/// and `shadow_blur` hold the bit patterns of double-precision values.
#[derive(Clone, Copy, Debug, PartialEq, Eq, Structural)]
pub struct State {
    pub text_align: TextAlign,
    pub text_baseline: TextBaseline,
    pub line_width: u64,
    pub line_join: JoinStyle,
    pub line_cap: CapStyle,
    pub miter_limit: u64,
    pub dash_offset: u64,
    pub global_alpha: u64,
    pub shadow_blur: u64,
    pub op: CompositionOp,
}

/// The state a fresh context starts from.
pub open spec fn default_state() -> State {
    State {
        text_align: TextAlign::Start,
        text_baseline: TextBaseline::Alphabetic,
        line_width: F64_ONE_BITS,
        line_join: JoinStyle::MiterOrBevel,
        line_cap: CapStyle::Butt,
        miter_limit: F64_TEN_BITS,
        dash_offset: F64_ZERO_BITS,
        global_alpha: F64_ONE_BITS,
        shadow_blur: F64_ZERO_BITS,
        op: CompositionOp::Over,
    }
}

impl State {
    /// The default state: start alignment, alphabetic baseline, line width
    /// 1.0, miter limit 10.0, alpha 1.0, no shadow blur, no dash offset,
    /// source-over composition.
    pub fn new() -> (r: State)
        ensures
            r == default_state(),
    {
        State {
            text_align: TextAlign::Start,
            text_baseline: TextBaseline::Alphabetic,
            line_width: F64_ONE_BITS,
            line_join: JoinStyle::MiterOrBevel,
            line_cap: CapStyle::Butt,
            miter_limit: F64_TEN_BITS,
            dash_offset: F64_ZERO_BITS,
            global_alpha: F64_ONE_BITS,
            shadow_blur: F64_ZERO_BITS,
            op: CompositionOp::Over,
        }
    }
}

} // verus!
