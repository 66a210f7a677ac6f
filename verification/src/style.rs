use vstd::prelude::*;

verus! {

/// A place in the viewport, in whole pixels.
#[derive(Clone, Copy, Debug, PartialEq, Eq, Hash, Structural)]
pub struct ViewportPosition {
    pub x: i32,
    pub y: i32,
}

/// An affine map of the plane with whole-number entries, column by column:
/// the images of the two unit vectors, then the translation.
#[derive(Clone, Copy, Debug, PartialEq, Eq, Hash)]
pub struct Affine {
    pub x_axis: (i64, i64),
    pub y_axis: (i64, i64),
    pub translation: (i64, i64),
}

impl Affine {
    /// The map that sends every point to the origin.
    pub open spec fn spec_zero() -> Affine {
        Affine { x_axis: (0, 0), y_axis: (0, 0), translation: (0, 0) }
    }

    /// The map that sends every point to the origin.
    pub fn zero() -> (map: Affine)
        ensures
            map == Affine::spec_zero(),
    {
        Affine { x_axis: (0, 0), y_axis: (0, 0), translation: (0, 0) }
    }

    /// The map that scales by `scale` along each axis and then moves by
    /// `translation`, without turning.
    pub open spec fn spec_from_scale_translation(scale: (i64, i64), translation: (i64, i64)) -> Affine {
        Affine { x_axis: (scale.0, 0), y_axis: (0, scale.1), translation }
    }

    /// The map that scales by `scale` along each axis and then moves by
    /// `translation`, without turning.
    pub fn from_scale_translation(scale: (i64, i64), translation: (i64, i64)) -> (map: Affine)
        ensures
            map == Affine::spec_from_scale_translation(scale, translation),
    {
        Affine { x_axis: (scale.0, 0), y_axis: (0, scale.1), translation }
    }
}

/// A colour, eight bits to each channel.
#[derive(Clone, Copy, Debug, PartialEq, Eq, Hash, Structural)]
pub struct Color {
    pub red: u8,
    pub green: u8,
    pub blue: u8,
    pub alpha: u8,
}

/// How the inside of a shape is painted.
#[derive(Clone, Copy, Debug, PartialEq, Eq, Hash, Structural)]
pub enum Fill {
    Unfilled,
    Solid(Color),
}

impl Fill {
    /// The fill of one colour.
    pub fn solid(color: Color) -> (fill: Fill)
        ensures
            fill == Fill::Solid(color),
    {
        Fill::Solid(color)
    }
}

/// How the outline of a shape is drawn.
#[derive(Clone, Copy, Debug, PartialEq, Eq, Hash, Structural)]
pub struct Stroke {
    pub color: Color,
    pub width: u32,
}

/// How a shape is drawn: its outline, if it has one, and its inside.
#[derive(Clone, Copy, Debug, PartialEq, Eq, Hash)]
pub struct PathStyle {
    pub stroke: Option<Stroke>,
    pub fill: Fill,
}

impl PathStyle {
    pub fn new(stroke: Option<Stroke>, fill: Fill) -> (style: PathStyle)
        ensures
            style == (PathStyle { stroke, fill }),
    {
        PathStyle { stroke, fill }
    }
}

} // verus!
