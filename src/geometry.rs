//! Plain value types shared by the widget and the panel state.
//!
//! Every coordinate, length and color channel is a single-precision real
//! number carried as its IEEE 754 binary32 bit pattern. The library never
//! computes with these numbers: it stores them, compares them and hands them
//! on, so the bit pattern is an exact and lossless stand-in.
use vstd::prelude::*;

verus! {

/// A single-precision real number, held by its IEEE 754 binary32 bit pattern.
#[derive(Clone, Copy, Debug, PartialEq, Eq, Structural)]
pub struct Scalar {
    pub bits: u32,
}

/// Bit pattern of `0.0`.
pub const ZERO_BITS: u32 = 0x0000_0000;

/// Bit pattern of `1.0`.
pub const ONE_BITS: u32 = 0x3F80_0000;

impl Scalar {
    /// The number whose bit pattern is `bits`.
    pub fn from_bits(bits: u32) -> (r: Scalar)
        ensures
            r.bits == bits,
    {
        Scalar { bits }
    }

    /// Positive zero.
    pub fn zero() -> (r: Scalar)
        ensures
            r.bits == ZERO_BITS,
    {
        Scalar { bits: ZERO_BITS }
    }

    /// One.
    pub fn one() -> (r: Scalar)
        ensures
            r.bits == ONE_BITS,
    {
        Scalar { bits: ONE_BITS }
    }
}

/// A color with red, green, blue and alpha channels, each meant to lie in `[0, 1]`.
#[derive(Clone, Copy, Debug, PartialEq, Eq, Structural)]
pub struct Color {
    pub r: Scalar,
    pub g: Scalar,
    pub b: Scalar,
    pub a: Scalar,
}

impl Color {
    /// A color from its four channels.
    pub fn from_rgba(r: Scalar, g: Scalar, b: Scalar, a: Scalar) -> (c: Color)
        ensures
            c == (Color { r, g, b, a }),
    {
        Color { r, g, b, a }
    }

    /// An opaque color from its three color channels.
    pub fn from_rgb(r: Scalar, g: Scalar, b: Scalar) -> (c: Color)
        ensures
            c == (Color { r, g, b, a: Scalar { bits: ONE_BITS } }),
    {
        Color { r, g, b, a: Scalar::one() }
    }

    /// Fully transparent black, the color of an absent shadow.
    pub fn transparent() -> (c: Color)
        ensures
            c == Color::transparent_spec(),
    {
        let z = Scalar::zero();
        Color { r: z, g: z, b: z, a: z }
    }

    pub open spec fn transparent_spec() -> Color {
        let z = Scalar { bits: ZERO_BITS };
        Color { r: z, g: z, b: z, a: z }
    }
}

/// A two-dimensional displacement.
#[derive(Clone, Copy, Debug, PartialEq, Eq, Structural)]
pub struct Vector {
    pub x: Scalar,
    pub y: Scalar,
}

/// A width and a height.
#[derive(Clone, Copy, Debug, PartialEq, Eq, Structural)]
pub struct Size {
    pub width: Scalar,
    pub height: Scalar,
}

/// An axis-aligned rectangle: its top-left corner and its size.
#[derive(Clone, Copy, Debug, PartialEq, Eq, Structural)]
pub struct Rectangle {
    pub x: Scalar,
    pub y: Scalar,
    pub width: Scalar,
    pub height: Scalar,
}

/// How a widget wants to be sized along one axis.
#[derive(Clone, Copy, Debug, PartialEq, Eq, Structural)]
pub enum Length {
    /// Take all the space the parent offers.
    Fill,
    /// Take only as much space as the content needs.
    Shrink,
}

/// The sizing policy of a widget on both axes.
#[derive(Clone, Copy, Debug, PartialEq, Eq, Structural)]
pub struct Sizing {
    pub width: Length,
    pub height: Length,
}

/// The bounds that a parent offers a child during layout.
#[derive(Clone, Copy, Debug, PartialEq, Eq, Structural)]
pub struct Limits {
    pub min: Size,
    pub max: Size,
}

/// The outcome of laying out a leaf widget: the size it takes.
#[derive(Clone, Copy, Debug, PartialEq, Eq, Structural)]
pub struct Node {
    pub size: Size,
}

/// A drop shadow: its color, how far it is displaced, and how much it is blurred.
#[derive(Clone, Copy, Debug, PartialEq, Eq, Structural)]
pub struct Shadow {
    pub color: Color,
    pub offset: Vector,
    pub blur_radius: Scalar,
}

impl Shadow {
    /// The absent shadow: transparent, not displaced, not blurred.
    pub fn none() -> (s: Shadow)
        ensures
            s == Shadow::none_spec(),
    {
        let z = Scalar::zero();
        Shadow { color: Color::transparent(), offset: Vector { x: z, y: z }, blur_radius: z }
    }

    pub open spec fn none_spec() -> Shadow {
        let z = Scalar { bits: ZERO_BITS };
        Shadow { color: Color::transparent_spec(), offset: Vector { x: z, y: z }, blur_radius: z }
    }
}

/// The radius of each of the four corners of a rounded rectangle.
#[derive(Clone, Copy, Debug, PartialEq, Eq, Structural)]
pub struct CornerRadii {
    pub top_left: Scalar,
    pub top_right: Scalar,
    pub bottom_right: Scalar,
    pub bottom_left: Scalar,
}

impl CornerRadii {
    /// The same radius on every corner.
    pub fn uniform(r: Scalar) -> (c: CornerRadii)
        ensures
            c == (CornerRadii { top_left: r, top_right: r, bottom_right: r, bottom_left: r }),
    {
        CornerRadii { top_left: r, top_right: r, bottom_right: r, bottom_left: r }
    }
}

/// The border of a quad: corner radii, stroke width and stroke color.
#[derive(Clone, Copy, Debug, PartialEq, Eq, Structural)]
pub struct Border {
    pub radius: CornerRadii,
    pub width: Scalar,
    pub color: Color,
}

/// A rounded rectangle to be filled: where it goes, its border and its shadow.
#[derive(Clone, Copy, Debug, PartialEq, Eq, Structural)]
pub struct Quad {
    pub bounds: Rectangle,
    pub border: Border,
    pub shadow: Shadow,
}

/// One draw command: fill `quad` with `color`.
#[derive(Clone, Copy, Debug, PartialEq, Eq, Structural)]
pub struct FillQuad {
    pub quad: Quad,
    pub color: Color,
}

} // verus!
