//! A leaf widget that draws one rounded, shadowed rectangle of a fixed square size.
use vstd::prelude::*;
use crate::geometry::{
    Border, Color, CornerRadii, FillQuad, Length, Limits, Node, Quad, Rectangle, Scalar, Shadow,
    Size, Sizing, ONE_BITS, ZERO_BITS,
};

verus! {

/// A square of side `size`, filled with `color`, with rounded corners and a drop shadow.
///
/// The widget keeps no state between frames: it is rebuilt from the panel
/// state on every render and its two operations depend on its fields alone.
#[derive(Clone, Copy, Debug, PartialEq, Eq, Structural)]
pub struct CustomQuad {
    pub color: Color,
    pub size: Scalar,
    pub radius: CornerRadii,
    pub shadow: Shadow,
}

/// The border stroke color: opaque red. The border is drawn with zero width,
/// so this color never shows.
pub open spec fn border_color() -> Color {
    Color {
        r: Scalar { bits: ONE_BITS },
        g: Scalar { bits: ZERO_BITS },
        b: Scalar { bits: ZERO_BITS },
        a: Scalar { bits: ONE_BITS },
    }
}

impl CustomQuad {
    /// A quad with the given fill color, side length, corner radii and shadow.
    pub fn new(color: Color, size: Scalar, radius: CornerRadii, shadow: Shadow) -> (q: CustomQuad)
        ensures
            q == (CustomQuad { color, size, radius, shadow }),
    {
        CustomQuad { color, size, radius, shadow }
    }

    /// The square that the widget occupies: `size` on both axes.
    pub open spec fn extent(self) -> Size {
        Size { width: self.size, height: self.size }
    }

    /// The one command that drawing the widget into `bounds` emits.
    pub open spec fn command(self, bounds: Rectangle) -> FillQuad {
        FillQuad {
            quad: Quad {
                bounds,
                border: Border {
                    radius: self.radius,
                    width: Scalar { bits: ZERO_BITS },
                    color: border_color(),
                },
                shadow: self.shadow,
            },
            color: self.color,
        }
    }

    /// The sizing policy: shrink to the content on both axes, never stretch.
    pub fn size(&self) -> (s: Sizing)
        ensures
            s == (Sizing { width: Length::Shrink, height: Length::Shrink }),
    {
        Sizing { width: Length::Shrink, height: Length::Shrink }
    }

    /// Measures the widget: a square of side `size`, whatever the limits offered.
    pub fn layout(&self, _limits: &Limits) -> (n: Node)
        ensures
            n == (Node { size: self.extent() }),
    {
        Node { size: Size { width: self.size, height: self.size } }
    }

    /// Draws the widget into `bounds`: appends exactly one fill command to `surface`.
    pub fn draw(&self, bounds: Rectangle, surface: &mut Vec<FillQuad>)
        ensures
            final(surface)@ == old(surface)@.push(self.command(bounds)),
    {
        let border = Border {
            radius: self.radius,
            width: Scalar::zero(),
            color: Color::from_rgb(Scalar::one(), Scalar::zero(), Scalar::zero()),
        };
        surface.push(
            FillQuad { quad: Quad { bounds, border, shadow: self.shadow }, color: self.color },
        );
    }
}

} // verus!
