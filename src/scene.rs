//! What the panel shows for a given state: a description that the host turns
//! into widgets, rebuilt in full after every change.
use vstd::prelude::*;
use crate::geometry::{Color, CornerRadii, Scalar, Shadow, Vector};
use crate::panel::{Minimal, PanelModel};
use crate::quad::CustomQuad;

verus! {

/// Bit pattern of `200.0`, the side of the large quads.
pub const LARGE_QUAD_SIDE_BITS: u32 = 0x4348_0000;

/// Bit pattern of `20.0`, the side of a color picker's swatch.
pub const SWATCH_SIDE_BITS: u32 = 0x41A0_0000;

/// Bit pattern of `4.0`, the corner radius of a color picker's swatch.
pub const SWATCH_RADIUS_BITS: u32 = 0x4080_0000;

/// One channel of a color.
#[derive(Clone, Copy, Debug, PartialEq, Eq, Structural)]
pub enum Channel {
    Red,
    Green,
    Blue,
    Alpha,
}

/// `c` with `channel` set to `v`.
pub open spec fn with_channel_spec(c: Color, channel: Channel, v: Scalar) -> Color {
    match channel {
        Channel::Red => Color { r: v, ..c },
        Channel::Green => Color { g: v, ..c },
        Channel::Blue => Color { b: v, ..c },
        Channel::Alpha => Color { a: v, ..c },
    }
}

/// The color that a picker reports when one of its sliders moves to `v`.
pub fn with_channel(c: Color, channel: Channel, v: Scalar) -> (r: Color)
    ensures
        r == with_channel_spec(c, channel, v),
{
    match channel {
        Channel::Red => Color { r: v, ..c },
        Channel::Green => Color { g: v, ..c },
        Channel::Blue => Color { b: v, ..c },
        Channel::Alpha => Color { a: v, ..c },
    }
}

/// A row of four channel sliders and a small swatch of the current color.
#[derive(Clone, Copy, Debug, PartialEq, Eq, Structural)]
pub struct ColorPicker {
    pub color: Color,
    pub swatch: CustomQuad,
}

/// The swatch that previews `color`: a small square with slightly rounded corners and no shadow.
pub open spec fn swatch_of(color: Color) -> CustomQuad {
    CustomQuad {
        color,
        size: Scalar { bits: SWATCH_SIDE_BITS },
        radius: CornerRadii {
            top_left: Scalar { bits: SWATCH_RADIUS_BITS },
            top_right: Scalar { bits: SWATCH_RADIUS_BITS },
            bottom_right: Scalar { bits: SWATCH_RADIUS_BITS },
            bottom_left: Scalar { bits: SWATCH_RADIUS_BITS },
        },
        shadow: Shadow::none_spec(),
    }
}

/// The picker that edits `color`.
pub fn color_picker(color: Color) -> (p: ColorPicker)
    ensures
        p == (ColorPicker { color, swatch: swatch_of(color) }),
{
    let swatch = CustomQuad::new(
        Color::from_rgba(color.r, color.g, color.b, color.a),
        Scalar::from_bits(SWATCH_SIDE_BITS),
        CornerRadii::uniform(Scalar::from_bits(SWATCH_RADIUS_BITS)),
        Shadow::none(),
    );
    ColorPicker { color, swatch }
}

/// A quad inside a container with the given padding, in whole pixels.
#[derive(Clone, Copy, Debug, PartialEq, Eq, Structural)]
pub struct PlacedQuad {
    pub quad: CustomQuad,
    pub padding_vertical: u16,
    pub padding_horizontal: u16,
}

/// The linear gradient behind the quads.
#[derive(Clone, Copy, Debug, PartialEq, Eq, Structural)]
pub struct Gradient {
    pub angle: Scalar,
    pub start: Color,
    pub end: Color,
}

/// Everything the panel shows, for the host to lay out and paint.
#[derive(Debug)]
pub struct Scene<'a, E> {
    pub start_picker: ColorPicker,
    pub end_picker: ColorPicker,
    pub angle: Scalar,
    pub quad_picker: ColorPicker,
    pub shadow_picker: ColorPicker,
    pub shadow_offset: Vector,
    /// The oldest of the recent input events, if any arrived.
    pub shown_event: Option<&'a E>,
    pub quads: Vec<PlacedQuad>,
    pub background: Gradient,
}

/// The shadow that the large quads cast in state `s`.
pub open spec fn quad_shadow<E>(s: PanelModel<E>) -> Shadow {
    if s.shadow_enabled {
        s.shadow
    } else {
        Shadow::none_spec()
    }
}

/// The large quad of state `s`, with the given padding.
pub open spec fn placed<E>(s: PanelModel<E>, vertical: u16, horizontal: u16) -> PlacedQuad {
    PlacedQuad {
        quad: CustomQuad {
            color: s.quad_color,
            size: Scalar { bits: LARGE_QUAD_SIDE_BITS },
            radius: s.radius,
            shadow: quad_shadow(s),
        },
        padding_vertical: vertical,
        padding_horizontal: horizontal,
    }
}

/// The three overlapping large quads of state `s`, from left to right.
pub open spec fn quads_of<E>(s: PanelModel<E>) -> Seq<PlacedQuad> {
    seq![placed(s, 50, 0), placed(s, 100, 50), placed(s, 150, 25)]
}

impl<E> Minimal<E> {
    /// Describes the panel for the current state.
    pub fn view(&self) -> (v: Scene<'_, E>)
        ensures
            v.start_picker == (ColorPicker { color: self.start, swatch: swatch_of(self.start) }),
            v.end_picker == (ColorPicker { color: self.end, swatch: swatch_of(self.end) }),
            v.angle == self.angle,
            v.quad_picker == (ColorPicker {
                color: self.quad_color,
                swatch: swatch_of(self.quad_color),
            }),
            v.shadow_picker == (ColorPicker {
                color: self.shadow.color,
                swatch: swatch_of(self.shadow.color),
            }),
            v.shadow_offset == self.shadow.offset,
            self.events@.len() == 0 ==> v.shown_event.is_none(),
            self.events@.len() > 0 ==> v.shown_event == Some(&self.events@[0]),
            v.quads@ == quads_of(self.model()),
            v.background == (Gradient { angle: self.angle, start: self.start, end: self.end }),
    {
        let shadow = if self.shadow_enabled {
            self.shadow
        } else {
            Shadow::none()
        };
        let side = Scalar::from_bits(LARGE_QUAD_SIDE_BITS);
        let quad = CustomQuad::new(self.quad_color, side, self.radius, shadow);
        let mut quads: Vec<PlacedQuad> = Vec::new();
        quads.push(PlacedQuad { quad, padding_vertical: 50, padding_horizontal: 0 });
        quads.push(PlacedQuad { quad, padding_vertical: 100, padding_horizontal: 50 });
        quads.push(PlacedQuad { quad, padding_vertical: 150, padding_horizontal: 25 });
        assert(quads@ =~= quads_of(self.model()));
        Scene {
            start_picker: color_picker(self.start),
            end_picker: color_picker(self.end),
            angle: self.angle,
            quad_picker: color_picker(self.quad_color),
            shadow_picker: color_picker(self.shadow.color),
            shadow_offset: self.shadow.offset,
            shown_event: self.events.first(),
            quads,
            background: Gradient { angle: self.angle, start: self.start, end: self.end },
        }
    }
}

} // verus!
