//! The panel state, the messages that change it, and the bounded history of
//! observed input events.
use vstd::prelude::*;
use crate::geometry::{Color, CornerRadii, Scalar, Shadow, Vector, ONE_BITS, ZERO_BITS};

verus! {

/// How many observed input events the panel keeps.
pub const EVENT_CAPACITY: usize = 2;

/// The last `EVENT_CAPACITY` elements of `s`, oldest first (all of `s` if it is shorter).
pub open spec fn last_two<E>(s: Seq<E>) -> Seq<E> {
    if s.len() <= EVENT_CAPACITY {
        s
    } else {
        s.subrange(s.len() - EVENT_CAPACITY, s.len() as int)
    }
}

/// The most recent input events, oldest first, at most `EVENT_CAPACITY` of them.
#[derive(Debug)]
pub struct EventsWidget<E> {
    last: Vec<E>,
}

impl<E> View for EventsWidget<E> {
    type V = Seq<E>;

    closed spec fn view(&self) -> Seq<E> {
        self.last@
    }
}

impl<E> EventsWidget<E> {
    pub open spec fn wf(&self) -> bool {
        self@.len() <= EVENT_CAPACITY
    }

    /// An empty history.
    pub fn new() -> (h: EventsWidget<E>)
        ensures
            h@ == Seq::<E>::empty(),
            h.wf(),
    {
        EventsWidget { last: Vec::new() }
    }

    /// Appends `event`; when that makes the history too long, the oldest entry leaves.
    pub fn record(&mut self, event: E)
        requires
            old(self).wf(),
        ensures
            final(self)@ == last_two(old(self)@.push(event)),
            final(self).wf(),
    {
        self.last.push(event);
        if self.last.len() > EVENT_CAPACITY {
            let _ = self.last.remove(0);
            assert(self@ =~= last_two(old(self)@.push(event)));
        }
    }

    /// How many events are kept.
    pub fn len(&self) -> (n: usize)
        ensures
            n == self@.len(),
    {
        self.last.len()
    }

    /// The oldest event kept, if any.
    pub fn first(&self) -> (e: Option<&E>)
        ensures
            self@.len() == 0 ==> e.is_none(),
            self@.len() > 0 ==> e == Some(&self@[0]),
    {
        if self.last.len() == 0 {
            None
        } else {
            Some(&self.last[0])
        }
    }
}

/// A change to the panel, delivered by the host one at a time.
#[derive(Clone, Debug)]
pub enum Message<E> {
    StartChanged(Color),
    EndChanged(Color),
    AngleChanged(Scalar),
    ShadowColorChanged(Color),
    ShadowOffsetXChanged(Scalar),
    ShadowOffsetYChanged(Scalar),
    QuadColorChanged(Color),
    ShadowToggled(bool),
    EventHappened(E),
}

/// The panel's state as a mathematical value.
pub struct PanelModel<E> {
    pub start: Color,
    pub end: Color,
    pub angle: Scalar,
    pub shadow: Shadow,
    pub shadow_enabled: bool,
    pub radius: CornerRadii,
    pub quad_color: Color,
    pub events: Seq<E>,
}

/// Bit pattern of `0.5`.
pub const HALF_BITS: u32 = 0x3F00_0000;

/// Bit pattern of `0.8`.
pub const SHADOW_ALPHA_BITS: u32 = 0x3F4C_CCCD;

/// Bit pattern of `8.0`.
pub const SHADOW_OFFSET_Y_BITS: u32 = 0x4100_0000;

/// Bit pattern of `16.0`.
pub const SHADOW_BLUR_BITS: u32 = 0x4180_0000;

/// Bit pattern of `50.0`.
pub const CORNER_RADIUS_BITS: u32 = 0x4248_0000;

pub open spec fn color_of_bits(r: u32, g: u32, b: u32, a: u32) -> Color {
    Color { r: Scalar { bits: r }, g: Scalar { bits: g }, b: Scalar { bits: b }, a: Scalar { bits: a } }
}

impl<E> PanelModel<E> {
    /// The state at startup.
    pub open spec fn initial() -> PanelModel<E> {
        let z = Scalar { bits: ZERO_BITS };
        let r = Scalar { bits: CORNER_RADIUS_BITS };
        PanelModel {
            start: color_of_bits(ONE_BITS, HALF_BITS, ONE_BITS, ONE_BITS),
            end: color_of_bits(ZERO_BITS, ZERO_BITS, ONE_BITS, ONE_BITS),
            angle: z,
            shadow: Shadow {
                color: color_of_bits(ZERO_BITS, ZERO_BITS, ZERO_BITS, SHADOW_ALPHA_BITS),
                offset: Vector { x: z, y: Scalar { bits: SHADOW_OFFSET_Y_BITS } },
                blur_radius: Scalar { bits: SHADOW_BLUR_BITS },
            },
            shadow_enabled: true,
            radius: CornerRadii { top_left: r, top_right: r, bottom_right: r, bottom_left: r },
            quad_color: color_of_bits(ONE_BITS, ONE_BITS, ONE_BITS, HALF_BITS),
            events: Seq::empty(),
        }
    }

    /// The state after `m`.
    pub open spec fn step(self, m: Message<E>) -> PanelModel<E> {
        match m {
            Message::StartChanged(c) => PanelModel { start: c, ..self },
            Message::EndChanged(c) => PanelModel { end: c, ..self },
            Message::AngleChanged(a) => PanelModel { angle: a, ..self },
            Message::ShadowColorChanged(c) => PanelModel {
                shadow: Shadow { color: c, ..self.shadow },
                ..self
            },
            Message::ShadowOffsetXChanged(x) => PanelModel {
                shadow: Shadow { offset: Vector { x, ..self.shadow.offset }, ..self.shadow },
                ..self
            },
            Message::ShadowOffsetYChanged(y) => PanelModel {
                shadow: Shadow { offset: Vector { y, ..self.shadow.offset }, ..self.shadow },
                ..self
            },
            Message::QuadColorChanged(c) => PanelModel { quad_color: c, ..self },
            Message::ShadowToggled(b) => PanelModel { shadow_enabled: b, ..self },
            Message::EventHappened(e) => PanelModel { events: last_two(self.events.push(e)), ..self },
        }
    }
}

/// The panel state: gradient endpoints and angle, the quads' color, shadow and
/// corner radii, and the recent input events.
pub struct Minimal<E> {
    pub start: Color,
    pub end: Color,
    pub angle: Scalar,
    pub shadow: Shadow,
    pub shadow_enabled: bool,
    pub radius: CornerRadii,
    pub quad_color: Color,
    pub events: EventsWidget<E>,
}

impl<E> Minimal<E> {
    /// The state as a mathematical value.
    pub open spec fn model(&self) -> PanelModel<E> {
        PanelModel {
            start: self.start,
            end: self.end,
            angle: self.angle,
            shadow: self.shadow,
            shadow_enabled: self.shadow_enabled,
            radius: self.radius,
            quad_color: self.quad_color,
            events: self.events@,
        }
    }
}

impl<E> Minimal<E> {
    pub open spec fn wf(&self) -> bool {
        self.events.wf()
    }

    /// The state at startup.
    pub fn new() -> (s: Minimal<E>)
        ensures
            s.model() == PanelModel::<E>::initial(),
            s.wf(),
    {
        let z = Scalar::zero();
        let one = Scalar::one();
        let half = Scalar::from_bits(HALF_BITS);
        Minimal {
            start: Color::from_rgba(one, half, one, one),
            end: Color::from_rgba(z, z, one, one),
            angle: z,
            shadow: Shadow {
                color: Color::from_rgba(z, z, z, Scalar::from_bits(SHADOW_ALPHA_BITS)),
                offset: Vector { x: z, y: Scalar::from_bits(SHADOW_OFFSET_Y_BITS) },
                blur_radius: Scalar::from_bits(SHADOW_BLUR_BITS),
            },
            shadow_enabled: true,
            radius: CornerRadii::uniform(Scalar::from_bits(CORNER_RADIUS_BITS)),
            quad_color: Color::from_rgba(one, one, one, half),
            events: EventsWidget::new(),
        }
    }

    /// The window title.
    pub fn title(&self) -> (t: String)
        ensures
            t@ == "Iced Widget Showcase"@,
    {
        "Iced Widget Showcase".to_owned()
    }

    /// Applies one message: a single field assignment, or an append to the
    /// event history that evicts the oldest entry beyond its capacity.
    pub fn update(&mut self, message: Message<E>)
        requires
            old(self).wf(),
        ensures
            final(self).model() == old(self).model().step(message),
            final(self).wf(),
    {
        match message {
            Message::StartChanged(color) => self.start = color,
            Message::EndChanged(color) => self.end = color,
            Message::AngleChanged(angle) => self.angle = angle,
            Message::ShadowColorChanged(color) => self.shadow.color = color,
            Message::QuadColorChanged(color) => self.quad_color = color,
            Message::ShadowOffsetXChanged(x) => self.shadow.offset.x = x,
            Message::ShadowOffsetYChanged(y) => self.shadow.offset.y = y,
            Message::ShadowToggled(enabled) => self.shadow_enabled = enabled,
            Message::EventHappened(event) => self.events.record(event),
        }
    }
}

} // verus!
