use widget_showcase::geometry::{Color, CornerRadii, Scalar, Shadow, Vector};
use widget_showcase::panel::{EventsWidget, Message, Minimal};

fn s(x: f32) -> Scalar {
    Scalar::from_bits(x.to_bits())
}

fn rgba(r: f32, g: f32, b: f32, a: f32) -> Color {
    Color::from_rgba(s(r), s(g), s(b), s(a))
}

fn fields(m: &Minimal<u32>) -> (Color, Color, Scalar, Shadow, bool, CornerRadii, Color, Vec<u32>) {
    let mut events = Vec::new();
    if let Some(e) = m.events.first() {
        events.push(*e);
    }
    (m.start, m.end, m.angle, m.shadow, m.shadow_enabled, m.radius, m.quad_color, events)
}

#[test]
fn startup_defaults() {
    let m: Minimal<u32> = Minimal::new();
    assert_eq!(m.start, rgba(1.0, 0.5, 1.0, 1.0));
    assert_eq!(m.end, rgba(0.0, 0.0, 1.0, 1.0));
    assert_eq!(m.angle, s(0.0));
    assert_eq!(m.shadow.color, rgba(0.0, 0.0, 0.0, 0.8));
    assert_eq!(m.shadow.offset, Vector { x: s(0.0), y: s(8.0) });
    assert_eq!(m.shadow.blur_radius, s(16.0));
    assert!(m.shadow_enabled);
    assert_eq!(m.radius, CornerRadii::uniform(s(50.0)));
    assert_eq!(m.quad_color, rgba(1.0, 1.0, 1.0, 0.5));
    assert_eq!(m.events.len(), 0);
    assert!(m.events.first().is_none());
}

#[test]
fn title_is_fixed() {
    let m: Minimal<u32> = Minimal::new();
    assert_eq!(m.title(), "Iced Widget Showcase");
}

#[test]
fn start_color_change_touches_only_start() {
    let mut m: Minimal<u32> = Minimal::new();
    let before = fields(&m);
    let c = rgba(0.25, 0.75, 0.0, 1.0);
    m.update(Message::StartChanged(c));
    let after = fields(&m);
    assert_eq!(m.start, c);
    assert_eq!((after.1, after.2, after.3, after.4, after.5, after.6, after.7), (before.1, before.2, before.3, before.4, before.5, before.6, before.7));
}

#[test]
fn each_message_sets_its_field() {
    let mut m: Minimal<u32> = Minimal::new();
    let c = rgba(0.1, 0.2, 0.3, 0.4);
    m.update(Message::EndChanged(c));
    assert_eq!(m.end, c);
    m.update(Message::QuadColorChanged(rgba(0.5, 0.5, 0.5, 0.5)));
    assert_eq!(m.quad_color, rgba(0.5, 0.5, 0.5, 0.5));
    m.update(Message::ShadowColorChanged(rgba(1.0, 0.0, 0.0, 0.3)));
    assert_eq!(m.shadow.color, rgba(1.0, 0.0, 0.0, 0.3));
    assert_eq!(m.shadow.offset, Vector { x: s(0.0), y: s(8.0) });
    m.update(Message::ShadowToggled(false));
    assert!(!m.shadow_enabled);
    assert_eq!(m.start, rgba(1.0, 0.5, 1.0, 1.0));
}

#[test]
fn angle_change_scenario() {
    let mut m: Minimal<u32> = Minimal::new();
    let before = fields(&m);
    m.update(Message::AngleChanged(s(1.57)));
    let after = fields(&m);
    assert_eq!(f32::from_bits(m.angle.bits), 1.57);
    assert_eq!((after.0, after.1, after.3, after.4, after.5, after.6, after.7), (before.0, before.1, before.3, before.4, before.5, before.6, before.7));
}

#[test]
fn shadow_offset_scenario() {
    let mut m: Minimal<u32> = Minimal::new();
    m.update(Message::ShadowOffsetXChanged(s(-50.0)));
    m.update(Message::ShadowOffsetYChanged(s(25.0)));
    assert_eq!(m.shadow.offset, Vector { x: s(-50.0), y: s(25.0) });
    assert_eq!(m.shadow.color, rgba(0.0, 0.0, 0.0, 0.8));
    assert_eq!(m.shadow.blur_radius, s(16.0));
}

#[test]
fn three_events_keep_last_two() {
    let mut m: Minimal<&str> = Minimal::new();
    m.update(Message::EventHappened("e1"));
    m.update(Message::EventHappened("e2"));
    m.update(Message::EventHappened("e3"));
    assert_eq!(m.events.len(), 2);
    assert_eq!(m.events.first(), Some(&"e2"));
    let mut h: EventsWidget<&str> = EventsWidget::new();
    h.record("e1");
    h.record("e2");
    h.record("e3");
    assert_eq!(h.len(), 2);
    assert_eq!(h.first(), Some(&"e2"));
    h.record("e4");
    assert_eq!(h.first(), Some(&"e3"));
}

#[test]
fn event_history_length_is_capped() {
    let mut h: EventsWidget<u32> = EventsWidget::new();
    assert_eq!(h.len(), 0);
    h.record(7);
    assert_eq!(h.len(), 1);
    assert_eq!(h.first(), Some(&7));
    for i in 0..10u32 {
        h.record(i);
        assert!(h.len() <= 2);
    }
    assert_eq!(h.len(), 2);
    assert_eq!(h.first(), Some(&8));
}

#[test]
fn repeated_setting_message_is_idempotent() {
    let mut once: Minimal<u32> = Minimal::new();
    let mut twice: Minimal<u32> = Minimal::new();
    once.update(Message::ShadowOffsetXChanged(s(12.5)));
    twice.update(Message::ShadowOffsetXChanged(s(12.5)));
    twice.update(Message::ShadowOffsetXChanged(s(12.5)));
    assert_eq!(fields(&once), fields(&twice));
    once.update(Message::QuadColorChanged(rgba(0.2, 0.4, 0.6, 0.8)));
    twice.update(Message::QuadColorChanged(rgba(0.2, 0.4, 0.6, 0.8)));
    twice.update(Message::QuadColorChanged(rgba(0.2, 0.4, 0.6, 0.8)));
    assert_eq!(fields(&once), fields(&twice));
}
