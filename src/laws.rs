//! Properties of the panel's transition function over runs of messages.
use vstd::prelude::*;
use crate::geometry::Color;
use crate::panel::{last_two, Message, PanelModel};

verus! {

/// The state after applying `ms` to `s` in order.
pub open spec fn run<E>(s: PanelModel<E>, ms: Seq<Message<E>>) -> PanelModel<E>
    decreases ms.len(),
{
    if ms.len() == 0 {
        s
    } else {
        run(s, ms.drop_last()).step(ms.last())
    }
}

/// One `EventHappened` message for each of `es`, in order.
pub open spec fn observed<E>(es: Seq<E>) -> Seq<Message<E>> {
    es.map_values(|e: E| Message::EventHappened(e))
}

/// Setting the gradient's start color changes that color and nothing else.
pub proof fn start_color_change_sets_only_start<E>(s: PanelModel<E>, c: Color)
    ensures
        s.step(Message::StartChanged(c)) == (PanelModel { start: c, ..s }),
{
}

/// Applying the same field-setting message twice gives the same state as applying it once.
pub proof fn setting_messages_are_idempotent<E>(s: PanelModel<E>, m: Message<E>)
    requires
        !(m is EventHappened),
    ensures
        s.step(m).step(m) == s.step(m),
{
}

proof fn last_two_of_push<E>(x: Seq<E>, e: E)
    ensures
        last_two(last_two(x).push(e)) == last_two(x.push(e)),
{
    if x.len() > 2 {
        assert(last_two(last_two(x).push(e)) =~= last_two(x.push(e)));
    }
}

proof fn run_of_observed<E>(s: PanelModel<E>, es: Seq<E>)
    requires
        s.events.len() <= 2,
    ensures
        run(s, observed(es)) == (PanelModel { events: last_two(s.events + es), ..s }),
    decreases es.len(),
{
    if es.len() == 0 {
        assert(s.events + es =~= s.events);
    } else {
        let init = es.drop_last();
        run_of_observed(s, init);
        assert(observed(es).drop_last() =~= observed(init));
        last_two_of_push(s.events + init, es.last());
        assert((s.events + init).push(es.last()) =~= s.events + es);
    }
}

/// From an empty history, after any number of observed input events the
/// history holds the last two of them (all of them if fewer), oldest first,
/// and every other field is as it was.
pub proof fn event_history_keeps_latest_two<E>(s: PanelModel<E>, es: Seq<E>)
    requires
        s.events.len() == 0,
    ensures
        run(s, observed(es)).events == last_two(es),
        run(s, observed(es)).events.len() == if es.len() < 2 { es.len() } else { 2 },
        run(s, observed(es)) == (PanelModel { events: last_two(es), ..s }),
{
    run_of_observed(s, es);
    assert(s.events + es =~= es);
}

} // verus!
