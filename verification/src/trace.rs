//! Whole histories of an overlay, and what no history can do to the events.

use crate::event::EventView;
use crate::platform::Surface;
use crate::protocol::{Reply, RequestView};
use crate::session::OverlayView;
use crate::translate::{events_of, LiveView};
use vstd::prelude::*;

verus! {

/// One thing that happens to an overlay.
pub enum Happening {
    /// An init begins.
    Init(Surface),
    /// A paint begins.
    Paint(Surface),
    /// A destroy begins.
    Destroy,
    /// The host answers the request it was handed last. The context is the
    /// UI context that is made if the answer is that the painter was built.
    Answer(Reply, egui::Context),
    /// A window message arrives.
    Message { umsg: u32, wparam: usize, lparam: isize, live: LiveView },
}

impl OverlayView {
    /// The overlay after one happening.
    pub open spec fn after(self, happening: Happening) -> OverlayView {
        match happening {
            Happening::Init(target) => self.begin_init(target).0,
            Happening::Paint(target) => self.begin_paint(target).0,
            Happening::Destroy => self.begin_destroy().0,
            Happening::Answer(reply, fresh) => self.resume(reply, fresh).0,
            Happening::Message { umsg, wparam, lparam, live } => self.after_message(
                umsg,
                wparam,
                lparam,
                live,
            ),
        }
    }

    /// The events that one happening hands to a frame: those in the input of
    /// the frame that the host is asked to run, if it is asked to run one.
    pub open spec fn delivers(self, happening: Happening) -> Seq<EventView> {
        match happening {
            Happening::Answer(reply, fresh) => match self.resume(reply, fresh).1 {
                RequestView::RunFrame(input) => input.events,
                _ => Seq::empty(),
            },
            _ => Seq::empty(),
        }
    }

    /// The events that one happening brings in: those of a message to an
    /// overlay that has a session.
    pub open spec fn receives(self, happening: Happening) -> Seq<EventView> {
        match happening {
            Happening::Message { umsg, wparam, lparam, live } => if self.is_init() {
                events_of(umsg, wparam, lparam, live)
            } else {
                Seq::empty()
            },
            _ => Seq::empty(),
        }
    }

    /// The overlay after a history, oldest happening first.
    pub open spec fn after_all(self, history: Seq<Happening>) -> OverlayView
        decreases history.len(),
    {
        if history.len() == 0 {
            self
        } else {
            self.after(history[0]).after_all(history.drop_first())
        }
    }

    /// All events that a history hands to frames, in the order in which it
    /// hands them over.
    pub open spec fn delivered(self, history: Seq<Happening>) -> Seq<EventView>
        decreases history.len(),
    {
        if history.len() == 0 {
            Seq::empty()
        } else {
            self.delivers(history[0]) + self.after(history[0]).delivered(history.drop_first())
        }
    }

    /// All events that a history brings in, in the order in which they
    /// arrive.
    pub open spec fn received(self, history: Seq<Happening>) -> Seq<EventView>
        decreases history.len(),
    {
        if history.len() == 0 {
            Seq::empty()
        } else {
            self.receives(history[0]) + self.after(history[0]).received(history.drop_first())
        }
    }
}

/// One happening neither loses, nor doubles, nor reorders an event: what it
/// hands to a frame, followed by what is pending after it, is what was
/// pending before it, followed by what it brought in.
pub proof fn lemma_happening_conserves_events(state: OverlayView, happening: Happening)
    ensures
        state.delivers(happening) + state.after(happening).pending() == state.pending()
            + state.receives(happening),
{
    assert(state.delivers(happening) + state.after(happening).pending() =~= state.pending()
        + state.receives(happening));
}

/// No history loses, doubles or reorders an event. The events handed to
/// frames, in order, followed by those still pending at the end, are exactly
/// the events pending at the start followed by those that arrived, in order.
/// So every event that arrives reaches one frame and no other, behind all
/// that arrived before it, unless it is still pending.
pub proof fn lemma_events_conserved(state: OverlayView, history: Seq<Happening>)
    ensures
        state.delivered(history) + state.after_all(history).pending() == state.pending()
            + state.received(history),
    decreases history.len(),
{
    if history.len() == 0 {
        assert(state.delivered(history) + state.after_all(history).pending() =~= state.pending()
            + state.received(history));
    } else {
        let first = history[0];
        let rest = history.drop_first();
        let next = state.after(first);
        lemma_happening_conserves_events(state, first);
        lemma_events_conserved(next, rest);
        assert(state.delivered(history) + state.after_all(history).pending() =~= state.delivers(
            first,
        ) + (next.delivered(rest) + next.after_all(rest).pending()));
        assert(state.delivers(first) + (next.pending() + next.received(rest)) =~= (state.delivers(
            first,
        ) + next.pending()) + next.received(rest));
        assert((state.pending() + state.receives(first)) + next.received(rest) =~= state.pending()
            + state.received(history));
    }
}

/// A frame takes everything: right after a happening that hands events to a
/// frame, or that asks for a frame at all, nothing is pending.
pub proof fn lemma_frame_empties_queue(state: OverlayView, reply: Reply, fresh: egui::Context)
    requires
        state.resume(reply, fresh).1 is RunFrame,
    ensures
        state.after(Happening::Answer(reply, fresh)).pending() == Seq::<EventView>::empty(),
        state.delivers(Happening::Answer(reply, fresh)) == state.pending(),
{
}

} // verus!
