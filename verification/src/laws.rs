//! What holds of every run of the session, proved from its transitions.

use crate::error::Error;
use crate::event::EventView;
use crate::platform::{ClientRect, GlContext, Surface};
use crate::protocol::{answers, Reply, RequestView};
use crate::session::{fresh_session, InitStage, OverlayView, SessionStage, SessionView};
use crate::translate::{events_of, LiveView};
use vstd::prelude::*;

verus! {

impl OverlayView {
    /// The events that no frame has taken yet; none without a session.
    pub open spec fn pending(self) -> Seq<EventView> {
        match self {
            OverlayView::Vacant(_) => Seq::empty(),
            OverlayView::Ready(session, _) => session.events,
        }
    }

    /// Whether the host was asked to make the overlay's context current and
    /// has not answered yet.
    pub open spec fn entering(self) -> bool {
        match self {
            OverlayView::Vacant(stage) => stage is Enter,
            OverlayView::Ready(_, stage) => stage is Enter,
        }
    }

    /// Whether the operation in flight is inside the overlay's context: the
    /// host has made it current and was not yet asked to go back.
    pub open spec fn inside(self) -> bool {
        match self {
            OverlayView::Vacant(stage) => stage is Build,
            OverlayView::Ready(_, stage) => {
                ||| stage is Measure
                ||| stage is Clock
                ||| stage is Run
                ||| stage is Remeasure
                ||| stage is Draw
            },
        }
    }

    /// Whether the host was asked to make its own context current again and
    /// has not answered yet.
    pub open spec fn restoring(self) -> bool {
        match self {
            OverlayView::Vacant(stage) => stage is Leave,
            OverlayView::Ready(_, stage) => stage is Leave,
        }
    }

    /// The target, the host's context and the overlay's context, in this
    /// order, as far as the overlay knows all three.
    pub open spec fn contexts(self) -> Option<(Surface, GlContext, GlContext)> {
        match self {
            OverlayView::Vacant(stage) => match stage {
                InitStage::Enter { target, original, overlay } => Some((target, original, overlay)),
                InitStage::Build { target, original, overlay } => Some((target, original, overlay)),
                InitStage::Leave { target, original, overlay, .. } => Some(
                    (target, original, overlay),
                ),
                _ => None,
            },
            OverlayView::Ready(session, _) => Some(
                (session.target, session.original, session.overlay),
            ),
        }
    }

    /// The context that the overlay takes for the host's, once it knows the
    /// overlay's too.
    pub open spec fn host_context(self) -> Option<GlContext> {
        match self.contexts() {
            Some(known) => Some(known.1),
            None => None,
        }
    }

    /// The overlay's own context, once it is known.
    pub open spec fn overlay_context(self) -> Option<GlContext> {
        match self.contexts() {
            Some(known) => Some(known.2),
            None => None,
        }
    }

    /// The context that the host was asked to make current and has not
    /// answered for yet: the overlay's on the way in, the host's on the way
    /// back.
    pub open spec fn switching_to(self) -> Option<GlContext> {
        if self.entering() {
            self.overlay_context()
        } else if self.restoring() {
            self.host_context()
        } else {
            None
        }
    }

    /// An upper bound on the replies that the operation in flight still
    /// takes.
    pub open spec fn remaining(self) -> nat {
        match self {
            OverlayView::Vacant(stage) => match stage {
                InitStage::Idle => 0,
                InitStage::Capture { .. } => 5,
                InitStage::Create { .. } => 4,
                InitStage::Enter { .. } => 3,
                InitStage::Build { .. } => 2,
                InitStage::Leave { .. } => 1,
            },
            OverlayView::Ready(_, stage) => match stage {
                SessionStage::Idle => 0,
                SessionStage::Capture => 8,
                SessionStage::Enter => 7,
                SessionStage::Measure => 6,
                SessionStage::Clock { .. } => 5,
                SessionStage::Run => 4,
                SessionStage::Remeasure => 3,
                SessionStage::Draw => 2,
                SessionStage::Leave { .. } => 1,
                SessionStage::DeleteContext => 2,
                SessionStage::DestroyPainter => 1,
            },
        }
    }
}

/// Whether a request asks for work that needs the overlay's context current:
/// building the painter, measuring for a frame, reading the clock for it,
/// running it, painting it.
pub open spec fn is_overlay_work(request: RequestView) -> bool {
    ||| request is BuildPainter
    ||| request is MeasureWindow
    ||| request is ReadClock
    ||| request is RunFrame
    ||| request is PaintFrame
}

/// Whether `request` fits the overlay that it was handed out with: `Done`
/// with an idle overlay and no other, and any other request with an overlay
/// that waits for exactly the replies of that request's kind.
pub open spec fn fits(next: OverlayView, request: RequestView) -> bool {
    &&& request is Done <==> next.is_idle()
    &&& forall|reply: Reply| answers(request, reply) <==> #[trigger] next.awaits(reply)
}

/// Without a session, destroy and paint end at once with `NotInit` and
/// change nothing, the screen size is refused with `NotInit` whatever the
/// window reports, and a message changes nothing.
pub proof fn lemma_not_init(
    state: OverlayView,
    target: Surface,
    rect: Option<ClientRect>,
    umsg: u32,
    wparam: usize,
    lparam: isize,
    live: LiveView,
)
    requires
        !state.is_init(),
    ensures
        state.begin_destroy() == (state, RequestView::Done(Err(Error::NotInit))),
        state.begin_paint(target) == (state, RequestView::Done(Err(Error::NotInit))),
        state.screen_size(rect) == Err::<(u32, u32), Error>(Error::NotInit),
        state.after_message(umsg, wparam, lparam, live) == state,
{
}

/// With a session, init ends at once with `AlreadyInit` and changes nothing.
pub proof fn lemma_already_init(state: OverlayView, target: Surface)
    requires
        state.is_init(),
    ensures
        state.begin_init(target) == (state, RequestView::Done(Err(Error::AlreadyInit))),
{
}

/// An init in which the host succeeds at every step asks, in this order, for
/// the current context, for a new context on the target, for that context to
/// be made current, for the painter, and for the captured context to be made
/// current again. It ends with success and leaves a fresh session around the
/// UI context made on the way. Any init after it ends at once with
/// `AlreadyInit`.
pub proof fn lemma_init_then_init(
    target: Surface,
    original: GlContext,
    overlay: GlContext,
    ui: egui::Context,
    again: Surface,
)
    ensures
        ({
            let (s1, r1) = OverlayView::Vacant(InitStage::Idle).begin_init(target);
            let (s2, r2) = s1.resume(Reply::Context(original), ui);
            let (s3, r3) = s2.resume(Reply::Created(Some(overlay)), ui);
            let (s4, r4) = s3.resume(Reply::Switched(true), ui);
            let (s5, r5) = s4.resume(Reply::Built(Ok(())), ui);
            let (s6, r6) = s5.resume(Reply::Switched(true), ui);
            &&& r1 == RequestView::QueryContext
            &&& r2 == RequestView::CreateContext { target }
            &&& r3 == RequestView::MakeCurrent { target, context: overlay }
            &&& r4 == RequestView::BuildPainter
            &&& r5 == RequestView::MakeCurrent { target, context: original }
            &&& r6 == RequestView::Done(Ok(()))
            &&& s6 == OverlayView::Ready(
                fresh_session(ui, target, original, overlay),
                SessionStage::Idle,
            )
            &&& s6.begin_init(again) == (s6, RequestView::Done(Err(Error::AlreadyInit)))
        }),
{
}

/// A destroy releases the overlay's context and then the painter, ends with
/// success whether or not the context could be deleted, and leaves the
/// session as it was: the overlay stays initialized.
pub proof fn lemma_destroy_keeps_session(session: SessionView, deleted: bool, fresh: egui::Context)
    ensures
        ({
            let state = OverlayView::Ready(session, SessionStage::Idle);
            let (s1, r1) = state.begin_destroy();
            let (s2, r2) = s1.resume(Reply::Deleted(deleted), fresh);
            let (s3, r3) = s2.resume(Reply::Completed, fresh);
            &&& r1 == RequestView::DeleteContext { context: session.overlay }
            &&& r2 == RequestView::DestroyPainter
            &&& r3 == RequestView::Done(Ok(()))
            &&& s3 == state
        }),
{
}

/// The screen size depends on nothing in the overlay but whether the session
/// exists. So two queries that find the same client rectangle give the same
/// size, whatever messages and operations came between them.
pub proof fn lemma_screen_size_repeatable(
    first: OverlayView,
    second: OverlayView,
    rect: Option<ClientRect>,
)
    requires
        first.is_init() == second.is_init(),
    ensures
        first.screen_size(rect) == second.screen_size(rect),
{
}

/// A message puts its events behind those already pending, in their order,
/// and takes none away.
pub proof fn lemma_message_appends(
    state: OverlayView,
    umsg: u32,
    wparam: usize,
    lparam: isize,
    live: LiveView,
)
    requires
        state.is_init(),
    ensures
        state.after_message(umsg, wparam, lparam, live).pending() == state.pending() + events_of(
            umsg,
            wparam,
            lparam,
            live,
        ),
{
}

/// The beginning of an operation neither takes nor drops a pending event.
pub proof fn lemma_begin_keeps_queue(state: OverlayView, target: Surface)
    ensures
        state.begin_init(target).0.pending() == state.pending(),
        state.begin_paint(target).0.pending() == state.pending(),
        state.begin_destroy().0.pending() == state.pending(),
{
}

/// A step of an operation on a session either asks for a frame to be run,
/// hands it every pending event in order and leaves the queue empty, or
/// leaves the queue as it was. So each event reaches exactly one frame.
pub proof fn lemma_step_drains_or_keeps(state: OverlayView, reply: Reply, fresh: egui::Context)
    requires
        state.is_init(),
        state.awaits(reply),
    ensures
        ({
            let (next, request) = state.resume(reply, fresh);
            &&& next.is_init()
            &&& match request {
                RequestView::RunFrame(input) => {
                    &&& input.events == state.pending()
                    &&& next.pending() == Seq::<EventView>::empty()
                },
                _ => next.pending() == state.pending(),
            }
        }),
{
}

/// A paint in which the host succeeds at every step hands the frame exactly
/// the events that were pending when it began, and ends with success, with
/// the queue empty and the session otherwise as it was.
pub proof fn lemma_paint_round_trip(
    session: SessionView,
    rect: ClientRect,
    ticks: i64,
    again: ClientRect,
    fresh: egui::Context,
)
    ensures
        ({
            let state = OverlayView::Ready(session, SessionStage::Idle);
            let (s1, r1) = state.begin_paint(session.target);
            let (s2, r2) = s1.resume(Reply::Switched(true), fresh);
            let (s3, r3) = s2.resume(Reply::Measured(Some(rect)), fresh);
            let (s4, r4) = s3.resume(Reply::Clock(ticks), fresh);
            let (s5, r5) = s4.resume(Reply::Completed, fresh);
            let (s6, r6) = s5.resume(Reply::Measured(Some(again)), fresh);
            let (s7, r7) = s6.resume(Reply::Completed, fresh);
            let (s8, r8) = s7.resume(Reply::Switched(true), fresh);
            &&& r1 == RequestView::MakeCurrent { target: session.target, context: session.overlay }
            &&& r2 == RequestView::MeasureWindow { target: session.target }
            &&& r3 == RequestView::ReadClock
            &&& r4 matches RequestView::RunFrame(input) && input.events == session.events
            &&& r5 == RequestView::MeasureWindow { target: session.target }
            &&& r6 matches RequestView::PaintFrame { .. }
            &&& r7 == RequestView::MakeCurrent { target: session.target, context: session.original }
            &&& r8 == RequestView::Done(Ok(()))
            &&& s8 == OverlayView::Ready(
                SessionView { events: Seq::empty(), ..session },
                SessionStage::Idle,
            )
        }),
{
}

/// A paint whose first measurement fails runs no frame and loses no event:
/// it asks for the host's context to be made current again, ends with
/// `WindowSize` whether or not that succeeded, and leaves the session, with
/// everything pending, as it was. So what was pending still reaches the frame
/// of a later paint.
pub proof fn lemma_failed_measurement_keeps_queue(session: SessionView, restored: bool, fresh: egui::Context)
    ensures
        ({
            let state = OverlayView::Ready(session, SessionStage::Idle);
            let (s1, r1) = state.begin_paint(session.target);
            let (s2, r2) = s1.resume(Reply::Switched(true), fresh);
            let (s3, r3) = s2.resume(Reply::Measured(None), fresh);
            let (s4, r4) = s3.resume(Reply::Switched(restored), fresh);
            &&& r2 == RequestView::MeasureWindow { target: session.target }
            &&& r3 == RequestView::MakeCurrent { target: session.target, context: session.original }
            &&& r4 == RequestView::Done(Err(Error::WindowSize))
            &&& s4 == state
            &&& s4.pending() == session.events
        }),
{
}

/// A paint whose second measurement fails has run its frame on everything
/// that was pending. It paints nothing, asks for the host's context to be
/// made current again, and ends with `WindowSize`, with the queue empty.
pub proof fn lemma_failed_second_measurement(
    session: SessionView,
    rect: ClientRect,
    ticks: i64,
    restored: bool,
    fresh: egui::Context,
)
    ensures
        ({
            let state = OverlayView::Ready(session, SessionStage::Idle);
            let (s1, r1) = state.begin_paint(session.target);
            let (s2, r2) = s1.resume(Reply::Switched(true), fresh);
            let (s3, r3) = s2.resume(Reply::Measured(Some(rect)), fresh);
            let (s4, r4) = s3.resume(Reply::Clock(ticks), fresh);
            let (s5, r5) = s4.resume(Reply::Completed, fresh);
            let (s6, r6) = s5.resume(Reply::Measured(None), fresh);
            let (s7, r7) = s6.resume(Reply::Switched(restored), fresh);
            &&& r4 matches RequestView::RunFrame(input) && input.events == session.events
            &&& r6 == RequestView::MakeCurrent { target: session.target, context: session.original }
            &&& r7 == RequestView::Done(Err(Error::WindowSize))
            &&& s7 == OverlayView::Ready(
                SessionView { events: Seq::empty(), ..session },
                SessionStage::Idle,
            )
        }),
{
}

/// A paint to another target than the last first captures the context that
/// is current and from then on takes it for the host's; the target changes
/// with the first request already.
pub proof fn lemma_paint_retargets(session: SessionView, target: Surface, current: GlContext, fresh: egui::Context)
    requires
        target != session.target,
    ensures
        ({
            let state = OverlayView::Ready(session, SessionStage::Idle);
            let (s1, r1) = state.begin_paint(target);
            let (s2, r2) = s1.resume(Reply::Context(current), fresh);
            &&& r1 == RequestView::QueryContext
            &&& r2 == RequestView::MakeCurrent { target, context: session.overlay }
            &&& s2 == OverlayView::Ready(
                SessionView { target, original: current, ..session },
                SessionStage::Enter,
            )
        }),
{
}

/// Whatever begins an operation, the request handed out fits the overlay
/// left behind.
pub proof fn lemma_begin_fits(state: OverlayView, target: Surface)
    requires
        state.is_idle(),
    ensures
        fits(state.begin_init(target).0, state.begin_init(target).1),
        fits(state.begin_paint(target).0, state.begin_paint(target).1),
        fits(state.begin_destroy().0, state.begin_destroy().1),
{
}

/// After every step the request handed out fits the overlay left behind. So
/// a host that answers each request in kind always meets what the next step
/// asks of the reply, and the operation is over exactly when it is told
/// `Done`.
pub proof fn lemma_step_fits(state: OverlayView, reply: Reply, fresh: egui::Context)
    requires
        state.awaits(reply),
    ensures
        fits(state.resume(reply, fresh).0, state.resume(reply, fresh).1),
{
}

/// Every step brings the operation nearer to its end: an init ends within
/// five replies, a paint within eight, a destroy within two.
pub proof fn lemma_step_progresses(state: OverlayView, reply: Reply, fresh: egui::Context)
    requires
        state.awaits(reply),
    ensures
        state.resume(reply, fresh).0.remaining() < state.remaining(),
        state.remaining() <= 8,
        state.is_idle() <==> state.remaining() == 0,
{
}

/// A request to make a context current names the overlay's context on the
/// way in and the host's context on the way back, always on the overlay's
/// target.
pub proof fn lemma_switch_names(state: OverlayView, reply: Reply, fresh: egui::Context)
    requires
        state.awaits(reply),
    ensures
        state.resume(reply, fresh).1 matches RequestView::MakeCurrent { target, context } ==> {
            let next = state.resume(reply, fresh).0;
            &&& next.contexts() matches Some(known)
            &&& target == known.0
            &&& next.entering() || next.restoring()
            &&& next.entering() ==> context == known.2
            &&& next.restoring() ==> context == known.1
        },
{
}

/// The only way into the overlay's context is a switch to it that the host
/// reports as done, the only way out is a request to switch back, and work
/// that needs the overlay's context is asked for only inside. In particular
/// no operation ends inside: on every path, also after a failure, the host is
/// first asked to make its own context current again.
pub proof fn lemma_context_discipline(state: OverlayView, reply: Reply, fresh: egui::Context)
    requires
        state.awaits(reply),
    ensures
        ({
            let (next, request) = state.resume(reply, fresh);
            &&& next.inside() ==> state.inside() || (state.entering() && reply == Reply::Switched(
                true,
            ))
            &&& state.inside() ==> next.inside() || next.restoring()
            &&& next.restoring() ==> state.inside()
            &&& is_overlay_work(request) ==> next.inside()
            &&& request is Done ==> !state.inside()
        }),
{
}

/// No operation begins inside the overlay's context, and none begins with
/// work that needs it.
pub proof fn lemma_begin_outside(state: OverlayView, target: Surface)
    requires
        state.is_idle(),
    ensures
        !state.begin_init(target).0.inside() && !is_overlay_work(state.begin_init(target).1),
        !state.begin_paint(target).0.inside() && !is_overlay_work(state.begin_paint(target).1),
        !state.begin_destroy().0.inside() && !is_overlay_work(state.begin_destroy().1),
{
}

/// Once the session exists, no step takes it away or changes its UI context,
/// its target or the overlay's context, and only the capture at the start of
/// a retargeted paint changes what it takes for the host's context.
pub proof fn lemma_session_persists(session: SessionView, stage: SessionStage, reply: Reply, fresh: egui::Context)
    requires
        OverlayView::Ready(session, stage).awaits(reply),
    ensures
        OverlayView::Ready(session, stage).resume(reply, fresh).0 matches OverlayView::Ready(after, _)
            && after.ui == session.ui && after.target == session.target && after.overlay
            == session.overlay && after.modifiers == session.modifiers && (!(stage is Capture)
            ==> after.original == session.original),
{
}

/// The context that is current after the host's reply, if `current` was
/// before: a switch that the host reports as done makes the context asked
/// for current, and nothing else that the session asks for changes it.
pub open spec fn current_after(state: OverlayView, current: GlContext, reply: Reply) -> GlContext {
    match (state.switching_to(), reply) {
        (Some(context), Reply::Switched(true)) => context,
        _ => current,
    }
}

/// While an operation is inside, the overlay's context is the current one;
/// and when the host reports the way back as done, the context that the
/// session takes for the host's is current again.
pub proof fn lemma_current_context(state: OverlayView, current: GlContext, reply: Reply, fresh: egui::Context)
    requires
        state.awaits(reply),
        state.inside() ==> state.overlay_context() == Some(current),
    ensures
        ({
            let next = state.resume(reply, fresh).0;
            let now = current_after(state, current, reply);
            &&& next.inside() ==> next.overlay_context() == Some(now)
            &&& state.restoring() && reply == Reply::Switched(true) ==> state.host_context()
                == Some(now)
        }),
{
}

/// The failures that an operation can end with, and what they leave.
///
/// An operation fails at its beginning only with `NotInit` or `AlreadyInit`,
/// and after a reply only with `CtxCreate`, `CtxSwitch`, `WindowSize` or the
/// painter's failure, of which an operation on a session never meets the
/// first and the last. A failure neither makes nor unmakes the session: the
/// session comes to be exactly when an init ends with success.
pub proof fn lemma_failures(state: OverlayView, target: Surface, reply: Reply, fresh: egui::Context)
    requires
        state.is_idle() || state.awaits(reply),
    ensures
        state.is_idle() ==> {
            &&& state.begin_init(target).1 matches RequestView::Done(outcome) ==> outcome == Err::<
                (),
                Error,
            >(Error::AlreadyInit)
            &&& state.begin_paint(target).1 matches RequestView::Done(outcome) ==> outcome == Err::<
                (),
                Error,
            >(Error::NotInit)
            &&& state.begin_destroy().1 matches RequestView::Done(outcome) ==> outcome == Err::<
                (),
                Error,
            >(Error::NotInit)
        },
        state.awaits(reply) ==> {
            let (next, request) = state.resume(reply, fresh);
            &&& request matches RequestView::Done(Err(error)) ==> {
                ||| error is CtxSwitch
                ||| error is WindowSize && state.is_init()
                ||| error is CtxCreate && !state.is_init()
                ||| error is PainterError && !state.is_init()
            }
            &&& next.is_init() <==> state.is_init() || request == RequestView::Done(Ok(()))
        },
{
}

} // verus!
