//! The render session: one overlay per process, from init to destroy.
//!
//! The session owns the UI context, the queue of pending events, the
//! last-known modifiers, and the identities of the target surface and of two
//! graphics contexts: the host's own, and the one the overlay draws in. It
//! never touches the driver or the window system. Every operation is a run of
//! requests that the host carries out one by one (see [`crate::protocol`]).
//!
//! Operations do not interleave: while one is in flight the host begins no
//! other. The session does not lock anything to enforce that. It relies on
//! the host presenting frames and dispatching messages one at a time.

use crate::error::Error;
use crate::event::{views, Event, EventView, Modifiers};
use crate::frame::{get_raw_input, snapshot};
use crate::platform::{client_size, size_of_rect, ClientRect, GlContext, Surface};
use crate::protocol::{Reply, Request, RequestView};
use crate::translate::{
    consumes, events_of, is_keyboard_class, is_pointer_class, modifiers_after, translatable,
    translate, Live, LiveView,
};
use crate::ui::{new_ui_context, ui_wants_keyboard, ui_wants_pointer};
use vstd::prelude::*;

verus! {

/// How far an init has come. The overlay is vacant throughout.
#[derive(Debug)]
pub enum InitStage {
    /// No init is in flight.
    Idle,
    /// Asked which context is current.
    Capture { target: Surface },
    /// Asked for the overlay's context.
    Create { target: Surface, original: GlContext },
    /// Asked to make the overlay's context current.
    Enter { target: Surface, original: GlContext, overlay: GlContext },
    /// Asked for the painter, with the overlay's context current.
    Build { target: Surface, original: GlContext, overlay: GlContext },
    /// Asked to make the host's context current again, with the UI context
    /// made or with the painter's failure.
    Leave {
        target: Surface,
        original: GlContext,
        overlay: GlContext,
        built: Result<egui::Context, egui_glow::PainterError>,
    },
}

/// How far a paint or a destroy has come. The session exists throughout.
#[derive(Debug)]
pub enum SessionStage {
    /// No operation is in flight.
    Idle,
    /// Paint: asked which context is current, the target having changed.
    Capture,
    /// Paint: asked to make the overlay's context current.
    Enter,
    /// Paint: asked for the window's size, for the frame's input.
    Measure,
    /// Paint: asked for the time, for the frame's input.
    Clock { width: u32, height: u32 },
    /// Paint: asked to run the UI frame.
    Run,
    /// Paint: asked for the window's size, for painting.
    Remeasure,
    /// Paint: asked to paint the frame.
    Draw,
    /// Paint: asked to make the host's context current again, after a
    /// measurement that failed or after the frame was painted.
    Leave { unmeasured: bool },
    /// Destroy: asked to delete the overlay's context.
    DeleteContext,
    /// Destroy: asked to release the painter's graphics objects.
    DestroyPainter,
}

/// What an initialized session holds.
pub struct SessionView {
    /// The UI context that frames are run in.
    pub ui: egui::Context,
    /// The events that no frame has taken yet, oldest first.
    pub events: Seq<EventView>,
    /// The modifiers that the latest message reported, once a key message has
    /// come.
    pub modifiers: Option<Modifiers>,
    /// The surface that the session renders to.
    pub target: Surface,
    /// The host's graphics context, restored after each paint.
    pub original: GlContext,
    /// The overlay's own graphics context.
    pub overlay: GlContext,
}

/// What an overlay is: vacant, perhaps with an init in flight, or ready, with
/// its session and perhaps a paint or a destroy in flight.
pub enum OverlayView {
    Vacant(InitStage),
    Ready(SessionView, SessionStage),
}

impl OverlayView {
    /// Whether the session exists.
    pub open spec fn is_init(self) -> bool {
        self is Ready
    }

    /// Whether no operation is in flight.
    pub open spec fn is_idle(self) -> bool {
        match self {
            OverlayView::Vacant(stage) => stage is Idle,
            OverlayView::Ready(_, stage) => stage is Idle,
        }
    }

    /// Whether the operation in flight waits for a reply of the kind of
    /// `reply`.
    pub open spec fn awaits(self, reply: Reply) -> bool {
        match self {
            OverlayView::Vacant(stage) => match stage {
                InitStage::Idle => false,
                InitStage::Capture { .. } => reply is Context,
                InitStage::Create { .. } => reply is Created,
                InitStage::Enter { .. } => reply is Switched,
                InitStage::Build { .. } => reply is Built,
                InitStage::Leave { .. } => reply is Switched,
            },
            OverlayView::Ready(_, stage) => match stage {
                SessionStage::Idle => false,
                SessionStage::Capture => reply is Context,
                SessionStage::Enter => reply is Switched,
                SessionStage::Measure => reply is Measured,
                SessionStage::Clock { .. } => reply is Clock,
                SessionStage::Run => reply is Completed,
                SessionStage::Remeasure => reply is Measured,
                SessionStage::Draw => reply is Completed,
                SessionStage::Leave { .. } => reply is Switched,
                SessionStage::DeleteContext => reply is Deleted,
                SessionStage::DestroyPainter => reply is Completed,
            },
        }
    }

    /// An init begins. On a ready overlay it fails at once. On a vacant one
    /// it first asks which context is current, to restore it later.
    pub open spec fn begin_init(self, target: Surface) -> (OverlayView, RequestView) {
        match self {
            OverlayView::Ready(_, _) => (self, RequestView::Done(Err(Error::AlreadyInit))),
            OverlayView::Vacant(_) => (
                OverlayView::Vacant(InitStage::Capture { target }),
                RequestView::QueryContext,
            ),
        }
    }

    /// A paint begins. On a vacant overlay it fails at once. On a ready one
    /// it adopts the target. If that differs from the target so far, it first
    /// asks which context is current, to take it for the host's from now on;
    /// if not, it asks for the overlay's context to be made current.
    pub open spec fn begin_paint(self, target: Surface) -> (OverlayView, RequestView) {
        match self {
            OverlayView::Vacant(_) => (self, RequestView::Done(Err(Error::NotInit))),
            OverlayView::Ready(session, _) => if session.target != target {
                (
                    OverlayView::Ready(SessionView { target, ..session }, SessionStage::Capture),
                    RequestView::QueryContext,
                )
            } else {
                (
                    OverlayView::Ready(session, SessionStage::Enter),
                    RequestView::MakeCurrent { target, context: session.overlay },
                )
            },
        }
    }

    /// A destroy begins. On a vacant overlay it fails at once. On a ready one
    /// it asks for the overlay's context to be deleted.
    pub open spec fn begin_destroy(self) -> (OverlayView, RequestView) {
        match self {
            OverlayView::Vacant(_) => (self, RequestView::Done(Err(Error::NotInit))),
            OverlayView::Ready(session, _) => (
                OverlayView::Ready(session, SessionStage::DeleteContext),
                RequestView::DeleteContext { context: session.overlay },
            ),
        }
    }

    /// The overlay after a reply, and the next request. `fresh` is the UI
    /// context that is made for the session if the reply is that the painter
    /// was built; no other step looks at it.
    pub open spec fn resume(self, reply: Reply, fresh: egui::Context) -> (
        OverlayView,
        RequestView,
    ) {
        match self {
            OverlayView::Vacant(stage) => resume_init(stage, reply, fresh),
            OverlayView::Ready(session, stage) => resume_session(session, stage, reply),
        }
    }

    /// The UI context that the overlay holds: the session's, or the one made
    /// for a session whose init is on its way back. Of an overlay that holds
    /// none this says nothing.
    pub open spec fn ui(self) -> egui::Context {
        match self {
            OverlayView::Vacant(InitStage::Leave { built: Ok(ui), .. }) => ui,
            OverlayView::Ready(session, _) => session.ui,
            _ => arbitrary(),
        }
    }

    /// The overlay after a window message: a vacant one unchanged; a ready one
    /// with the events of the message behind those already pending, and with
    /// the modifiers brought up to date.
    pub open spec fn after_message(
        self,
        umsg: u32,
        wparam: usize,
        lparam: isize,
        live: LiveView,
    ) -> OverlayView {
        match self {
            OverlayView::Vacant(_) => self,
            OverlayView::Ready(session, stage) => OverlayView::Ready(
                SessionView {
                    events: session.events + events_of(umsg, wparam, lparam, live),
                    modifiers: modifiers_after(session.modifiers, umsg, wparam, live),
                    ..session
                },
                stage,
            ),
        }
    }

    /// The size of the screen, given what the query for the client rectangle
    /// of the target's window brought.
    pub open spec fn screen_size(self, rect: Option<ClientRect>) -> Result<(u32, u32), Error> {
        match self {
            OverlayView::Vacant(_) => Err(Error::NotInit),
            OverlayView::Ready(_, _) => match rect {
                Some(rect) => Ok(client_size(rect)),
                None => Err(Error::WindowSize),
            },
        }
    }
}

/// The session that a completed init leaves: nothing pending, no modifiers
/// known.
pub open spec fn fresh_session(
    ui: egui::Context,
    target: Surface,
    original: GlContext,
    overlay: GlContext,
) -> SessionView {
    SessionView { ui, events: Seq::empty(), modifiers: None, target, original, overlay }
}

/// One step of an init. What it says of a reply that the stage does not wait
/// for is of no account: [`resume`] takes none.
///
/// The context that is current is captured as the host's. The overlay's
/// context is created against the target and made current; a refusal of
/// either ends the init with `CtxCreate` or `CtxSwitch`. Then the painter is
/// built and, if that succeeded, the UI context `fresh` is made; and whether
/// or not it succeeded, the host's context is made current again. Only then
/// does the init end: with the painter's failure if it failed, else with
/// `CtxSwitch` if the way back failed, else with the session in place.
pub open spec fn resume_init(stage: InitStage, reply: Reply, fresh: egui::Context) -> (
    OverlayView,
    RequestView,
) {
    let vacant = OverlayView::Vacant(InitStage::Idle);
    match (stage, reply) {
        (InitStage::Capture { target }, Reply::Context(original)) => (
            OverlayView::Vacant(InitStage::Create { target, original }),
            RequestView::CreateContext { target },
        ),
        (InitStage::Create { target, original }, Reply::Created(Some(overlay))) => (
            OverlayView::Vacant(InitStage::Enter { target, original, overlay }),
            RequestView::MakeCurrent { target, context: overlay },
        ),
        (InitStage::Create { .. }, Reply::Created(None)) => (
            vacant,
            RequestView::Done(Err(Error::CtxCreate)),
        ),
        (InitStage::Enter { target, original, overlay }, Reply::Switched(true)) => (
            OverlayView::Vacant(InitStage::Build { target, original, overlay }),
            RequestView::BuildPainter,
        ),
        (InitStage::Enter { .. }, Reply::Switched(false)) => (
            vacant,
            RequestView::Done(Err(Error::CtxSwitch)),
        ),
        (InitStage::Build { target, original, overlay }, Reply::Built(painter)) => (
            OverlayView::Vacant(
                InitStage::Leave {
                    target,
                    original,
                    overlay,
                    built: match painter {
                        Ok(_) => Ok(fresh),
                        Err(cause) => Err(cause),
                    },
                },
            ),
            RequestView::MakeCurrent { target, context: original },
        ),
        (InitStage::Leave { target, original, overlay, built }, Reply::Switched(restored)) => {
            match built {
                Err(cause) => (vacant, RequestView::Done(Err(Error::PainterError(cause)))),
                Ok(ui) => if restored {
                    (
                        OverlayView::Ready(
                            fresh_session(ui, target, original, overlay),
                            SessionStage::Idle,
                        ),
                        RequestView::Done(Ok(())),
                    )
                } else {
                    (vacant, RequestView::Done(Err(Error::CtxSwitch)))
                },
            }
        },
        _ => (OverlayView::Vacant(stage), RequestView::Done(Err(Error::NotInit))),
    }
}

/// One step of a paint or of a destroy. What it says of a reply that the
/// stage does not wait for is of no account: [`resume`] takes none.
///
/// A paint captures the current context as the host's if the target changed,
/// and makes the overlay's context current; a refusal ends it with
/// `CtxSwitch`. It measures the window and reads the clock, hands all pending
/// events to one UI frame, measures again and paints. Then, or as soon as a
/// measurement fails, it makes the host's context current again, and only
/// then ends: with `WindowSize` if a measurement failed, else with
/// `CtxSwitch` if the way back failed, else with success.
///
/// A destroy deletes the overlay's context, releases the painter whether or
/// not the deletion succeeded, and ends with success. The session stays.
pub open spec fn resume_session(session: SessionView, stage: SessionStage, reply: Reply) -> (
    OverlayView,
    RequestView,
) {
    let restore = RequestView::MakeCurrent { target: session.target, context: session.original };
    let measure = RequestView::MeasureWindow { target: session.target };
    match (stage, reply) {
        (SessionStage::Capture, Reply::Context(original)) => (
            OverlayView::Ready(SessionView { original, ..session }, SessionStage::Enter),
            RequestView::MakeCurrent { target: session.target, context: session.overlay },
        ),
        (SessionStage::Enter, Reply::Switched(true)) => (
            OverlayView::Ready(session, SessionStage::Measure),
            measure,
        ),
        (SessionStage::Enter, Reply::Switched(false)) => (
            OverlayView::Ready(session, SessionStage::Idle),
            RequestView::Done(Err(Error::CtxSwitch)),
        ),
        (SessionStage::Measure, Reply::Measured(Some(rect))) => (
            OverlayView::Ready(
                session,
                SessionStage::Clock { width: client_size(rect).0, height: client_size(rect).1 },
            ),
            RequestView::ReadClock,
        ),
        (SessionStage::Measure, Reply::Measured(None)) => (
            OverlayView::Ready(session, SessionStage::Leave { unmeasured: true }),
            restore,
        ),
        (SessionStage::Clock { width, height }, Reply::Clock(ticks)) => (
            OverlayView::Ready(SessionView { events: Seq::empty(), ..session }, SessionStage::Run),
            RequestView::RunFrame(
                snapshot(session.modifiers, session.events, width, height, ticks),
            ),
        ),
        (SessionStage::Run, Reply::Completed) => (
            OverlayView::Ready(session, SessionStage::Remeasure),
            measure,
        ),
        (SessionStage::Remeasure, Reply::Measured(Some(rect))) => (
            OverlayView::Ready(session, SessionStage::Draw),
            RequestView::PaintFrame { width: client_size(rect).0, height: client_size(rect).1 },
        ),
        (SessionStage::Remeasure, Reply::Measured(None)) => (
            OverlayView::Ready(session, SessionStage::Leave { unmeasured: true }),
            restore,
        ),
        (SessionStage::Draw, Reply::Completed) => (
            OverlayView::Ready(session, SessionStage::Leave { unmeasured: false }),
            restore,
        ),
        (SessionStage::Leave { unmeasured }, Reply::Switched(restored)) => (
            OverlayView::Ready(session, SessionStage::Idle),
            RequestView::Done(
                if unmeasured {
                    Err(Error::WindowSize)
                } else if restored {
                    Ok(())
                } else {
                    Err(Error::CtxSwitch)
                },
            ),
        ),
        (SessionStage::DeleteContext, Reply::Deleted(_)) => (
            OverlayView::Ready(session, SessionStage::DestroyPainter),
            RequestView::DestroyPainter,
        ),
        (SessionStage::DestroyPainter, Reply::Completed) => (
            OverlayView::Ready(session, SessionStage::Idle),
            RequestView::Done(Ok(())),
        ),
        _ => (OverlayView::Ready(session, stage), RequestView::Done(Err(Error::NotInit))),
    }
}

/// An initialized session.
#[derive(Debug)]
struct Session {
    ui: egui::Context,
    events: Vec<Event>,
    modifiers: Option<Modifiers>,
    target: Surface,
    original: GlContext,
    overlay: GlContext,
}

#[derive(Debug)]
enum Slot {
    Vacant(InitStage),
    Ready(Session, SessionStage),
}

/// The overlay of a process: the place of its one session.
#[derive(Debug)]
pub struct Overlay {
    slot: Slot,
}

impl View for Session {
    type V = SessionView;

    closed spec fn view(&self) -> SessionView {
        SessionView {
            ui: self.ui,
            events: views(self.events@),
            modifiers: self.modifiers,
            target: self.target,
            original: self.original,
            overlay: self.overlay,
        }
    }
}

impl View for Slot {
    type V = OverlayView;

    closed spec fn view(&self) -> OverlayView {
        match *self {
            Slot::Vacant(stage) => OverlayView::Vacant(stage),
            Slot::Ready(session, stage) => OverlayView::Ready(session@, stage),
        }
    }
}

impl View for Overlay {
    type V = OverlayView;

    closed spec fn view(&self) -> OverlayView {
        self.slot@
    }
}

impl Overlay {
    /// A vacant overlay with nothing in flight.
    pub fn new() -> (overlay: Overlay)
        ensures
            overlay@ == OverlayView::Vacant(InitStage::Idle),
    {
        Overlay { slot: Slot::Vacant(InitStage::Idle) }
    }

    fn take(&mut self) -> (slot: Slot)
        ensures
            slot@ == old(self)@,
    {
        let mut slot = Slot::Vacant(InitStage::Idle);
        core::mem::swap(&mut self.slot, &mut slot);
        slot
    }
}

/// Tells whether the session exists.
pub fn is_init(state: &Overlay) -> (init: bool)
    ensures
        init == state@.is_init(),
{
    match &state.slot {
        Slot::Vacant(_) => false,
        Slot::Ready(_, _) => true,
    }
}

/// The surface that the session renders to, if the session exists.
pub fn target(state: &Overlay) -> (target: Option<Surface>)
    ensures
        target == match state@ {
            OverlayView::Vacant(_) => None,
            OverlayView::Ready(session, _) => Some(session.target),
        },
{
    match &state.slot {
        Slot::Vacant(_) => None,
        Slot::Ready(session, _) => Some(session.target),
    }
}

/// The UI context that the session runs its frames in, if the session
/// exists.
pub fn ui_context(state: &Overlay) -> (ui: Option<&egui::Context>)
    ensures
        ui == match state@ {
            OverlayView::Vacant(_) => None,
            OverlayView::Ready(session, _) => Some(&session.ui),
        },
{
    match &state.slot {
        Slot::Vacant(_) => None,
        Slot::Ready(session, _) => Some(&session.ui),
    }
}

/// Tells whether no operation is in flight, so that one may begin.
pub fn is_idle(state: &Overlay) -> (idle: bool)
    ensures
        idle == state@.is_idle(),
{
    match &state.slot {
        Slot::Vacant(InitStage::Idle) => true,
        Slot::Ready(_, SessionStage::Idle) => true,
        _ => false,
    }
}

/// Tells whether a reply is of the kind that the operation in flight waits
/// for.
pub fn awaits(state: &Overlay, reply: &Reply) -> (awaited: bool)
    ensures
        awaited == state@.awaits(*reply),
{
    match &state.slot {
        Slot::Vacant(stage) => match stage {
            InitStage::Idle => false,
            InitStage::Capture { .. } => matches!(reply, Reply::Context(_)),
            InitStage::Create { .. } => matches!(reply, Reply::Created(_)),
            InitStage::Enter { .. } => matches!(reply, Reply::Switched(_)),
            InitStage::Build { .. } => matches!(reply, Reply::Built(_)),
            InitStage::Leave { .. } => matches!(reply, Reply::Switched(_)),
        },
        Slot::Ready(_, stage) => match stage {
            SessionStage::Idle => false,
            SessionStage::Capture => matches!(reply, Reply::Context(_)),
            SessionStage::Enter => matches!(reply, Reply::Switched(_)),
            SessionStage::Measure => matches!(reply, Reply::Measured(_)),
            SessionStage::Clock { .. } => matches!(reply, Reply::Clock(_)),
            SessionStage::Run => matches!(reply, Reply::Completed),
            SessionStage::Remeasure => matches!(reply, Reply::Measured(_)),
            SessionStage::Draw => matches!(reply, Reply::Completed),
            SessionStage::Leave { .. } => matches!(reply, Reply::Switched(_)),
            SessionStage::DeleteContext => matches!(reply, Reply::Deleted(_)),
            SessionStage::DestroyPainter => matches!(reply, Reply::Completed),
        },
    }
}

/// Begins to initialize the session for a target surface.
///
/// Returns the first request of the init, or `Done` with `AlreadyInit` where
/// the session exists already.
pub fn init(state: &mut Overlay, target: Surface) -> (request: Request)
    requires
        old(state)@.is_idle(),
    ensures
        (final(state)@, request@) == old(state)@.begin_init(target),
{
    match state.take() {
        Slot::Ready(session, stage) => {
            state.slot = Slot::Ready(session, stage);
            Request::Done(Err(Error::AlreadyInit))
        },
        Slot::Vacant(_) => {
            state.slot = Slot::Vacant(InitStage::Capture { target });
            Request::QueryContext
        },
    }
}

/// Begins to paint one frame to a target surface.
///
/// Returns the first request of the paint, or `Done` with `NotInit` where no
/// session exists.
pub fn paint(state: &mut Overlay, target: Surface) -> (request: Request)
    requires
        old(state)@.is_idle(),
    ensures
        (final(state)@, request@) == old(state)@.begin_paint(target),
{
    match state.take() {
        Slot::Vacant(stage) => {
            state.slot = Slot::Vacant(stage);
            Request::Done(Err(Error::NotInit))
        },
        Slot::Ready(mut session, _) => {
            if session.target != target {
                session.target = target;
                state.slot = Slot::Ready(session, SessionStage::Capture);
                Request::QueryContext
            } else {
                let context = session.overlay;
                state.slot = Slot::Ready(session, SessionStage::Enter);
                Request::MakeCurrent { target, context }
            }
        },
    }
}

/// Begins to tear the session's graphics objects down.
///
/// Returns the first request of the destroy, or `Done` with `NotInit` where
/// no session exists.
pub fn destroy(state: &mut Overlay) -> (request: Request)
    requires
        old(state)@.is_idle(),
    ensures
        (final(state)@, request@) == old(state)@.begin_destroy(),
{
    match state.take() {
        Slot::Vacant(stage) => {
            state.slot = Slot::Vacant(stage);
            Request::Done(Err(Error::NotInit))
        },
        Slot::Ready(session, _) => {
            let context = session.overlay;
            state.slot = Slot::Ready(session, SessionStage::DeleteContext);
            Request::DeleteContext { context }
        },
    }
}

fn advance_init(stage: InitStage, reply: Reply) -> (next: (Slot, Request))
    requires
        OverlayView::Vacant(stage).awaits(reply),
    ensures
        (next.0@, next.1@) == resume_init(stage, reply, next.0@.ui()),
{
    match (stage, reply) {
        (InitStage::Capture { target }, Reply::Context(original)) => (
            Slot::Vacant(InitStage::Create { target, original }),
            Request::CreateContext { target },
        ),
        (InitStage::Create { target, original }, Reply::Created(Some(overlay))) => (
            Slot::Vacant(InitStage::Enter { target, original, overlay }),
            Request::MakeCurrent { target, context: overlay },
        ),
        (InitStage::Create { .. }, Reply::Created(None)) => (
            Slot::Vacant(InitStage::Idle),
            Request::Done(Err(Error::CtxCreate)),
        ),
        (InitStage::Enter { target, original, overlay }, Reply::Switched(true)) => (
            Slot::Vacant(InitStage::Build { target, original, overlay }),
            Request::BuildPainter,
        ),
        (InitStage::Enter { .. }, Reply::Switched(false)) => (
            Slot::Vacant(InitStage::Idle),
            Request::Done(Err(Error::CtxSwitch)),
        ),
        (InitStage::Build { target, original, overlay }, Reply::Built(painter)) => {
            let built = match painter {
                Ok(_) => Ok(new_ui_context()),
                Err(cause) => Err(cause),
            };
            (
                Slot::Vacant(InitStage::Leave { target, original, overlay, built }),
                Request::MakeCurrent { target, context: original },
            )
        },
        (InitStage::Leave { target, original, overlay, built }, Reply::Switched(restored)) => {
            match built {
                Err(cause) => (
                    Slot::Vacant(InitStage::Idle),
                    Request::Done(Err(Error::PainterError(cause))),
                ),
                Ok(ui) => if restored {
                    let session = Session {
                        ui,
                        events: Vec::new(),
                        modifiers: None,
                        target,
                        original,
                        overlay,
                    };
                    assert(session@.events =~= Seq::<EventView>::empty());
                    (Slot::Ready(session, SessionStage::Idle), Request::Done(Ok(())))
                } else {
                    (Slot::Vacant(InitStage::Idle), Request::Done(Err(Error::CtxSwitch)))
                },
            }
        },
        _ => vstd::pervasive::unreached(),
    }
}

fn advance_session(session: Session, stage: SessionStage, reply: Reply) -> (next: (Slot, Request))
    requires
        OverlayView::Ready(session@, stage).awaits(reply),
    ensures
        (next.0@, next.1@) == resume_session(session@, stage, reply),
{
    let mut session = session;
    let target = session.target;
    match (stage, reply) {
        (SessionStage::Capture, Reply::Context(original)) => {
            session.original = original;
            let context = session.overlay;
            (Slot::Ready(session, SessionStage::Enter), Request::MakeCurrent { target, context })
        },
        (SessionStage::Enter, Reply::Switched(true)) => (
            Slot::Ready(session, SessionStage::Measure),
            Request::MeasureWindow { target },
        ),
        (SessionStage::Enter, Reply::Switched(false)) => (
            Slot::Ready(session, SessionStage::Idle),
            Request::Done(Err(Error::CtxSwitch)),
        ),
        (SessionStage::Measure, Reply::Measured(Some(rect))) => {
            let (width, height) = size_of_rect(rect);
            (Slot::Ready(session, SessionStage::Clock { width, height }), Request::ReadClock)
        },
        (SessionStage::Measure, Reply::Measured(None)) => {
            let context = session.original;
            (
                Slot::Ready(session, SessionStage::Leave { unmeasured: true }),
                Request::MakeCurrent { target, context },
            )
        },
        (SessionStage::Clock { width, height }, Reply::Clock(ticks)) => {
            let input = get_raw_input(&mut session.events, session.modifiers, width, height, ticks);
            assert(session@.events =~= Seq::<EventView>::empty());
            (Slot::Ready(session, SessionStage::Run), Request::RunFrame(input))
        },
        (SessionStage::Run, Reply::Completed) => (
            Slot::Ready(session, SessionStage::Remeasure),
            Request::MeasureWindow { target },
        ),
        (SessionStage::Remeasure, Reply::Measured(Some(rect))) => {
            let (width, height) = size_of_rect(rect);
            (Slot::Ready(session, SessionStage::Draw), Request::PaintFrame { width, height })
        },
        (SessionStage::Remeasure, Reply::Measured(None)) => {
            let context = session.original;
            (
                Slot::Ready(session, SessionStage::Leave { unmeasured: true }),
                Request::MakeCurrent { target, context },
            )
        },
        (SessionStage::Draw, Reply::Completed) => {
            let context = session.original;
            (
                Slot::Ready(session, SessionStage::Leave { unmeasured: false }),
                Request::MakeCurrent { target, context },
            )
        },
        (SessionStage::Leave { unmeasured }, Reply::Switched(restored)) => {
            let outcome = if unmeasured {
                Err(Error::WindowSize)
            } else if restored {
                Ok(())
            } else {
                Err(Error::CtxSwitch)
            };
            (Slot::Ready(session, SessionStage::Idle), Request::Done(outcome))
        },
        (SessionStage::DeleteContext, Reply::Deleted(_)) => (
            Slot::Ready(session, SessionStage::DestroyPainter),
            Request::DestroyPainter,
        ),
        (SessionStage::DestroyPainter, Reply::Completed) => (
            Slot::Ready(session, SessionStage::Idle),
            Request::Done(Ok(())),
        ),
        _ => vstd::pervasive::unreached(),
    }
}

/// Takes the host's reply to the request last handed out and returns the
/// next request of the operation in flight.
///
/// On the reply that the painter was built this makes the UI context of the
/// session to be. Which context that is cannot be said beforehand; it is the
/// one that the overlay holds afterwards, and everything else is fixed.
pub fn resume(state: &mut Overlay, reply: Reply) -> (request: Request)
    requires
        old(state)@.awaits(reply),
    ensures
        (final(state)@, request@) == old(state)@.resume(reply, final(state)@.ui()),
{
    let (slot, request) = match state.take() {
        Slot::Vacant(stage) => advance_init(stage, reply),
        Slot::Ready(session, stage) => advance_session(session, stage, reply),
    };
    state.slot = slot;
    request
}

/// Takes one window message: queues its events, brings the modifiers up to
/// date, and tells whether the host should stop processing the message.
///
/// Without a session this fails with `NotInit` and changes nothing. With one
/// it succeeds. What it then returns is [`consumes`] of the message and of
/// what the UI context says at that moment, on which nothing is known here
/// but this: a message of neither class is never consumed.
pub fn on_event(state: &mut Overlay, umsg: u32, wparam: usize, lparam: isize, live: Live) -> (result:
    Result<bool, Error>)
    requires
        old(state)@.is_init() ==> translatable(umsg, wparam),
    ensures
        final(state)@ == old(state)@.after_message(umsg, wparam, lparam, live@),
        !old(state)@.is_init() ==> result == Err::<bool, Error>(Error::NotInit),
        old(state)@.is_init() ==> result is Ok,
        result matches Ok(stop) && stop ==> is_pointer_class(umsg) || is_keyboard_class(umsg),
{
    match state.take() {
        Slot::Vacant(stage) => {
            state.slot = Slot::Vacant(stage);
            Err(Error::NotInit)
        },
        Slot::Ready(mut session, stage) => {
            translate(&mut session.events, &mut session.modifiers, umsg, wparam, lparam, live);
            let wants_pointer = ui_wants_pointer(&session.ui);
            let wants_keyboard = ui_wants_keyboard(&session.ui);
            state.slot = Slot::Ready(session, stage);
            Ok(consumes(umsg, wants_pointer, wants_keyboard))
        },
    }
}

/// Computes the size of the screen from what the query for the client
/// rectangle of the target's window brought.
///
/// Fails with `NotInit` without a session, whatever the query brought, and
/// with `WindowSize` where the query failed.
pub fn get_screen_size(state: &Overlay, rect: Option<ClientRect>) -> (size: Result<
    (u32, u32),
    Error,
>)
    ensures
        size == state@.screen_size(rect),
{
    match &state.slot {
        Slot::Vacant(_) => Err(Error::NotInit),
        Slot::Ready(_, _) => match rect {
            Some(rect) => Ok(size_of_rect(rect)),
            None => Err(Error::WindowSize),
        },
    }
}

} // verus!
