//! The exchange between the session and its host.
//!
//! The session decides; the host acts. Each operation of the session hands
//! the host one [`Request`] at a time, and the host answers each with the
//! [`Reply`] of its kind until the session says [`Request::Done`].

use crate::error::Error;
use crate::frame::{FrameInput, FrameInputView};
use crate::platform::{ClientRect, GlContext, Surface};
use vstd::prelude::*;

verus! {

/// What the host is to do next.
#[derive(Debug)]
pub enum Request {
    /// Ask the driver which graphics context is current.
    QueryContext,
    /// Create a graphics context against the target.
    CreateContext { target: Surface },
    /// Make a graphics context current on the target.
    MakeCurrent { target: Surface, context: GlContext },
    /// Load the graphics entry points and construct the mesh painter on them.
    BuildPainter,
    /// Query the client rectangle of the window that owns the target.
    MeasureWindow { target: Surface },
    /// Read the system clock.
    ReadClock,
    /// Run one UI frame on this input, hand the texture changes it asks for
    /// to the painter, and tessellate its shapes.
    RunFrame(FrameInput),
    /// Paint the tessellated frame at this size, then free the textures that
    /// the frame gave up.
    PaintFrame { width: u32, height: u32 },
    /// Delete a graphics context.
    DeleteContext { context: GlContext },
    /// Release the graphics objects of the mesh painter.
    DestroyPainter,
    /// Nothing: the operation is over, with this outcome.
    Done(Result<(), Error>),
}

/// What a [`Request`] is, with a frame's input by its view.
pub enum RequestView {
    QueryContext,
    CreateContext { target: Surface },
    MakeCurrent { target: Surface, context: GlContext },
    BuildPainter,
    MeasureWindow { target: Surface },
    ReadClock,
    RunFrame(FrameInputView),
    PaintFrame { width: u32, height: u32 },
    DeleteContext { context: GlContext },
    DestroyPainter,
    Done(Result<(), Error>),
}

impl View for Request {
    type V = RequestView;

    open spec fn view(&self) -> RequestView {
        match *self {
            Request::QueryContext => RequestView::QueryContext,
            Request::CreateContext { target } => RequestView::CreateContext { target },
            Request::MakeCurrent { target, context } => RequestView::MakeCurrent {
                target,
                context,
            },
            Request::BuildPainter => RequestView::BuildPainter,
            Request::MeasureWindow { target } => RequestView::MeasureWindow { target },
            Request::ReadClock => RequestView::ReadClock,
            Request::RunFrame(input) => RequestView::RunFrame(input@),
            Request::PaintFrame { width, height } => RequestView::PaintFrame { width, height },
            Request::DeleteContext { context } => RequestView::DeleteContext { context },
            Request::DestroyPainter => RequestView::DestroyPainter,
            Request::Done(outcome) => RequestView::Done(outcome),
        }
    }
}

/// What the host reports back.
#[derive(Debug)]
pub enum Reply {
    /// The context that was current.
    Context(GlContext),
    /// The context created, or nothing where the driver refused.
    Created(Option<GlContext>),
    /// Whether the context was made current.
    Switched(bool),
    /// That the painter stands, or why it could not be constructed.
    Built(Result<(), egui_glow::PainterError>),
    /// The client rectangle, or nothing where the query failed.
    Measured(Option<ClientRect>),
    /// The system time in ticks of 100 nanoseconds.
    Clock(i64),
    /// Whether the context was deleted.
    Deleted(bool),
    /// The work asked for was carried out.
    Completed,
}

/// Whether `reply` is of the kind that answers `request`.
pub open spec fn answers(request: RequestView, reply: Reply) -> bool {
    match request {
        RequestView::QueryContext => reply is Context,
        RequestView::CreateContext { .. } => reply is Created,
        RequestView::MakeCurrent { .. } => reply is Switched,
        RequestView::BuildPainter => reply is Built,
        RequestView::MeasureWindow { .. } => reply is Measured,
        RequestView::ReadClock => reply is Clock,
        RequestView::RunFrame(_) => reply is Completed,
        RequestView::PaintFrame { .. } => reply is Completed,
        RequestView::DeleteContext { .. } => reply is Deleted,
        RequestView::DestroyPainter => reply is Completed,
        RequestView::Done(_) => false,
    }
}

} // verus!
