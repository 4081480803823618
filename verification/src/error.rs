//! The ways in which a session operation fails.

use vstd::prelude::*;

verus! {

/// Why a session operation failed.
#[derive(Debug)]
pub enum Error {
    /// The session was not initialized.
    NotInit,
    /// The session was already initialized.
    AlreadyInit,
    /// The session state could not be locked. Kept for callers that guard the
    /// session with a lock; no operation of this library reports it.
    StateLock,
    /// The session state could not be created. Kept for such callers as well;
    /// no operation of this library reports it.
    StateCreation,
    /// The overlay's graphics context could not be created.
    CtxCreate,
    /// A graphics context could not be made current.
    CtxSwitch,
    /// A graphics context could not be deleted. No operation of this library
    /// reports it: teardown goes on whether or not the deletion succeeded.
    CtxDelete,
    /// The size of the window could not be queried.
    WindowSize,
    /// The mesh painter could not be constructed, for the cause carried.
    PainterError(egui_glow::PainterError),
}

} // verus!
