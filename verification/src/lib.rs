//! Core of an in-process overlay that draws an immediate-mode UI on top of a
//! host's frames.
//!
//! Two things are decided here and nowhere else. [`translate`] turns each raw
//! window message into the input events it stands for, and [`session`]
//! sequences the graphics-context work around each frame as an exchange of
//! requests and replies with the host ([`protocol`]). What holds of every run
//! of that exchange is proved in [`laws`] and [`trace`].
//!
//! Nothing here touches the window system, the graphics driver or the
//! clipboard, and nothing here is floating point: the host reads, switches,
//! paints and converts.

pub mod error;
pub mod event;
pub mod frame;
pub mod hook;
pub mod key;
pub mod laws;
pub mod message;
pub mod platform;
pub mod protocol;
pub mod session;
pub mod text;
pub mod trace;
pub mod translate;
pub mod ui;

pub use crate::error::Error;
pub use crate::session::{
    destroy, get_screen_size, init, is_init, on_event, paint, resume, Overlay,
};
