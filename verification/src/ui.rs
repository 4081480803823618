//! The outside types that the session carries, the making of the UI context,
//! and the two questions the session asks it.

use vstd::prelude::*;

verus! {

/// The UI context of the widget toolkit, `egui::Context`. What it holds is
/// not modelled: the session makes it, carries it and asks it two questions.
#[verifier::external_type_specification]
#[verifier::external_body]
pub struct ExUiContext(egui::Context);

/// The failure that constructing the mesh painter reports,
/// `egui_glow::PainterError`. What it holds is not modelled: errors carry it
/// through.
#[verifier::external_type_specification]
#[verifier::external_body]
pub struct ExPainterError(egui_glow::PainterError);

/// Calls `egui::Context::default`: a fresh UI context with the toolkit's
/// built-in plugins registered. Each call makes a context of its own, so
/// nothing is claimed of it.
#[verifier::external_body]
pub(crate) fn new_ui_context() -> (ui: egui::Context) {
    egui::Context::default()
}

/// Calls `egui::Context::wants_pointer_input`: whether the UI is interested
/// in the pointer right now. The answer depends on the interaction state
/// inside the context, so nothing is claimed of it.
#[verifier::external_body]
pub(crate) fn ui_wants_pointer(ui: &egui::Context) -> (wants: bool) {
    ui.wants_pointer_input()
}

/// Calls `egui::Context::wants_keyboard_input`: whether a widget of the UI
/// is listening for text right now. The answer depends on the focus state
/// inside the context, so nothing is claimed of it.
#[verifier::external_body]
pub(crate) fn ui_wants_keyboard(ui: &egui::Context) -> (wants: bool) {
    ui.wants_keyboard_input()
}

} // verus!
