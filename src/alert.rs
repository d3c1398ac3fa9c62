use vstd::prelude::*;
use crate::message_dialog::{button_labels, text_views, MessageButtons, MessageDialog, MessageLevel};
use crate::ui_state::{policy_while_shown, restored, UiGuards, UiState};

verus! {

/// The look of a native alert panel.
#[derive(Clone, Copy, Debug, PartialEq, Eq, Structural)]
pub enum NSAlertStyle {
    Warning,
    Informational,
    Critical,
}

/// The code the native modal loop returns when the first button is pressed;
/// the button at index `i` returns this code plus `i`.
pub const FIRST_BUTTON_RETURN: i64 = 1000;

pub open spec fn style_of(level: MessageLevel) -> NSAlertStyle {
    match level {
        MessageLevel::Info => NSAlertStyle::Informational,
        MessageLevel::Warning => NSAlertStyle::Warning,
        MessageLevel::Error => NSAlertStyle::Critical,
    }
}

pub open spec fn style_code(style: NSAlertStyle) -> int {
    match style {
        NSAlertStyle::Warning => 0,
        NSAlertStyle::Informational => 1,
        NSAlertStyle::Critical => 2,
    }
}

/// The code the native modal loop returns for the button at `index`.
pub open spec fn button_return(index: int) -> int {
    FIRST_BUTTON_RETURN + index
}

impl NSAlertStyle {
    pub fn for_level(level: MessageLevel) -> (r: NSAlertStyle)
        ensures
            r == style_of(level),
    {
        match level {
            MessageLevel::Info => NSAlertStyle::Informational,
            MessageLevel::Warning => NSAlertStyle::Warning,
            MessageLevel::Error => NSAlertStyle::Critical,
        }
    }

    /// The native constant of the style.
    pub fn code(self) -> (r: i64)
        ensures
            r == style_code(self),
    {
        match self {
            NSAlertStyle::Warning => 0,
            NSAlertStyle::Informational => 1,
            NSAlertStyle::Critical => 2,
        }
    }
}

/// A native alert as it is to be configured, with the guards that keep the
/// user-interface state it changes.
pub struct NSAlert {
    pub style: NSAlertStyle,
    /// Button titles, added to the panel in this order.
    pub buttons: Vec<String>,
    pub message_text: String,
    pub informative_text: String,
    pub guards: UiGuards,
}

impl NSAlert {
    /// Takes the user-interface guards and lays out the alert for `opt`.
    pub fn new(opt: MessageDialog, ui: &mut UiState) -> (r: NSAlert)
        ensures
            r.style == style_of(opt.level),
            text_views(r.buttons@) == button_labels(opt.buttons),
            r.message_text@ == opt.title@,
            r.informative_text@ == opt.description@,
            r.guards.prior() == *old(ui),
            final(ui).policy == policy_while_shown(old(ui).policy),
            final(ui).key_window == old(ui).key_window,
    {
        let guards = UiGuards::acquire(ui);
        let style = NSAlertStyle::for_level(opt.level);
        let buttons = opt.buttons.labels();
        NSAlert {
            style,
            buttons,
            message_text: opt.title,
            informative_text: opt.description,
            guards,
        }
    }

    /// Ends the alert after the modal loop returned `code`: the guards are
    /// released, and the result tells whether the first button was pressed.
    pub fn run(self, code: i64, ui: &mut UiState) -> (r: bool)
        ensures
            r == (code == FIRST_BUTTON_RETURN),
            *final(ui) == restored(self.guards.prior(), *old(ui)),
    {
        let confirmed = code == FIRST_BUTTON_RETURN;
        self.teardown(ui);
        confirmed
    }

    /// Drops the alert, whether or not its modal loop ever ran, and puts the
    /// user-interface state back.
    pub fn teardown(self, ui: &mut UiState)
        ensures
            *final(ui) == restored(self.guards.prior(), *old(ui)),
    {
        self.guards.release(ui);
    }
}

/// Of all the buttons of a dialog, only the first one confirms it.
pub proof fn lemma_only_first_button_confirms(buttons: MessageButtons, index: int)
    requires
        0 <= index < button_labels(buttons).len(),
    ensures
        (button_return(index) == FIRST_BUTTON_RETURN) <==> index == 0,
{
}

/// Tearing an alert down puts back the activation policy found when it was
/// made, and the key window too where there was one, whatever happened to
/// either while it was up.
pub proof fn lemma_teardown_restores(before: UiState, during: UiState)
    ensures
        restored(before, during).policy == before.policy,
        before.key_window is Some ==> restored(before, during) == before,
        before.key_window is None ==> restored(before, during).key_window == during.key_window,
{
}

} // verus!
