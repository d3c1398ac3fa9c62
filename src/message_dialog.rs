use vstd::prelude::*;

verus! {

/// How serious a message is; it decides the icon of the native alert.
#[derive(Clone, Copy, Debug, PartialEq, Eq, Structural)]
pub enum MessageLevel {
    Info,
    Warning,
    Error,
}

/// The set of buttons a message dialog offers, in left-to-right order.
#[derive(Debug)]
pub enum MessageButtons {
    OkOnly,
    OkCancel,
    YesNo,
    OkCustom(String),
    OkCancelCustom(String, String),
}

/// A platform-neutral description of a message dialog.
#[derive(Debug)]
pub struct MessageDialog {
    pub title: String,
    pub description: String,
    pub level: MessageLevel,
    pub buttons: MessageButtons,
}

/// The labels of the buttons, in the order in which they are declared.
pub open spec fn button_labels(buttons: MessageButtons) -> Seq<Seq<char>> {
    match buttons {
        MessageButtons::OkOnly => seq!["OK"@],
        MessageButtons::OkCancel => seq!["OK"@, "Cancel"@],
        MessageButtons::YesNo => seq!["Yes"@, "No"@],
        MessageButtons::OkCustom(ok) => seq![ok@],
        MessageButtons::OkCancelCustom(ok, cancel) => seq![ok@, cancel@],
    }
}

/// The characters of each string of a sequence.
pub open spec fn text_views(v: Seq<String>) -> Seq<Seq<char>> {
    v.map_values(|s: String| s@)
}

impl MessageButtons {
    /// The button labels, first declared first.
    pub fn labels(&self) -> (r: Vec<String>)
        ensures
            text_views(r@) == button_labels(*self),
    {
        let r = match self {
            MessageButtons::OkOnly => vec!["OK".to_owned()],
            MessageButtons::OkCancel => vec!["OK".to_owned(), "Cancel".to_owned()],
            MessageButtons::YesNo => vec!["Yes".to_owned(), "No".to_owned()],
            MessageButtons::OkCustom(ok) => vec![ok.clone()],
            MessageButtons::OkCancelCustom(ok, cancel) => vec![ok.clone(), cancel.clone()],
        };
        assert(text_views(r@) =~= button_labels(*self));
        r
    }
}

} // verus!
