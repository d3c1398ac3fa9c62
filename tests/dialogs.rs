use rfd::alert::{NSAlert, NSAlertStyle, FIRST_BUTTON_RETURN};
use rfd::file_dialog::{FileDialog, Filter};
use rfd::message_dialog::{MessageButtons, MessageDialog, MessageLevel};
use rfd::ui_state::{ActivationPolicy, UiGuards, UiState};
use rfd::web::{accept_extensions, join_accept, BrowserPrompt, PickerEvent, PickerWatch, WasmDialog, WatchAction};

fn dialog(title: &str, description: &str, level: MessageLevel, buttons: MessageButtons) -> MessageDialog {
    MessageDialog {
        title: title.to_string(),
        description: description.to_string(),
        level,
        buttons,
    }
}

fn desktop() -> UiState {
    UiState { policy: ActivationPolicy::Regular, key_window: Some(7) }
}

fn strings(v: &[&str]) -> Vec<String> {
    v.iter().map(|s| s.to_string()).collect()
}

#[test]
fn labels_of_every_button_set() {
    assert_eq!(MessageButtons::OkOnly.labels(), strings(&["OK"]));
    assert_eq!(MessageButtons::OkCancel.labels(), strings(&["OK", "Cancel"]));
    assert_eq!(MessageButtons::YesNo.labels(), strings(&["Yes", "No"]));
    assert_eq!(MessageButtons::OkCustom("Go".to_string()).labels(), strings(&["Go"]));
    assert_eq!(
        MessageButtons::OkCancelCustom("Save".to_string(), "Discard".to_string()).labels(),
        strings(&["Save", "Discard"])
    );
}

#[test]
fn alert_style_follows_level() {
    assert_eq!(NSAlertStyle::for_level(MessageLevel::Info), NSAlertStyle::Informational);
    assert_eq!(NSAlertStyle::for_level(MessageLevel::Warning), NSAlertStyle::Warning);
    assert_eq!(NSAlertStyle::for_level(MessageLevel::Error), NSAlertStyle::Critical);
    assert_eq!(NSAlertStyle::Warning.code(), 0);
    assert_eq!(NSAlertStyle::Informational.code(), 1);
    assert_eq!(NSAlertStyle::Critical.code(), 2);
}

#[test]
fn alert_is_laid_out_from_descriptor() {
    let mut ui = desktop();
    let alert = NSAlert::new(
        dialog("Save?", "Unsaved changes", MessageLevel::Error, MessageButtons::YesNo),
        &mut ui,
    );
    assert_eq!(alert.style, NSAlertStyle::Critical);
    assert_eq!(alert.buttons, strings(&["Yes", "No"]));
    assert_eq!(alert.message_text, "Save?");
    assert_eq!(alert.informative_text, "Unsaved changes");
}

#[test]
fn only_first_button_confirms() {
    for (code, expected) in [(1000, true), (1001, false), (1002, false), (0, false)] {
        let mut ui = desktop();
        let alert = NSAlert::new(
            dialog("t", "d", MessageLevel::Info, MessageButtons::OkCancel),
            &mut ui,
        );
        assert_eq!(alert.run(code, &mut ui), expected);
    }
    assert_eq!(FIRST_BUTTON_RETURN, 1000);
}

#[test]
fn cancel_on_save_prompt_is_false() {
    let mut ui = desktop();
    let alert = NSAlert::new(
        dialog("Save?", "Unsaved changes", MessageLevel::Info, MessageButtons::OkCancel),
        &mut ui,
    );
    let cancel = alert.buttons.iter().position(|b| b == "Cancel").unwrap() as i64;
    assert!(!alert.run(FIRST_BUTTON_RETURN + cancel, &mut ui));
}

#[test]
fn continue_only_button_is_true() {
    let mut ui = desktop();
    let alert = NSAlert::new(
        dialog("", "", MessageLevel::Info, MessageButtons::OkCustom("Continue".to_string())),
        &mut ui,
    );
    assert_eq!(alert.buttons, strings(&["Continue"]));
    assert!(alert.run(FIRST_BUTTON_RETURN, &mut ui));
}

#[test]
fn prohibited_policy_is_lifted_and_restored() {
    let before = UiState { policy: ActivationPolicy::Prohibited, key_window: Some(3) };
    let mut ui = before;
    let alert = NSAlert::new(dialog("a", "b", MessageLevel::Warning, MessageButtons::OkOnly), &mut ui);
    assert_eq!(ui.policy, ActivationPolicy::Accessory);
    ui.key_window = Some(99);
    alert.run(FIRST_BUTTON_RETURN, &mut ui);
    assert_eq!(ui, before);
}

#[test]
fn teardown_without_running_restores() {
    let before = UiState { policy: ActivationPolicy::Prohibited, key_window: Some(5) };
    let mut ui = before;
    let alert = NSAlert::new(dialog("a", "b", MessageLevel::Info, MessageButtons::YesNo), &mut ui);
    ui.key_window = None;
    alert.teardown(&mut ui);
    assert_eq!(ui, before);
}

#[test]
fn guards_without_key_window_leave_focus_alone() {
    let mut ui = UiState { policy: ActivationPolicy::Accessory, key_window: None };
    let guards = UiGuards::acquire(&mut ui);
    assert_eq!(ui.policy, ActivationPolicy::Accessory);
    ui.key_window = Some(4);
    guards.release(&mut ui);
    assert_eq!(ui, UiState { policy: ActivationPolicy::Accessory, key_window: Some(4) });
}

#[test]
fn policy_codes_round_trip() {
    for p in [ActivationPolicy::Regular, ActivationPolicy::Accessory, ActivationPolicy::Prohibited] {
        assert_eq!(ActivationPolicy::from_code(p.code()), Some(p));
    }
    assert_eq!(ActivationPolicy::Prohibited.code(), 2);
    assert_eq!(ActivationPolicy::from_code(3), None);
    assert_eq!(ActivationPolicy::from_code(-1), None);
}

fn filter(name: &str, exts: &[&str]) -> Filter {
    Filter { name: name.to_string(), extensions: strings(exts) }
}

#[test]
fn accept_is_union_of_filters_with_dots() {
    let opt = FileDialog {
        filters: vec![filter("Images", &["png", "jpg"]), filter("Text", &["txt"]), filter("Any", &[])],
    };
    assert_eq!(accept_extensions(&opt), strings(&[".png", ".jpg", ".txt"]));
    let d = WasmDialog::new(&opt);
    assert_eq!(d.accept, ".png,.jpg,.txt");
    assert_eq!(d.id, "rfd-input");
    assert_eq!(d.input_type, "file");
}

#[test]
fn accept_without_filters_is_empty() {
    let d = WasmDialog::new(&FileDialog { filters: vec![] });
    assert_eq!(d.accept, "");
    assert_eq!(join_accept(&strings(&[".a"])), ".a");
}

#[test]
fn empty_selection_is_none() {
    let opt = FileDialog { filters: vec![filter("Images", &["png", "jpg"])] };
    assert_eq!(WasmDialog::new(&opt).accept, ".png,.jpg");
    assert_eq!(WasmDialog::get_result(Vec::<u32>::new()), None);
    assert_eq!(WasmDialog::get_results(Vec::<u32>::new()), None);
}

#[test]
fn single_selection_gives_one_handle() {
    assert_eq!(WasmDialog::get_results(vec![41u32]), Some(vec![41u32]));
    assert_eq!(WasmDialog::get_result(vec![41u32]), Some(41));
}

#[test]
fn single_pick_takes_last_not_first() {
    assert_eq!(WasmDialog::get_result(vec![1u32, 2, 3]), Some(3));
    assert_eq!(WasmDialog::get_results(vec![1u32, 2, 3]), Some(vec![1u32, 2, 3]));
}

#[test]
fn browser_prompt_by_button_count() {
    let d = dialog("Title", "Body", MessageLevel::Info, MessageButtons::OkCustom("x".to_string()));
    assert_eq!(d.browser_prompt(), BrowserPrompt::Alert);
    assert_eq!(d.browser_text(), "Title\nBody");
    for b in [MessageButtons::OkCancel, MessageButtons::YesNo, MessageButtons::OkCancelCustom("a".into(), "b".into())] {
        assert_eq!(dialog("", "", MessageLevel::Info, b).browser_prompt(), BrowserPrompt::Confirm);
    }
    assert_eq!(dialog("", "", MessageLevel::Info, MessageButtons::OkOnly).browser_prompt(), BrowserPrompt::Alert);
    assert!(BrowserPrompt::Alert.outcome(false));
    assert!(BrowserPrompt::Confirm.outcome(true));
    assert!(!BrowserPrompt::Confirm.outcome(false));
}

#[test]
fn watch_resolves_once_after_focus_then_activity() {
    let mut w = PickerWatch::start();
    let events = [
        PickerEvent::PointerMove,
        PickerEvent::WindowFocus,
        PickerEvent::WindowFocus,
        PickerEvent::PointerMove,
        PickerEvent::Input,
        PickerEvent::PointerMove,
    ];
    let mut actions = Vec::new();
    for e in events {
        let (next, action) = w.step(e);
        w = next;
        actions.push(action);
    }
    assert_eq!(
        actions,
        vec![
            WatchAction::Nothing,
            WatchAction::ListenForActivity,
            WatchAction::Nothing,
            WatchAction::Resolve,
            WatchAction::Nothing,
            WatchAction::Nothing,
        ]
    );
    assert_eq!(w, PickerWatch::Dismissed);
}

#[test]
fn input_after_focus_resolves() {
    let (w, a) = PickerWatch::start().step(PickerEvent::WindowFocus);
    assert_eq!(a, WatchAction::ListenForActivity);
    assert_eq!(w.step(PickerEvent::Input), (PickerWatch::Dismissed, WatchAction::Resolve));
}
