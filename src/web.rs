use vstd::prelude::*;
use crate::file_dialog::{accept_items, filter_extensions, join_with_commas, FileDialog};
use crate::message_dialog::{button_labels, text_views, MessageButtons, MessageDialog};

verus! {

/// The file-input control of a browser picker, as it is to be configured.
pub struct WasmDialog {
    /// The element id.
    pub id: String,
    /// The input type.
    pub input_type: String,
    /// The accept attribute: every accepted extension, comma separated.
    pub accept: String,
}

/// Every extension of every filter of `opt`, after a dot, in declared order.
pub fn accept_extensions(opt: &FileDialog) -> (r: Vec<String>)
    ensures
        text_views(r@) == accept_items(opt.filters@),
{
    let mut r: Vec<String> = Vec::new();
    let n = opt.filters.len();
    let mut i: usize = 0;
    while i < n
        invariant
            n == opt.filters@.len(),
            i <= n,
            text_views(r@) == accept_items(opt.filters@.subrange(0, i as int)),
        decreases n - i,
    {
        let exts = &opt.filters[i].extensions;
        let m = exts.len();
        let ghost before = r@;
        let mut j: usize = 0;
        while j < m
            invariant
                m == exts@.len(),
                j <= m,
                r@.len() == before.len() + j,
                r@.subrange(0, before.len() as int) == before,
                forall|k: int| 0 <= k < j ==> #[trigger] r@[before.len() + k]@ == seq!['.'] + exts@[k]@,
            decreases m - j,
        {
            proof {
                reveal_strlit(".");
            }
            let mut e = ".".to_owned();
            e.append(exts[j].as_str());
            r.push(e);
            j += 1;
        }
        proof {
            let fs = opt.filters@.subrange(0, i + 1);
            assert(fs.drop_last() =~= opt.filters@.subrange(0, i as int));
            assert(fs.last() == opt.filters@[i as int]);
            let prev = filter_extensions(opt.filters@.subrange(0, i as int));
            assert(filter_extensions(fs) == prev + text_views(exts@));
            let b = before.len() as int;
            assert(text_views(before).len() == b);
            assert(accept_items(opt.filters@.subrange(0, i as int)).len() == prev.len());
            assert(prev.len() == b);
            assert forall|k: int| 0 <= k < r@.len() implies text_views(r@)[k] == accept_items(fs)[k] by {
                if k < b {
                    assert(r@[k] == r@.subrange(0, b)[k]);
                    assert(text_views(before)[k] == accept_items(opt.filters@.subrange(0, i as int))[k]);
                } else {
                    assert(r@[b + (k - b)]@ == seq!['.'] + exts@[k - b]@);
                }
            }
            assert(text_views(r@) =~= accept_items(fs));
        }
        i += 1;
    }
    assert(opt.filters@.subrange(0, n as int) =~= opt.filters@);
    r
}

/// `items` joined with commas.
pub fn join_accept(items: &Vec<String>) -> (r: String)
    ensures
        r@ == join_with_commas(text_views(items@)),
{
    let mut r = String::new();
    let n = items.len();
    let mut i: usize = 0;
    while i < n
        invariant
            n == items@.len(),
            i <= n,
            r@ == join_with_commas(text_views(items@.subrange(0, i as int))),
        decreases n - i,
    {
        if i > 0 {
            r.append(",");
        }
        r.append(items[i].as_str());
        proof {
            let vs = text_views(items@.subrange(0, i + 1));
            assert(vs.drop_last() =~= text_views(items@.subrange(0, i as int)));
            reveal_strlit(",");
        }
        i += 1;
    }
    assert(items@.subrange(0, n as int) =~= items@);
    r
}

impl WasmDialog {
    /// Lays out the file input for `opt`.
    pub fn new(opt: &FileDialog) -> (r: WasmDialog)
        ensures
            r.id@ == "rfd-input"@,
            r.input_type@ == "file"@,
            r.accept@ == join_with_commas(accept_items(opt.filters@)),
    {
        let items = accept_extensions(opt);
        let accept = join_accept(&items);
        WasmDialog { id: "rfd-input".to_owned(), input_type: "file".to_owned(), accept }
    }
}

/// What a multi-select pick hands back: nothing when no file was picked,
/// else every picked file in the order the control gave.
pub open spec fn picked_all<T>(files: Seq<T>) -> Option<Seq<T>> {
    if files.len() == 0 {
        None
    } else {
        Some(files)
    }
}

/// What a single-select pick hands back: nothing when no file was picked,
/// else the last file the control gave.
pub open spec fn picked_one<T>(files: Seq<T>) -> Option<T> {
    if files.len() == 0 {
        None
    } else {
        Some(files.last())
    }
}

impl WasmDialog {
    /// The result of a multi-select pick of `files`.
    pub fn get_results<T>(files: Vec<T>) -> (r: Option<Vec<T>>)
        ensures
            r is None <==> picked_all(files@) is None,
            r matches Some(v) ==> picked_all(files@) == Some(v@),
    {
        if files.len() > 0 {
            Some(files)
        } else {
            None
        }
    }

    /// The result of a single-select pick of `files`.
    pub fn get_result<T>(files: Vec<T>) -> (r: Option<T>)
        ensures
            r == picked_one(files@),
    {
        match WasmDialog::get_results(files) {
            Some(mut f) => f.pop(),
            None => None,
        }
    }
}

/// An empty pick is `None` for both kinds of pick, never an empty list; a
/// pick of one file is that one file for both; of several files a
/// single-select pick keeps the last one.
pub proof fn lemma_pick_outcomes<T>(files: Seq<T>)
    ensures
        files.len() == 0 ==> picked_all(files) is None && picked_one(files) is None,
        files.len() == 1 ==> picked_all(files) == Some(seq![files[0]]) && picked_one(files) == Some(files[0]),
        files.len() > 0 ==> picked_one(files) == Some(picked_all(files).unwrap().last()),
{
    if files.len() == 1 {
        assert(files =~= seq![files[0]]);
    }
}

/// Where the wait for a browser picker to close stands.
#[derive(Clone, Copy, Debug, PartialEq, Eq, Structural)]
pub enum PickerWatch {
    /// The picker is open; the page has not had focus back yet.
    AwaitingFocus,
    /// The page has focus back; the next pointer move or input ends the wait.
    AwaitingActivity,
    /// The wait is over.
    Dismissed,
}

/// What the page tells the watch.
#[derive(Clone, Copy, Debug, PartialEq, Eq, Structural)]
pub enum PickerEvent {
    WindowFocus,
    PointerMove,
    Input,
}

/// What the page is to do after an event.
#[derive(Clone, Copy, Debug, PartialEq, Eq, Structural)]
pub enum WatchAction {
    Nothing,
    /// Start listening for pointer moves and input.
    ListenForActivity,
    /// Stop listening and hand the picked files back.
    Resolve,
}

pub open spec fn watch_step(w: PickerWatch, e: PickerEvent) -> (PickerWatch, WatchAction) {
    match w {
        PickerWatch::AwaitingFocus => if e == PickerEvent::WindowFocus {
            (PickerWatch::AwaitingActivity, WatchAction::ListenForActivity)
        } else {
            (PickerWatch::AwaitingFocus, WatchAction::Nothing)
        },
        PickerWatch::AwaitingActivity => if e == PickerEvent::WindowFocus {
            (PickerWatch::AwaitingActivity, WatchAction::Nothing)
        } else {
            (PickerWatch::Dismissed, WatchAction::Resolve)
        },
        PickerWatch::Dismissed => (PickerWatch::Dismissed, WatchAction::Nothing),
    }
}

/// The state after a run of events, and how many times the run resolved.
pub open spec fn watch_run(w: PickerWatch, events: Seq<PickerEvent>) -> (PickerWatch, nat)
    decreases events.len(),
{
    if events.len() == 0 {
        (w, 0)
    } else {
        let (next, action) = watch_step(w, events[0]);
        let (last, n) = watch_run(next, events.drop_first());
        (last, if action == WatchAction::Resolve { n + 1 } else { n })
    }
}

impl PickerWatch {
    pub fn start() -> (r: PickerWatch)
        ensures
            r == PickerWatch::AwaitingFocus,
    {
        PickerWatch::AwaitingFocus
    }

    pub fn step(self, e: PickerEvent) -> (r: (PickerWatch, WatchAction))
        ensures
            r == watch_step(self, e),
    {
        match self {
            PickerWatch::AwaitingFocus => if e == PickerEvent::WindowFocus {
                (PickerWatch::AwaitingActivity, WatchAction::ListenForActivity)
            } else {
                (PickerWatch::AwaitingFocus, WatchAction::Nothing)
            },
            PickerWatch::AwaitingActivity => if e == PickerEvent::WindowFocus {
                (PickerWatch::AwaitingActivity, WatchAction::Nothing)
            } else {
                (PickerWatch::Dismissed, WatchAction::Resolve)
            },
            PickerWatch::Dismissed => (PickerWatch::Dismissed, WatchAction::Nothing),
        }
    }
}

/// A watch resolves at most once, whatever events come, and never once it
/// is over.
pub proof fn lemma_watch_resolves_at_most_once(w: PickerWatch, events: Seq<PickerEvent>)
    ensures
        watch_run(w, events).1 <= 1,
        w == PickerWatch::Dismissed ==> watch_run(w, events).1 == 0,
        watch_run(w, events).1 == 1 ==> watch_run(w, events).0 == PickerWatch::Dismissed,
    decreases events.len(),
{
    if events.len() > 0 {
        lemma_watch_resolves_at_most_once(watch_step(w, events[0]).0, events.drop_first());
        lemma_watch_stays_dismissed(watch_step(w, events[0]).0, events.drop_first());
    }
}

/// Once over, a watch stays over.
pub proof fn lemma_watch_stays_dismissed(w: PickerWatch, events: Seq<PickerEvent>)
    ensures
        w == PickerWatch::Dismissed ==> watch_run(w, events) == (PickerWatch::Dismissed, 0nat),
    decreases events.len(),
{
    if events.len() > 0 {
        lemma_watch_stays_dismissed(watch_step(w, events[0]).0, events.drop_first());
    }
}

/// A watch that has not seen the page take focus back has not resolved.
pub proof fn lemma_no_resolve_before_focus(events: Seq<PickerEvent>)
    requires
        !events.contains(PickerEvent::WindowFocus),
    ensures
        watch_run(PickerWatch::AwaitingFocus, events) == (PickerWatch::AwaitingFocus, 0nat),
    decreases events.len(),
{
    if events.len() > 0 {
        assert(events[0] != PickerEvent::WindowFocus);
        assert forall|e: PickerEvent| events.drop_first().contains(e) implies events.contains(e) by {
            let k = choose|k: int| 0 <= k < events.drop_first().len() && events.drop_first()[k] == e;
            assert(events[k + 1] == e);
        }
        lemma_no_resolve_before_focus(events.drop_first());
    }
}

/// The browser's own prompt that shows a message dialog.
#[derive(Clone, Copy, Debug, PartialEq, Eq, Structural)]
pub enum BrowserPrompt {
    /// One button: the dialog can only be acknowledged.
    Alert,
    /// Two buttons: the dialog can be confirmed or refused.
    Confirm,
}

pub open spec fn prompt_for(buttons: MessageButtons) -> BrowserPrompt {
    match buttons {
        MessageButtons::OkOnly | MessageButtons::OkCustom(_) => BrowserPrompt::Alert,
        _ => BrowserPrompt::Confirm,
    }
}

/// What a browser prompt's answer means: an alert is always acknowledged,
/// a confirm is confirmed when the user pressed its first button.
pub open spec fn prompt_outcome(p: BrowserPrompt, confirmed: bool) -> bool {
    match p {
        BrowserPrompt::Alert => true,
        BrowserPrompt::Confirm => confirmed,
    }
}

impl MessageDialog {
    /// The browser prompt that has as many buttons as the dialog.
    pub fn browser_prompt(&self) -> (r: BrowserPrompt)
        ensures
            r == prompt_for(self.buttons),
    {
        match self.buttons {
            MessageButtons::OkOnly | MessageButtons::OkCustom(_) => BrowserPrompt::Alert,
            _ => BrowserPrompt::Confirm,
        }
    }

    /// The text of the browser prompt: the title, a line break, the description.
    pub fn browser_text(&self) -> (r: String)
        ensures
            r@ == self.title@ + seq!['\n'] + self.description@,
    {
        let mut r = self.title.clone();
        r.append("\n");
        r.append(self.description.as_str());
        proof {
            reveal_strlit("\n");
        }
        r
    }
}

impl BrowserPrompt {
    /// The dialog's result, given what the prompt answered (an alert answers nothing).
    pub fn outcome(self, confirmed: bool) -> (r: bool)
        ensures
            r == prompt_outcome(self, confirmed),
    {
        match self {
            BrowserPrompt::Alert => true,
            BrowserPrompt::Confirm => confirmed,
        }
    }
}

/// A dialog with a single button is shown as an alert, one with two as a confirm.
pub proof fn lemma_prompt_matches_button_count(buttons: MessageButtons)
    ensures
        (prompt_for(buttons) == BrowserPrompt::Alert) <==> button_labels(buttons).len() == 1,
        (prompt_for(buttons) == BrowserPrompt::Confirm) <==> button_labels(buttons).len() == 2,
{
}

} // verus!
