//! The browser screen's state and decisions: the directory shown, the
//! selected rows, what opening a path does, and the chooser it answers.
use vstd::prelude::*;
use vstd::string::*;
use std::collections::HashSet;
use crate::chooser::{ChooserResult, ChooserState};
use crate::components::entry_item::{get_range, range_set, EntryItem};
use crate::components::entry_list::EntryList;
use crate::components::navbar::NavBarEvent;
use crate::config::NaviMode;
use crate::paths::{paths_equal, same_path};
use crate::portal_core::strings_model;

verus! {

broadcast use vstd::std_specs::hash::group_hash_axioms;

/// What is at a path on disk, as far as opening it goes.
#[derive(Debug, Clone, Copy, PartialEq, Eq, Structural)]
pub enum PathKind {
    Directory,
    File,
    Neither,
}

/// What opening a path does.
#[derive(Debug, Clone, Copy, PartialEq, Eq, Structural)]
pub enum OpenAction {
    /// Show the directory.
    EnterDirectory,
    /// Hand the file to the system's opener.
    OpenInSystem,
    /// Answer the chooser with the file.
    SubmitSelection,
    /// Nothing.
    Ignore,
}

/// Opening a directory shows it; opening a file hands it to the system in a
/// browser and answers the chooser in a chooser; anything else is ignored.
pub open spec fn open_action_spec(kind: PathKind, mode: NaviMode) -> OpenAction {
    match kind {
        PathKind::Directory => OpenAction::EnterDirectory,
        PathKind::File => match mode {
            NaviMode::Browser => OpenAction::OpenInSystem,
            NaviMode::FileChooser => OpenAction::SubmitSelection,
        },
        PathKind::Neither => OpenAction::Ignore,
    }
}

/// What opening a path of the given kind does in the given mode.
pub fn open_action(kind: PathKind, mode: NaviMode) -> (a: OpenAction)
    ensures
        a == open_action_spec(kind, mode),
{
    match kind {
        PathKind::Directory => OpenAction::EnterDirectory,
        PathKind::File => match mode {
            NaviMode::Browser => OpenAction::OpenInSystem,
            NaviMode::FileChooser => OpenAction::SubmitSelection,
        },
        PathKind::Neither => OpenAction::Ignore,
    }
}

/// The program and arguments that open `path` with the system's opener:
/// `xdg-open` inside the terminal named by `$TERMINAL` (`terminal`; `xterm`
/// when unset).
pub fn system_open_command(terminal: Option<String>, path: &str) -> (cmd: (String, Vec<String>))
    ensures
        cmd.0@ == match terminal {
            Some(t) => t@,
            None => "xterm"@,
        },
        strings_model(cmd.1@) == seq!["-e"@, "xdg-open"@, path@],
{
    let program = match terminal {
        Some(t) => t,
        None => String::from_str("xterm"),
    };
    let mut args: Vec<String> = Vec::new();
    args.push(String::from_str("-e"));
    args.push(String::from_str("xdg-open"));
    args.push(String::from_str(path));
    assert(strings_model(args@) =~= seq!["-e"@, "xdg-open"@, path@]);
    (program, args)
}

/// The selection after clicking row `index` (`ctrl`, `shift`: the modifier
/// keys held): ctrl toggles the row; shift selects the range from the anchor
/// to the row when there is an anchor; otherwise the row alone is selected
/// and becomes the anchor.
pub open spec fn select_spec(selected: Set<usize>, anchor: Option<usize>, index: usize, ctrl: bool, shift: bool) -> (Set<usize>, Option<usize>) {
    if ctrl {
        if selected.contains(index) {
            (selected.remove(index), anchor)
        } else {
            (selected.insert(index), anchor)
        }
    } else if shift && anchor.is_some() {
        (range_set(anchor.unwrap(), index), anchor)
    } else {
        (set![index], Some(index))
    }
}

/// The browser screen.
pub struct Browser {
    pub directory: String,
    /// The text of the navigation bar's path field.
    pub nav_input: String,
    pub mode: NaviMode,
    pub chooser: Option<ChooserState>,
    pub entry_list: EntryList,
    pub selected_entries: HashSet<usize>,
    pub first_selected: Option<usize>,
}

impl Browser {
    /// The chooser, when there is one, is in a consistent state.
    pub open spec fn wf(&self) -> bool {
        self.chooser matches Some(c) ==> c.wf()
    }

    /// A browser showing `directory` (whose entries are `entries`) with
    /// nothing selected.
    pub fn new(directory: String, mode: NaviMode, chooser: Option<ChooserState>, entries: Vec<String>) -> (b: Self)
        requires
            chooser matches Some(c) ==> c.wf(),
        ensures
            b.wf(),
            b.directory == directory,
            b.nav_input@ == directory@,
            b.mode == mode,
            b.chooser == chooser,
            b.entry_list.entries@ == entries@,
            b.selected_entries@ == Set::<usize>::empty(),
            b.first_selected.is_none(),
    {
        let nav_input = directory.clone();
        Browser {
            nav_input,
            directory,
            mode,
            chooser,
            entry_list: EntryList::new(entries),
            selected_entries: HashSet::new(),
            first_selected: None,
        }
    }

    /// The text typed into the path field replaces its contents.
    pub fn set_nav_input(&mut self, text: String)
        requires
            old(self).wf(),
        ensures
            final(self).wf(),
            *final(self) == (Browser { nav_input: text, ..*old(self) }),
    {
        self.nav_input = text;
    }

    /// The path that a navigation bar event opens.
    pub fn navigate_path(&self, event: &NavBarEvent) -> (p: String)
        ensures
            match event {
                NavBarEvent::Navigate(q) => p@ == q@,
            },
    {
        match event {
            NavBarEvent::Navigate(q) => q.clone(),
        }
    }

    /// Whether `path` is the directory shown.
    pub fn is_current_directory(&self, path: &str) -> (b: bool)
        ensures
            b == paths_equal(path@, self.directory@),
    {
        same_path(path, self.directory.as_str())
    }

    /// What opening a path of the given kind does here.
    pub fn open_path(&self, kind: PathKind) -> (a: OpenAction)
        ensures
            a == open_action_spec(kind, self.mode),
    {
        open_action(kind, self.mode)
    }

    /// Shows the directory `path`, whose entries are `entries`, writes it
    /// into the path field and clears the selection; does nothing when `path`
    /// is the directory shown. Returns whether the directory changed.
    pub fn set_directory(&mut self, path: String, entries: Vec<String>) -> (changed: bool)
        requires
            old(self).wf(),
        ensures
            final(self).wf(),
            changed == !paths_equal(path@, old(self).directory@),
            final(self).mode == old(self).mode,
            final(self).chooser == old(self).chooser,
            !changed ==> *final(self) == *old(self),
            changed ==> {
                &&& final(self).directory == path
                &&& final(self).nav_input@ == path@
                &&& final(self).entry_list.entries@ == entries@
                &&& final(self).selected_entries@ == Set::<usize>::empty()
                &&& final(self).first_selected.is_none()
            },
    {
        if same_path(path.as_str(), self.directory.as_str()) {
            return false;
        }
        self.nav_input = path.clone();
        self.directory = path;
        self.entry_list.set_entries(entries);
        self.selected_entries = HashSet::new();
        self.first_selected = None;
        true
    }

    /// Clicks row `index` with the given modifier keys held.
    pub fn select_entry(&mut self, index: usize, ctrl: bool, shift: bool)
        requires
            old(self).wf(),
        ensures
            final(self).wf(),
            (final(self).selected_entries@, final(self).first_selected)
                == select_spec(old(self).selected_entries@, old(self).first_selected, index, ctrl, shift),
            final(self).directory == old(self).directory,
            final(self).entry_list == old(self).entry_list,
            final(self).mode == old(self).mode,
            final(self).chooser == old(self).chooser,
    {
        if ctrl {
            if self.selected_entries.contains(&index) {
                self.selected_entries.remove(&index);
            } else {
                self.selected_entries.insert(index);
            }
        } else if shift && self.first_selected.is_some() {
            let first = self.first_selected.unwrap();
            self.selected_entries = get_range(first, index);
        } else {
            self.selected_entries.clear();
            self.selected_entries.insert(index);
            self.first_selected = Some(index);
            assert(self.selected_entries@ =~= set![index]);
        }
    }

    /// A click on an entry's row: a single click selects, a double click asks
    /// to open the entry's path (returned); other clicks do nothing.
    pub fn entry_clicked(&mut self, item: &EntryItem, click_count: usize, ctrl: bool, shift: bool) -> (open: Option<String>)
        requires
            old(self).wf(),
        ensures
            final(self).wf(),
            click_count == 1 ==> (final(self).selected_entries@, final(self).first_selected)
                == select_spec(old(self).selected_entries@, old(self).first_selected, item.index, ctrl, shift),
            click_count != 1 ==> *final(self) == *old(self),
            click_count == 1 ==> open.is_none(),
            click_count == 2 ==> open == Some(item.path),
            click_count != 1 && click_count != 2 ==> open.is_none(),
            final(self).directory == old(self).directory,
            final(self).entry_list == old(self).entry_list,
            final(self).mode == old(self).mode,
            final(self).chooser == old(self).chooser,
    {
        if click_count == 1 {
            self.select_entry(item.index, ctrl, shift);
            None
        } else if click_count == 2 {
            Some(item.path.clone())
        } else {
            None
        }
    }

    /// How row `index` is drawn: whether it is selected, and whether the rows
    /// just above and just below it are.
    pub fn entry_highlight(&self, index: usize) -> (h: (bool, bool, bool))
        requires
            index < usize::MAX,
        ensures
            h.0 == self.selected_entries@.contains(index),
            h.1 == (index > 0 && self.selected_entries@.contains((index - 1) as usize)),
            h.2 == self.selected_entries@.contains((index + 1) as usize),
    {
        let is_active = self.selected_entries.contains(&index);
        let prev_active = index > 0 && self.selected_entries.contains(&(index - 1));
        let next_active = self.selected_entries.contains(&(index + 1));
        (is_active, prev_active, next_active)
    }

    /// Answers the chooser, if there is one, with `path`. The window then
    /// closes and the application quits, with or without a chooser: the
    /// result says so.
    pub fn submit_selection(&mut self, path: String) -> (closes: bool)
        requires
            old(self).wf(),
        ensures
            closes,
            final(self).wf(),
            final(self).directory == old(self).directory,
            final(self).mode == old(self).mode,
            final(self).entry_list == old(self).entry_list,
            final(self).selected_entries == old(self).selected_entries,
            final(self).first_selected == old(self).first_selected,
            match (old(self).chooser, final(self).chooser) {
                (Some(c0), Some(c1)) => {
                    &&& !c1.pending()
                    &&& c1.request() == c0.request()
                    &&& c0.pending() ==> c1.delivered() == Some(ChooserResult::Selected(path))
                    &&& !c0.pending() ==> c1.delivered() == c0.delivered()
                },
                (None, None) => true,
                _ => false,
            },
    {
        match self.chooser.as_mut() {
            Some(chooser) => chooser.submit(ChooserResult::Selected(path)),
            None => {},
        }
        true
    }

    /// Answers the chooser, if there is one, with `Cancelled`. The window
    /// then closes and the application quits, with or without a chooser: the
    /// result says so.
    pub fn _cancel_selection(&mut self) -> (closes: bool)
        requires
            old(self).wf(),
        ensures
            closes,
            final(self).wf(),
            final(self).directory == old(self).directory,
            final(self).mode == old(self).mode,
            final(self).entry_list == old(self).entry_list,
            final(self).selected_entries == old(self).selected_entries,
            final(self).first_selected == old(self).first_selected,
            match (old(self).chooser, final(self).chooser) {
                (Some(c0), Some(c1)) => {
                    &&& !c1.pending()
                    &&& c1.request() == c0.request()
                    &&& c0.pending() ==> c1.delivered() == Some(ChooserResult::Cancelled)
                    &&& !c0.pending() ==> c1.delivered() == c0.delivered()
                },
                (None, None) => true,
                _ => false,
            },
    {
        match self.chooser.as_mut() {
            Some(chooser) => chooser.cancel(),
            None => {},
        }
        true
    }
}

/// Ctrl-clicking the same row twice leaves the selection and the anchor as
/// they were.
pub proof fn lemma_ctrl_click_twice(selected: Set<usize>, anchor: Option<usize>, index: usize, shift1: bool, shift2: bool)
    ensures
        ({
            let (s1, a1) = select_spec(selected, anchor, index, true, shift1);
            select_spec(s1, a1, index, true, shift2)
        }) == (selected, anchor),
{
    if selected.contains(index) {
        assert(selected.remove(index).insert(index) =~= selected);
    } else {
        assert(selected.insert(index).remove(index) =~= selected);
    }
}

/// A plain click on row `a`, then a shift-click on row `b`, selects the rows
/// from `a` to `b` and keeps `a` as the anchor.
pub proof fn lemma_click_then_shift_click(selected: Set<usize>, anchor: Option<usize>, a: usize, b: usize, shift1: bool)
    ensures
        ({
            let (s1, a1) = select_spec(selected, anchor, a, false, false);
            select_spec(s1, a1, b, false, true)
        }) == (range_set(a, b), Some(a)),
{
}

/// A plain click, with or without shift when nothing is anchored, selects
/// exactly the clicked row and anchors it.
pub proof fn lemma_plain_click_selects_one(selected: Set<usize>, anchor: Option<usize>, index: usize, shift: bool)
    requires
        !shift || anchor.is_none(),
    ensures
        select_spec(selected, anchor, index, false, shift) == (set![index], Some(index)),
{
}

/// Opening a path that is neither a directory nor a file does nothing, in
/// either mode; a directory is always entered; only a file is handed to the
/// system (in the browser) or to the chooser (in the chooser).
pub proof fn lemma_open_action_by_kind(kind: PathKind, mode: NaviMode)
    ensures
        kind == PathKind::Neither ==> open_action_spec(kind, mode) == OpenAction::Ignore,
        (open_action_spec(kind, mode) == OpenAction::EnterDirectory) <==> kind == PathKind::Directory,
        (open_action_spec(kind, mode) == OpenAction::OpenInSystem) <==> (kind == PathKind::File && mode == NaviMode::Browser),
        (open_action_spec(kind, mode) == OpenAction::SubmitSelection) <==> (kind == PathKind::File && mode == NaviMode::FileChooser),
        (open_action_spec(kind, mode) == OpenAction::Ignore) <==> kind == PathKind::Neither,
{
}

/// A ctrl-click toggles exactly the clicked row, whatever the anchor and the
/// shift key, and keeps the anchor.
pub proof fn lemma_ctrl_click_toggles_row(selected: Set<usize>, anchor: Option<usize>, index: usize, shift: bool)
    ensures
        ({
            let (s1, a1) = select_spec(selected, anchor, index, true, shift);
            &&& s1.contains(index) == !selected.contains(index)
            &&& forall|k: usize| k != index ==> s1.contains(k) == selected.contains(k)
            &&& a1 == anchor
        }),
{
}

/// A shift-click with an anchor selects exactly the rows between the anchor
/// and the clicked row, both included, and keeps the anchor.
pub proof fn lemma_shift_click_selects_between(selected: Set<usize>, first: usize, index: usize)
    ensures
        ({
            let (s1, a1) = select_spec(selected, Some(first), index, false, true);
            &&& forall|k: usize| s1.contains(k) <==> ((first <= k && k <= index) || (index <= k && k <= first))
            &&& a1 == Some(first)
        }),
{
}

/// A plain click selects exactly the clicked row and anchors there.
pub proof fn lemma_plain_click_selects_only_row(selected: Set<usize>, anchor: Option<usize>, index: usize)
    ensures
        ({
            let (s1, a1) = select_spec(selected, anchor, index, false, false);
            &&& forall|k: usize| s1.contains(k) <==> k == index
            &&& a1 == Some(index)
        }),
{
}

} // verus!
