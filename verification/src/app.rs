//! The Navi window: the directory shown, its file list with the selected
//! rows, and the chooser it may answer.
use vstd::prelude::*;
use vstd::string::*;
use crate::chooser::{ChooserResult, ChooserState};
use crate::config::{NaviConfig, NaviMode};
use crate::paths::{paths_equal, same_path};
use crate::screens::browser::{open_action, open_action_spec, OpenAction, PathKind};

verus! {

/// The place of a row in a sectioned list.
#[derive(Debug, Clone, Copy, PartialEq, Eq, Structural)]
pub struct IndexPath {
    pub section: usize,
    pub row: usize,
    pub column: usize,
}

/// The screens the window can show.
#[derive(Debug, Clone, Copy, PartialEq, Eq, Structural)]
pub enum Screen {
    Browser,
}

/// What the file list asks of the window.
#[derive(Debug, Clone)]
pub enum FileListEvent {
    Open(String),
}

/// The file list's contents and selection.
#[derive(Debug, Clone)]
pub struct FileBrowserDelegate {
    pub files: Vec<String>,
    pub selected_index: Vec<Option<IndexPath>>,
    pub dragging_index: Option<IndexPath>,
    pub drag_over_index: Option<IndexPath>,
    pub is_dragging: bool,
}

impl Default for FileBrowserDelegate {
    /// No files; one empty selection slot; no drag under way.
    fn default() -> (d: Self)
        ensures
            d.files@.len() == 0,
            d.selected_index@ == seq![None::<IndexPath>],
            d.dragging_index.is_none(),
            d.drag_over_index.is_none(),
            !d.is_dragging,
    {
        let mut selected_index: Vec<Option<IndexPath>> = Vec::new();
        selected_index.push(None);
        FileBrowserDelegate {
            files: Vec::new(),
            selected_index,
            dragging_index: None,
            drag_over_index: None,
            is_dragging: false,
        }
    }
}

impl FileBrowserDelegate {
    /// A list of `files`, otherwise as the default one.
    pub fn with_items(files: Vec<String>) -> (d: Self)
        ensures
            d.files@ == files@,
            d.selected_index@ == seq![None::<IndexPath>],
            d.dragging_index.is_none(),
            d.drag_over_index.is_none(),
            !d.is_dragging,
    {
        let base = FileBrowserDelegate::default();
        FileBrowserDelegate { files, ..base }
    }

    /// Makes `selected_index` the only selection.
    pub fn set_selected_index(&mut self, selected_index: Option<IndexPath>)
        ensures
            final(self).selected_index@ == seq![selected_index],
            final(self).files@ == old(self).files@,
            final(self).dragging_index == old(self).dragging_index,
            final(self).drag_over_index == old(self).drag_over_index,
            final(self).is_dragging == old(self).is_dragging,
    {
        self.selected_index.clear();
        self.selected_index.push(selected_index);
        assert(self.selected_index@ =~= seq![selected_index]);
    }

    /// Adds `selected_index` to the selection.
    pub fn add_selected_index(&mut self, selected_index: Option<IndexPath>)
        ensures
            final(self).selected_index@ == old(self).selected_index@.push(selected_index),
            final(self).files@ == old(self).files@,
            final(self).dragging_index == old(self).dragging_index,
            final(self).drag_over_index == old(self).drag_over_index,
            final(self).is_dragging == old(self).is_dragging,
    {
        self.selected_index.push(selected_index);
    }

    /// How many rows the list has.
    pub fn items_count(&self) -> (n: usize)
        ensures
            n == self.files@.len(),
    {
        self.files.len()
    }

    /// The file shown at `ix` (its row), if the list has that row.
    pub fn item(&self, ix: IndexPath) -> (f: Option<String>)
        ensures
            match f {
                Some(p) => ix.row < self.files@.len() && p@ == self.files@[ix.row as int]@,
                None => ix.row >= self.files@.len(),
            },
    {
        if ix.row < self.files.len() {
            Some(self.files[ix.row].clone())
        } else {
            None
        }
    }

    /// Whether the row at `ix` is selected.
    pub fn is_selected(&self, ix: IndexPath) -> (b: bool)
        ensures
            b == self.selected_index@.contains(Some(ix)),
    {
        let n = self.selected_index.len();
        let mut i: usize = 0;
        while i < n
            invariant
                n == self.selected_index@.len(),
                i <= n,
                forall|j: int| 0 <= j < i ==> self.selected_index@[j] != Some(ix),
            decreases n - i,
        {
            match self.selected_index[i] {
                Some(s) => {
                    if s == ix {
                        assert(self.selected_index@[i as int] == Some(ix));
                        return true;
                    }
                },
                None => {},
            }
            i = i + 1;
        }
        false
    }
}

/// The Navi window's state.
pub struct NaviView {
    pub screen: Screen,
    pub mode: NaviMode,
    pub chooser: Option<ChooserState>,
    pub current_dir: String,
    pub file_list: FileBrowserDelegate,
    /// The text of the path field.
    pub nav_input: String,
}

impl NaviView {
    /// The chooser, when there is one, is in a consistent state.
    pub open spec fn wf(&self) -> bool {
        self.chooser matches Some(c) ==> c.wf()
    }

    /// The window for `config`, listing `files` (the entries of the start
    /// directory). It answers a chooser only when started as a chooser with
    /// a chooser launch.
    pub fn new(config: NaviConfig, files: Vec<String>) -> (v: Self)
        ensures
            v.wf(),
            v.screen == Screen::Browser,
            v.mode == config.mode,
            v.current_dir == config.start_dir,
            v.nav_input@ == config.start_dir@,
            v.file_list.files@ == files@,
            v.file_list.selected_index@ == seq![None::<IndexPath>],
            v.file_list.dragging_index.is_none(),
            v.file_list.drag_over_index.is_none(),
            !v.file_list.is_dragging,
            match (config.mode, config.chooser) {
                (NaviMode::FileChooser, Some(launch)) => (v.chooser matches Some(c)
                    && c.pending() && c.delivered().is_none() && c.request() == launch.request),
                _ => v.chooser.is_none(),
            },
    {
        let chooser = match (config.mode, config.chooser) {
            (NaviMode::FileChooser, Some(launch)) => Some(ChooserState::new(launch.request, launch.tx)),
            (NaviMode::FileChooser, None) => None,
            _ => None,
        };
        let nav_input = config.start_dir.clone();
        NaviView {
            screen: Screen::Browser,
            mode: config.mode,
            chooser,
            nav_input,
            current_dir: config.start_dir,
            file_list: FileBrowserDelegate::with_items(files),
        }
    }

    /// What opening a path of the given kind does here.
    pub fn open_path(&self, kind: PathKind) -> (a: OpenAction)
        ensures
            a == open_action_spec(kind, self.mode),
    {
        open_action(kind, self.mode)
    }

    /// Whether `path` is the directory shown.
    pub fn is_current_directory(&self, path: &str) -> (b: bool)
        ensures
            b == paths_equal(path@, self.current_dir@),
    {
        same_path(path, self.current_dir.as_str())
    }

    /// The text typed into the path field replaces its contents.
    pub fn set_nav_input(&mut self, text: String)
        requires
            old(self).wf(),
        ensures
            final(self).wf(),
            *final(self) == (NaviView { nav_input: text, ..*old(self) }),
    {
        self.nav_input = text;
    }

    /// The path that Enter in the path field opens: the text typed there.
    pub fn entered_path(&self) -> (p: String)
        ensures
            p@ == self.nav_input@,
    {
        self.nav_input.clone()
    }

    /// The path that an event of the file list opens.
    pub fn event_path(&self, event: &FileListEvent) -> (p: String)
        ensures
            match event {
                FileListEvent::Open(q) => p@ == q@,
            },
    {
        match event {
            FileListEvent::Open(q) => q.clone(),
        }
    }

    /// Shows the directory `path`, whose entries are `files`, and writes it
    /// into the path field; does nothing when it is the directory shown. The
    /// selection is kept. Returns whether the directory changed.
    pub fn set_directory(&mut self, path: String, files: Vec<String>) -> (changed: bool)
        requires
            old(self).wf(),
        ensures
            final(self).wf(),
            changed == !paths_equal(path@, old(self).current_dir@),
            !changed ==> *final(self) == *old(self),
            changed ==> {
                &&& final(self).current_dir == path
                &&& final(self).nav_input@ == path@
                &&& final(self).file_list.files@ == files@
                &&& final(self).file_list.selected_index == old(self).file_list.selected_index
                &&& final(self).file_list.dragging_index == old(self).file_list.dragging_index
                &&& final(self).file_list.drag_over_index == old(self).file_list.drag_over_index
                &&& final(self).file_list.is_dragging == old(self).file_list.is_dragging
                &&& final(self).screen == old(self).screen
                &&& final(self).mode == old(self).mode
                &&& final(self).chooser == old(self).chooser
            },
    {
        if same_path(path.as_str(), self.current_dir.as_str()) {
            return false;
        }
        self.nav_input = path.clone();
        self.current_dir = path;
        self.file_list.files = files;
        true
    }

    /// Answers the chooser, if there is one, with `path`. Returns whether
    /// there was a chooser (and so the window closes).
    pub fn submit_selection(&mut self, path: String) -> (closes: bool)
        requires
            old(self).wf(),
        ensures
            final(self).wf(),
            closes == old(self).chooser.is_some(),
            final(self).current_dir == old(self).current_dir,
            final(self).screen == old(self).screen,
            final(self).mode == old(self).mode,
            final(self).file_list == old(self).file_list,
            match (old(self).chooser, final(self).chooser) {
                (Some(c0), Some(c1)) => {
                    &&& !c1.pending()
                    &&& c1.request() == c0.request()
                    &&& c0.pending() ==> c1.delivered() == Some(ChooserResult::Selected(path))
                    &&& !c0.pending() ==> c1.delivered() == c0.delivered()
                },
                (None, None) => true,
                _ => false,
            },
    {
        match self.chooser.as_mut() {
            Some(chooser) => {
                chooser.submit(ChooserResult::Selected(path));
                true
            },
            None => false,
        }
    }

    /// Answers the chooser, if there is one, with `Cancelled`. Returns
    /// whether there was a chooser (and so the window closes).
    pub fn _cancel_selection(&mut self) -> (closes: bool)
        requires
            old(self).wf(),
        ensures
            final(self).wf(),
            closes == old(self).chooser.is_some(),
            final(self).current_dir == old(self).current_dir,
            final(self).screen == old(self).screen,
            final(self).mode == old(self).mode,
            final(self).file_list == old(self).file_list,
            match (old(self).chooser, final(self).chooser) {
                (Some(c0), Some(c1)) => {
                    &&& !c1.pending()
                    &&& c1.request() == c0.request()
                    &&& c0.pending() ==> c1.delivered() == Some(ChooserResult::Cancelled)
                    &&& !c0.pending() ==> c1.delivered() == c0.delivered()
                },
                (None, None) => true,
                _ => false,
            },
    {
        match self.chooser.as_mut() {
            Some(chooser) => {
                chooser.cancel();
                true
            },
            None => false,
        }
    }
}

} // verus!
