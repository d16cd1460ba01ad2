//! A row of the Navi window's file list: its label, whether it is selected,
//! and what a click on it does.
use vstd::prelude::*;
use vstd::string::*;
use crate::app::{FileBrowserDelegate, FileListEvent, IndexPath};
use crate::paths::{file_name, path_file_name};

verus! {

/// The label of a file row: the file name, or `/` when there is none.
pub open spec fn file_label_spec(path: Seq<char>) -> Seq<char> {
    match path_file_name(path) {
        Some(name) => name,
        None => "/"@,
    }
}

/// The text shown for the file `item`.
pub fn file_label(item: &str) -> (s: String)
    ensures
        s@ == file_label_spec(item@),
{
    match file_name(item) {
        Some(name) => name,
        None => String::from_str("/"),
    }
}

/// What a file row shows: its id (its place in the list), its label, and whether it is drawn as selected.
pub struct FileItem {
    pub id: IndexPath,
    pub label: String,
    pub selected: bool,
}

/// The row at `ix`, which shows the file `item`.
pub fn file_item(state: &FileBrowserDelegate, ix: IndexPath, item: &str) -> (row: FileItem)
    ensures
        row.id == ix,
        row.label@ == file_label_spec(item@),
        row.selected == state.selected_index@.contains(Some(ix)),
{
    FileItem { id: ix, label: file_label(item), selected: state.is_selected(ix) }
}

/// Whether the row at `ix` is drawn as selected.
pub fn file_item_selected(state: &FileBrowserDelegate, ix: IndexPath) -> (b: bool)
    ensures
        b == state.selected_index@.contains(Some(ix)),
{
    state.is_selected(ix)
}

/// A click on the row at `ix`, which shows `item`: a double click asks to
/// open the file; a single click selects the row, alone or (with ctrl) in
/// addition to the rows already selected; other clicks do nothing.
pub fn file_item_clicked(state: &mut FileBrowserDelegate, ix: IndexPath, item: &String, click_count: usize, ctrl: bool) -> (event: Option<FileListEvent>)
    ensures
        click_count == 2 ==> (event matches Some(FileListEvent::Open(p)) && p@ == item@),
        click_count != 2 ==> event.is_none(),
        final(state).files@ == old(state).files@,
        final(state).dragging_index == old(state).dragging_index,
        final(state).drag_over_index == old(state).drag_over_index,
        final(state).is_dragging == old(state).is_dragging,
        final(state).selected_index@ == if click_count == 1 {
            if ctrl {
                old(state).selected_index@.push(Some(ix))
            } else {
                seq![Some(ix)]
            }
        } else {
            old(state).selected_index@
        },
{
    if click_count == 2 {
        Some(FileListEvent::Open(item.clone()))
    } else if click_count == 1 {
        if ctrl {
            state.add_selected_index(Some(ix));
        } else {
            state.set_selected_index(Some(ix));
        }
        None
    } else {
        None
    }
}

} // verus!
