use std::collections::HashSet;

use nirix::app::{FileBrowserDelegate, FileListEvent, IndexPath, NaviView, Screen};
use nirix::chooser::{ChooserLaunch, ChooserRequest, ChooserResult, ChooserState};
use nirix::components::drag_label::DragLabel;
use nirix::components::entry_item::{get_range, row_borders, EntryItem};
use nirix::components::entry_list::EntryList;
use nirix::components::file_item::{file_item, file_item_clicked, file_item_selected, file_label};
use nirix::components::navbar::{back_pressed, path_entered, NavBarEvent};
use nirix::config::{NaviConfig, NaviMode};
use nirix::navi_core::entries_from_listing;
use nirix::screens::browser::{open_action, system_open_command, Browser, OpenAction, PathKind};

fn set(items: &[usize]) -> HashSet<usize> {
    items.iter().copied().collect()
}

fn strings(list: &[&str]) -> Vec<String> {
    list.iter().map(|s| s.to_string()).collect()
}

fn ix(row: usize) -> IndexPath {
    IndexPath { section: 0, row, column: 0 }
}

fn browser() -> Browser {
    Browser::new("/home/u".to_string(), NaviMode::Browser, None, strings(&["/home/u/a", "/home/u/b", "/home/u/c"]))
}

#[test]
fn range_in_either_order() {
    assert_eq!(get_range(2, 5), set(&[2, 3, 4, 5]));
    assert_eq!(get_range(5, 2), set(&[2, 3, 4, 5]));
    assert_eq!(get_range(3, 3), set(&[3]));
    assert_eq!(get_range(usize::MAX, usize::MAX - 1), set(&[usize::MAX - 1, usize::MAX]));
}

#[test]
fn plain_click_selects_one_and_anchors() {
    let mut b = browser();
    b.select_entry(1, false, false);
    assert_eq!(b.selected_entries, set(&[1]));
    assert_eq!(b.first_selected, Some(1));
    b.select_entry(2, false, false);
    assert_eq!(b.selected_entries, set(&[2]));
    assert_eq!(b.first_selected, Some(2));
}

#[test]
fn shift_click_without_anchor_is_a_plain_click() {
    let mut b = browser();
    b.select_entry(2, false, true);
    assert_eq!(b.selected_entries, set(&[2]));
    assert_eq!(b.first_selected, Some(2));
}

#[test]
fn shift_click_selects_range_from_anchor() {
    let mut b = browser();
    b.select_entry(4, false, false);
    b.select_entry(1, false, true);
    assert_eq!(b.selected_entries, set(&[1, 2, 3, 4]));
    assert_eq!(b.first_selected, Some(4));
    b.select_entry(6, false, true);
    assert_eq!(b.selected_entries, set(&[4, 5, 6]));
}

#[test]
fn ctrl_click_twice_restores_selection() {
    let mut b = browser();
    b.select_entry(0, false, false);
    b.select_entry(2, true, false);
    assert_eq!(b.selected_entries, set(&[0, 2]));
    assert_eq!(b.first_selected, Some(0));
    b.select_entry(2, true, true);
    assert_eq!(b.selected_entries, set(&[0]));
    assert_eq!(b.first_selected, Some(0));
}

#[test]
fn entry_clicks() {
    let mut b = browser();
    let item = EntryItem::new("/home/u/b".to_string(), 1);
    assert_eq!(b.entry_clicked(&item, 1, false, false), None);
    assert_eq!(b.selected_entries, set(&[1]));
    assert_eq!(b.entry_clicked(&item, 2, false, false), Some("/home/u/b".to_string()));
    assert_eq!(b.entry_clicked(&item, 3, true, false), None);
    assert_eq!(b.selected_entries, set(&[1]));
}

#[test]
fn highlight_reports_neighbours() {
    let mut b = browser();
    b.select_entry(1, false, false);
    b.select_entry(2, true, false);
    assert_eq!(b.entry_highlight(0), (false, false, true));
    assert_eq!(b.entry_highlight(1), (true, false, true));
    assert_eq!(b.entry_highlight(2), (true, true, false));
    assert_eq!(b.entry_highlight(3), (false, true, false));
}

#[test]
fn entering_a_directory_clears_selection() {
    let mut b = browser();
    b.select_entry(1, false, false);
    assert!(b.is_current_directory("/home/u/"));
    assert!(!b.set_directory("/home/u/".to_string(), strings(&["/elsewhere"])));
    assert_eq!(b.selected_entries, set(&[1]));
    assert_eq!(b.entry_list.len(), 3);
    assert!(b.set_directory("/home".to_string(), strings(&["/home/u"])));
    assert_eq!(b.directory, "/home");
    assert!(b.selected_entries.is_empty());
    assert_eq!(b.first_selected, None);
    assert_eq!(b.entry_list.entry(0), "/home/u");
}

#[test]
fn open_actions() {
    assert_eq!(open_action(PathKind::Directory, NaviMode::Browser), OpenAction::EnterDirectory);
    assert_eq!(open_action(PathKind::Directory, NaviMode::FileChooser), OpenAction::EnterDirectory);
    assert_eq!(open_action(PathKind::File, NaviMode::Browser), OpenAction::OpenInSystem);
    assert_eq!(open_action(PathKind::File, NaviMode::FileChooser), OpenAction::SubmitSelection);
    assert_eq!(open_action(PathKind::Neither, NaviMode::FileChooser), OpenAction::Ignore);
    assert_eq!(browser().open_path(PathKind::File), OpenAction::OpenInSystem);
}

#[test]
fn system_opener() {
    let (p, a) = system_open_command(None, "/x/y.pdf");
    assert_eq!(p, "xterm");
    assert_eq!(a, strings(&["-e", "xdg-open", "/x/y.pdf"]));
    let (p, _) = system_open_command(Some("foot".to_string()), "/x");
    assert_eq!(p, "foot");
}

#[test]
fn browser_submits_to_chooser_once() {
    let (tx, mut rx) = tokio::sync::oneshot::channel::<ChooserResult>();
    let chooser = ChooserState::new(ChooserRequest::default(), tx);
    let mut b = Browser::new("/".to_string(), NaviMode::FileChooser, Some(chooser), vec![]);
    assert!(b.submit_selection("/etc/hosts".to_string()));
    assert!(b._cancel_selection());
    assert!(matches!(rx.try_recv(), Ok(ChooserResult::Selected(p)) if p == "/etc/hosts"));
    let mut plain = browser();
    assert!(plain.submit_selection("/x".to_string()));
    assert!(plain._cancel_selection());
}

#[test]
fn entry_labels() {
    assert_eq!(EntryItem::new("/home/u/notes.txt".to_string(), 0).label(), "notes.txt");
    assert_eq!(EntryItem::new("/".to_string(), 0).label(), "/");
    assert_eq!(EntryItem::new("/a/..".to_string(), 0).label(), "/a/..");
    assert_eq!(file_label("/home/u/x"), "x");
    assert_eq!(file_label("/"), "/");
}

#[test]
fn navbar_events() {
    assert!(matches!(path_entered("/tmp".to_string()), NavBarEvent::Navigate(p) if p == "/tmp"));
    assert!(matches!(back_pressed("/home/u"), Some(NavBarEvent::Navigate(p)) if p == "/home"));
    assert!(matches!(back_pressed("/home/u/"), Some(NavBarEvent::Navigate(p)) if p == "/home"));
    assert!(back_pressed("/").is_none());
}

#[test]
fn entry_list_rows() {
    let mut l = EntryList::new(strings(&["/a"]));
    assert_eq!(l.len(), 1);
    l.set_entries(strings(&["/b", "/c"]));
    assert_eq!(l.len(), 2);
    assert_eq!(l.entry(1), "/c");
}

#[test]
fn delegate_selection() {
    let mut d = FileBrowserDelegate::default();
    assert!(d.files.is_empty());
    assert_eq!(d.selected_index, vec![None]);
    assert!(!d.is_dragging);
    d = FileBrowserDelegate::with_items(strings(&["/a", "/b"]));
    assert_eq!(d.items_count(), 2);
    assert_eq!(d.item(ix(1)), Some("/b".to_string()));
    assert_eq!(d.item(ix(2)), None);
    assert!(!d.is_selected(ix(0)));
    d.set_selected_index(Some(ix(0)));
    assert_eq!(d.selected_index, vec![Some(ix(0))]);
    d.add_selected_index(Some(ix(1)));
    assert!(d.is_selected(ix(0)) && d.is_selected(ix(1)));
    assert!(!d.is_selected(IndexPath { section: 1, row: 1, column: 0 }));
    d.set_selected_index(None);
    assert_eq!(d.selected_index, vec![None]);
}

#[test]
fn file_item_clicks() {
    let mut d = FileBrowserDelegate::with_items(strings(&["/a", "/b"]));
    let item = "/b".to_string();
    assert!(file_item_clicked(&mut d, ix(1), &item, 1, false).is_none());
    assert!(file_item_selected(&d, ix(1)));
    assert!(file_item_clicked(&mut d, ix(0), &"/a".to_string(), 1, true).is_none());
    assert_eq!(d.selected_index, vec![Some(ix(1)), Some(ix(0))]);
    assert!(matches!(file_item_clicked(&mut d, ix(1), &item, 2, false), Some(FileListEvent::Open(p)) if p == "/b"));
    assert_eq!(d.selected_index, vec![Some(ix(1)), Some(ix(0))]);
    assert!(file_item_clicked(&mut d, ix(1), &item, 3, false).is_none());
}

#[test]
fn navi_view_lifecycle() {
    let (tx, mut rx) = tokio::sync::oneshot::channel::<ChooserResult>();
    let mut config = NaviConfig::file_chooser(ChooserLaunch { request: ChooserRequest::default(), tx });
    config.start_dir = "/srv".to_string();
    let mut v = NaviView::new(config, strings(&["/srv/a"]));
    assert_eq!(v.screen, Screen::Browser);
    assert_eq!(v.current_dir, "/srv");
    assert_eq!(v.open_path(PathKind::File), OpenAction::SubmitSelection);
    v.file_list.set_selected_index(Some(ix(0)));
    assert!(!v.set_directory("/srv".to_string(), vec![]));
    assert!(v.is_current_directory("/srv/"));
    assert!(v.set_directory("/srv/a".to_string(), vec![]));
    assert_eq!(v.file_list.selected_index, vec![Some(ix(0))]);
    assert!(v.submit_selection("/srv/a/f".to_string()));
    assert!(v._cancel_selection());
    assert!(matches!(rx.try_recv(), Ok(ChooserResult::Selected(p)) if p == "/srv/a/f"));

    let mut browse = NaviView::new(NaviConfig::default(), vec![]);
    assert!(browse.chooser.is_none());
    assert!(!browse.submit_selection("/x".to_string()));
    assert!(!browse._cancel_selection());

    let (tx, _rx) = tokio::sync::oneshot::channel::<ChooserResult>();
    let mut config = NaviConfig::default();
    config.chooser = Some(ChooserLaunch { request: ChooserRequest::default(), tx });
    assert!(NaviView::new(config, vec![]).chooser.is_none());
    let mut chooser_without_launch = NaviConfig::default();
    chooser_without_launch.mode = NaviMode::FileChooser;
    assert!(NaviView::new(chooser_without_launch, vec![]).chooser.is_none());
}

#[test]
fn drag_label_holds_row() {
    assert_eq!(DragLabel::new(ix(3)).ix, ix(3));
}

#[test]
fn listing_keeps_readable_entries() {
    let listing = Ok(vec![Ok("/d/a".to_string()), Err("denied".to_string()), Ok("/d/c".to_string())]);
    assert_eq!(entries_from_listing(listing), strings(&["/d/a", "/d/c"]));
    assert!(entries_from_listing(Err("no such directory".to_string())).is_empty());
    assert!(entries_from_listing(Ok(vec![])).is_empty());
}

#[test]
fn file_rows() {
    let mut d = FileBrowserDelegate::with_items(strings(&["/srv/x.txt", "/"]));
    d.set_selected_index(Some(ix(0)));
    let row = file_item(&d, ix(0), "/srv/x.txt");
    assert_eq!(row.id, ix(0));
    assert_eq!(row.label, "x.txt");
    assert!(row.selected);
    let row = file_item(&d, ix(1), "/");
    assert_eq!(row.label, "/");
    assert!(!row.selected);
}

#[test]
fn selected_neighbours_share_borders() {
    assert_eq!(row_borders((true, true, false)), (false, true));
    assert_eq!(row_borders((true, false, true)), (true, false));
    assert_eq!(row_borders((false, true, true)), (true, true));
}

#[test]
fn window_plans() {
    let browser = NaviConfig::default().window_plan();
    assert_eq!(browser.title, "Navi");
    assert_eq!(browser.app_id, "navi");
    assert!(browser.layer_shell.is_none());
    assert_eq!((browser.width, browser.height), (500, 200));
    assert!(browser.transparent);
    let (tx, _rx) = tokio::sync::oneshot::channel::<ChooserResult>();
    let chooser = NaviConfig::file_chooser(ChooserLaunch { request: ChooserRequest::default(), tx }).window_plan();
    let layer = chooser.layer_shell.expect("a chooser is a layer-shell surface");
    assert_eq!(layer.namespace, "Open File");
    assert!(layer.anchor_left && layer.anchor_right && layer.anchor_top && layer.anchor_bottom);
    assert!(layer.keyboard_on_demand);
    assert_eq!(chooser.app_id, "navi-file-chooser");
}

#[test]
fn entry_row_ids() {
    assert_eq!(EntryItem::new("/home/u/a".to_string(), 0).element_id(), "/home/u/a-0");
    assert_eq!(EntryItem::new("/x".to_string(), 1207).element_id(), "/x-1207");
}

#[test]
fn navi_view_keeps_drag_state() {
    let mut v = NaviView::new(NaviConfig::config_for_home(Some("/h".to_string())), vec![]);
    assert_eq!(v.current_dir, "/h");
    assert!(v.file_list.dragging_index.is_none() && v.file_list.drag_over_index.is_none() && !v.file_list.is_dragging);
    v.file_list.dragging_index = Some(ix(2));
    v.file_list.is_dragging = true;
    assert!(v.set_directory("/h/sub".to_string(), strings(&["/h/sub/f"])));
    assert_eq!(v.file_list.dragging_index, Some(ix(2)));
    assert!(v.file_list.is_dragging);
}

#[test]
fn path_field_follows_the_directory() {
    let mut b = browser();
    assert_eq!(b.nav_input, "/home/u");
    b.set_nav_input("/tmp".to_string());
    assert_eq!(b.nav_input, "/tmp");
    assert_eq!(b.directory, "/home/u");
    let event = path_entered(b.nav_input.clone());
    assert_eq!(b.navigate_path(&event), "/tmp");
    assert!(!b.set_directory("/home/u".to_string(), vec![]));
    assert_eq!(b.nav_input, "/tmp");
    assert!(b.set_directory("/var".to_string(), vec![]));
    assert_eq!(b.nav_input, "/var");

    let mut v = NaviView::new(NaviConfig::config_for_home(Some("/h".to_string())), vec![]);
    assert_eq!(v.nav_input, "/h");
    v.set_nav_input("/etc".to_string());
    assert_eq!(v.entered_path(), "/etc");
    assert_eq!(v.event_path(&FileListEvent::Open("/h/f".to_string())), "/h/f");
    assert!(v.set_directory("/etc".to_string(), vec![]));
    assert_eq!(v.nav_input, "/etc");
    assert_eq!(v.current_dir, "/etc");
}
