use nirix::chooser::{ChooserLaunch, ChooserRequest, ChooserResult, ChooserState};
use nirix::config::{NaviConfig, NaviMode};
use nirix::navi_chooser::{parse_args, report};
use nirix::portal_backend::file_chooser::backend::FileChooserBackend;

fn args(list: &[&str]) -> Vec<String> {
    list.iter().map(|s| s.to_string()).collect()
}

fn selected_path(r: &ChooserResult) -> Option<String> {
    match r {
        ChooserResult::Selected(p) => Some(p.clone()),
        _ => None,
    }
}

#[test]
fn request_default_is_untitled_single_file() {
    let r = ChooserRequest::default();
    assert_eq!(r.title, "");
    assert!(!r.multiple);
    assert!(!r.directory);
}

#[test]
fn submit_hands_over_the_first_result_only() {
    let (tx, mut rx) = tokio::sync::oneshot::channel::<ChooserResult>();
    let mut state = ChooserState::new(ChooserRequest::default(), tx);
    assert!(state.is_pending());
    state.submit(ChooserResult::Selected("/home/u/a.txt".to_string()));
    assert!(!state.is_pending());
    state.submit(ChooserResult::Selected("/home/u/b.txt".to_string()));
    state.cancel();
    let got = rx.try_recv().expect("a result was handed over");
    assert_eq!(selected_path(&got), Some("/home/u/a.txt".to_string()));
}

#[test]
fn cancel_hands_over_cancelled() {
    let (tx, mut rx) = tokio::sync::oneshot::channel::<ChooserResult>();
    let mut state = ChooserState::new(ChooserRequest::default(), tx);
    state.cancel();
    assert!(matches!(rx.try_recv(), Ok(ChooserResult::Cancelled)));
}

#[test]
fn submit_with_receiver_gone_does_not_fail() {
    let (tx, rx) = tokio::sync::oneshot::channel::<ChooserResult>();
    drop(rx);
    let mut state = ChooserState::new(ChooserRequest::default(), tx);
    state.submit(ChooserResult::Cancelled);
    assert!(!state.is_pending());
}

#[test]
fn parse_args_reads_title_and_flags() {
    let r = parse_args(&args(&["navi-chooser", "--title", "Pick one", "--multiple", "--directory"]));
    assert_eq!(r.title, "Pick one");
    assert!(r.multiple);
    assert!(r.directory);
}

#[test]
fn parse_args_skips_unknown_and_dangling_title() {
    let r = parse_args(&args(&["navi-chooser", "--verbose", "--multiple", "--title"]));
    assert_eq!(r.title, "");
    assert!(r.multiple);
    assert!(!r.directory);
    let r = parse_args(&args(&["--multiple"]));
    assert!(!r.multiple);
}

#[test]
fn parse_args_title_may_look_like_a_flag() {
    let r = parse_args(&args(&["navi-chooser", "--title", "--multiple"]));
    assert_eq!(r.title, "--multiple");
    assert!(!r.multiple);
}

#[test]
fn command_line_round_trip() {
    let backend = FileChooserBackend::new();
    for (title, multiple, directory) in [("Open", true, false), ("--directory", false, true), ("", true, true)] {
        let request = ChooserRequest { title: title.to_string(), multiple, directory };
        let mut line = vec!["navi-chooser".to_string()];
        line.extend(backend.command_args(&request));
        let back = parse_args(&line);
        assert_eq!(back.title, title);
        assert_eq!(back.multiple, multiple);
        assert_eq!(back.directory, directory);
    }
}

#[test]
fn report_prints_paths_and_exit_code() {
    assert_eq!(report(Some(ChooserResult::Selected("/a".to_string()))), (vec!["/a".to_string()], 0));
    assert_eq!(
        report(Some(ChooserResult::SelectedMany(vec!["/a".to_string(), "/b".to_string()]))),
        (vec!["/a".to_string(), "/b".to_string()], 0)
    );
    assert_eq!(report(Some(ChooserResult::Cancelled)), (Vec::<String>::new(), 1));
    assert_eq!(report(None), (Vec::<String>::new(), 1));
}

#[test]
fn config_defaults() {
    let c = NaviConfig::default();
    assert_eq!(c.mode, NaviMode::Browser);
    assert_eq!(c.title, "Navi");
    assert_eq!(c.app_id, "navi");
    assert!(!c.start_dir.is_empty());
    assert!(c.chooser.is_none());
    assert_eq!(NaviMode::default(), NaviMode::Browser);
}

#[test]
fn config_for_file_chooser() {
    let (tx, _rx) = tokio::sync::oneshot::channel::<ChooserResult>();
    let launch = ChooserLaunch { request: ChooserRequest::default(), tx };
    let c = NaviConfig::file_chooser(launch);
    assert_eq!(c.mode, NaviMode::FileChooser);
    assert_eq!(c.title, "Open File");
    assert_eq!(c.app_id, "navi-file-chooser");
    assert!(c.chooser.is_some());
    assert_eq!(c.start_dir, NaviConfig::default().start_dir);
}

#[test]
fn config_for_home_directories() {
    let c = NaviConfig::config_for_home(Some("/home/ada".to_string()));
    assert_eq!(c.start_dir, "/home/ada");
    assert_eq!(c.mode, NaviMode::Browser);
    assert_eq!(c.title, "Navi");
    assert_eq!(c.app_id, "navi");
    assert!(c.chooser.is_none());
    assert_eq!(NaviConfig::config_for_home(None).start_dir, "/");
    let (tx, _rx) = tokio::sync::oneshot::channel::<ChooserResult>();
    let c = NaviConfig::file_chooser_for_home(ChooserLaunch { request: ChooserRequest::default(), tx }, None);
    assert_eq!(c.start_dir, "/");
    assert_eq!(c.mode, NaviMode::FileChooser);
    assert_eq!(c.title, "Open File");
    let (tx, _rx) = tokio::sync::oneshot::channel::<ChooserResult>();
    let c = NaviConfig::file_chooser_for_home(ChooserLaunch { request: ChooserRequest::default(), tx }, Some("/srv".to_string()));
    assert_eq!(c.start_dir, "/srv");
}

#[test]
fn default_config_starts_at_home() {
    let home = dirs::home_dir().map(|p| p.to_string_lossy().into_owned()).unwrap_or_else(|| "/".to_string());
    assert_eq!(NaviConfig::default().start_dir, home);
}

#[test]
fn closed_channel_message() {
    assert_eq!(
        nirix::chooser::channel_closed_message("channel closed"),
        "chooser channel closed before result: channel closed"
    );
}

#[test]
fn decimal_text_of_numbers() {
    use_decimal(0, "0");
    use_decimal(9, "9");
    use_decimal(10, "10");
    use_decimal(usize::MAX, &usize::MAX.to_string());
}

fn use_decimal(n: usize, expected: &str) {
    assert_eq!(nirix::components::entry_item::usize_text(n), expected);
}
