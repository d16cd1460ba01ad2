use nirix::chooser::ChooserResult;
use nirix::portal_backend::file_chooser::backend::FileChooserBackend;
use nirix::portal_backend::file_chooser::request;
use nirix::portal_backend::file_chooser_backend::FileChooserBackend as InProcessBackend;
use nirix::portal_core::{
    encode_uris, get_bool_option, parse_chooser_request, path_to_file_uri, response_from_chooser, ChooserOptions,
    EncodeStop, OptionValue, PortalError,
};

fn failed(e: &PortalError) -> String {
    match e {
        PortalError::Failed(m) => m.clone(),
        PortalError::InvalidArgs(m) => panic!("expected Failed, got InvalidArgs({m})"),
    }
}

fn stop_failed(e: &EncodeStop) -> String {
    match e {
        EncodeStop::Failed(e) => failed(e),
        EncodeStop::NeedsCanonical { index, .. } => panic!("expected Failed, got NeedsCanonical({index})"),
    }
}

fn options(list: &[(&str, OptionValue)]) -> ChooserOptions {
    let mut o = ChooserOptions::new();
    for (k, v) in list {
        o.insert(k.to_string(), v.clone());
    }
    o
}

#[test]
fn options_insert_replaces() {
    let mut o = ChooserOptions::new();
    assert!(o.get("multiple").is_none());
    o.insert("multiple".to_string(), OptionValue::Bool(false));
    o.insert("directory".to_string(), OptionValue::Bool(true));
    o.insert("multiple".to_string(), OptionValue::Bool(true));
    assert!(matches!(o.get("multiple"), Some(OptionValue::Bool(true))));
    assert!(matches!(o.get("directory"), Some(OptionValue::Bool(true))));
    assert!(o.get("modal").is_none());
}

#[test]
fn bool_option_absent_present_and_wrong_type() {
    let o = options(&[("multiple", OptionValue::Bool(true)), ("modal", OptionValue::NotBool("Incorrect type".to_string()))]);
    assert_eq!(get_bool_option(&o, "directory").unwrap(), None);
    assert_eq!(get_bool_option(&o, "multiple").unwrap(), Some(true));
    let e = get_bool_option(&o, "modal").unwrap_err();
    assert_eq!(failed(&e), "option `modal` is not a bool: Incorrect type");
    assert_eq!(request::get_bool_option(&o, "multiple").unwrap(), Some(true));
}

#[test]
fn parse_request_defaults_to_false() {
    let r = parse_chooser_request("Open".to_string(), &ChooserOptions::new()).unwrap();
    assert_eq!(r.title, "Open");
    assert!(!r.multiple);
    assert!(!r.directory);
    let o = options(&[("directory", OptionValue::Bool(true))]);
    let r = request::parse_chooser_request("Dir".to_string(), &o).unwrap();
    assert!(!r.multiple);
    assert!(r.directory);
}

#[test]
fn parse_request_reports_multiple_first() {
    let o = options(&[
        ("directory", OptionValue::NotBool("d".to_string())),
        ("multiple", OptionValue::NotBool("m".to_string())),
    ]);
    let e = parse_chooser_request("t".to_string(), &o).unwrap_err();
    assert_eq!(failed(&e), "option `multiple` is not a bool: m");
    let o = options(&[("multiple", OptionValue::Bool(true)), ("directory", OptionValue::NotBool("d".to_string()))]);
    let e = parse_chooser_request("t".to_string(), &o).unwrap_err();
    assert_eq!(failed(&e), "option `directory` is not a bool: d");
}

#[test]
fn file_uri_of_absolute_and_relative_paths() {
    assert_eq!(path_to_file_uri("/tmp/a b", &Err("unused".to_string())).unwrap(), "file:///tmp/a b");
    assert_eq!(path_to_file_uri("docs/x", &Ok("/home/u/docs/x".to_string())).unwrap(), "file:///home/u/docs/x");
    let e = path_to_file_uri("gone", &Err("No such file or directory (os error 2)".to_string())).unwrap_err();
    assert_eq!(failed(&e), "failed to canonicalize gone: No such file or directory (os error 2)");
    let e = path_to_file_uri("rel", &Ok("still/rel".to_string())).unwrap_err();
    assert_eq!(failed(&e), "path is not a unix absolute path: still/rel");
}

#[test]
fn encode_uris_keeps_order_and_stops_at_first_error() {
    let paths = vec!["/a".to_string(), "b".to_string(), "c".to_string()];
    let ok = vec![Ok(String::new()), Ok("/w/b".to_string()), Ok("/w/c".to_string())];
    assert_eq!(encode_uris(&paths, &ok).unwrap(), vec!["file:///a", "file:///w/b", "file:///w/c"]);
    let bad = vec![Ok(String::new()), Err("e1".to_string())];
    assert_eq!(stop_failed(&encode_uris(&paths, &bad).unwrap_err()), "failed to canonicalize b: e1");
    assert_eq!(encode_uris(&vec![], &vec![]).unwrap(), Vec::<String>::new());
}

#[test]
fn encode_uris_asks_for_relative_paths_one_at_a_time() {
    let paths = vec!["/a".to_string(), "b".to_string(), "/c".to_string(), "d".to_string()];
    match encode_uris(&paths, &vec![]).unwrap_err() {
        EncodeStop::NeedsCanonical { index, path } => {
            assert_eq!(index, 1);
            assert_eq!(path, "b");
        }
        _ => panic!("expected NeedsCanonical"),
    }
    let known = vec![Ok(String::new()), Ok("/w/b".to_string())];
    match encode_uris(&paths, &known).unwrap_err() {
        EncodeStop::NeedsCanonical { index, path } => {
            assert_eq!(index, 3);
            assert_eq!(path, "d");
        }
        _ => panic!("expected NeedsCanonical"),
    }
    let all = vec![Ok(String::new()), Ok("/w/b".to_string()), Ok(String::new()), Ok("/w/d".to_string())];
    assert_eq!(encode_uris(&paths, &all).unwrap(), vec!["file:///a", "file:///w/b", "file:///c", "file:///w/d"]);
    let absolute = vec!["/x".to_string(), "/y".to_string()];
    assert_eq!(encode_uris(&absolute, &vec![]).unwrap(), vec!["file:///x", "file:///y"]);
}

#[test]
fn response_codes() {
    let r = response_from_chooser(&ChooserResult::Cancelled, &vec![]).unwrap();
    assert_eq!(r.response, 1);
    assert!(r.uris.is_none());
    let r = response_from_chooser(&ChooserResult::Selected("/x".to_string()), &vec![]).unwrap();
    assert_eq!(r.response, 0);
    assert_eq!(r.uris, Some(vec!["file:///x".to_string()]));
    let r = response_from_chooser(&ChooserResult::SelectedMany(vec!["/x".to_string(), "/y".to_string()]), &vec![]).unwrap();
    assert_eq!(r.response, 0);
    assert_eq!(r.uris, Some(vec!["file:///x".to_string(), "file:///y".to_string()]));
    let r = response_from_chooser(&ChooserResult::SelectedMany(vec![]), &vec![]).unwrap();
    assert_eq!(r.response, 0);
    assert_eq!(r.uris, Some(vec![]));
    let e = response_from_chooser(&ChooserResult::Selected("q".to_string()), &vec![Err("bad".to_string())]).unwrap_err();
    assert_eq!(stop_failed(&e), "failed to canonicalize q: bad");
    assert!(matches!(
        response_from_chooser(&ChooserResult::Selected("q".to_string()), &vec![]),
        Err(EncodeStop::NeedsCanonical { index: 0, .. })
    ));
}

#[test]
fn error_text() {
    assert_eq!(PortalError::Failed("boom".to_string()).to_text(), "org.freedesktop.DBus.Error.Failed: boom");
    assert_eq!(PortalError::InvalidArgs("bad".to_string()).to_text(), "org.freedesktop.DBus.Error.InvalidArgs: bad");
}

#[test]
fn backend_rejects_bad_options_as_invalid_args() {
    let backend = FileChooserBackend::new();
    let o = options(&[("directory", OptionValue::NotBool("Incorrect type".to_string()))]);
    match backend.read_request("t".to_string(), &o) {
        Err(PortalError::InvalidArgs(m)) => assert_eq!(
            m,
            "invalid file chooser request: org.freedesktop.DBus.Error.Failed: option `directory` is not a bool: Incorrect type"
        ),
        _ => panic!("expected InvalidArgs"),
    }
    let r = backend.read_request("t".to_string(), &options(&[("multiple", OptionValue::Bool(true))])).unwrap();
    assert!(r.multiple);
}

#[test]
fn backend_command_args() {
    let backend = FileChooserBackend::new();
    let r = nirix::chooser::ChooserRequest { title: "Open".to_string(), multiple: true, directory: false };
    assert_eq!(backend.command_args(&r), vec!["--title", "Open", "--multiple"]);
    let r = nirix::chooser::ChooserRequest { title: "".to_string(), multiple: false, directory: true };
    assert_eq!(backend.command_args(&r), vec!["--title", "", "--directory"]);
}

#[test]
fn backend_reads_output() {
    let backend = FileChooserBackend::new();
    let out = "  /home/u/a.txt  \n\n/home/u/b c.txt\r\n";
    match backend.output_result(true, out, true) {
        ChooserResult::SelectedMany(p) => assert_eq!(p, vec!["/home/u/a.txt", "/home/u/b c.txt"]),
        _ => panic!("expected SelectedMany"),
    }
    match backend.output_result(true, out, false) {
        ChooserResult::Selected(p) => assert_eq!(p, "/home/u/a.txt"),
        _ => panic!("expected Selected"),
    }
    assert!(matches!(backend.output_result(false, out, false), ChooserResult::Cancelled));
    assert!(matches!(backend.output_result(true, " \n\t\n", true), ChooserResult::Cancelled));
    assert!(matches!(backend.output_result(true, "", false), ChooserResult::Cancelled));
}

#[test]
fn backend_error_messages() {
    let backend = FileChooserBackend::new();
    assert_eq!(failed(&backend.spawn_failed("not found")), "failed to spawn navi-chooser: not found");
    let inproc = InProcessBackend::new();
    assert_eq!(failed(&inproc.chooser_failed("closed")), "file chooser failed: closed");
    let r = inproc.read_request("T".to_string(), &ChooserOptions::new()).unwrap();
    assert_eq!(r.title, "T");
}

#[test]
fn backend_finds_chooser_beside_itself() {
    let backend = FileChooserBackend::new();
    assert_eq!(backend.chooser_binary(Some("/usr/libexec/nirix-portal".to_string())), "/usr/libexec/navi-chooser");
    assert_eq!(backend.chooser_binary(None), "navi-chooser");
}

#[test]
fn backend_reads_trimmed_lines() {
    let backend = FileChooserBackend::new();
    let lines = vec!["/a".to_string(), "".to_string(), "/b".to_string()];
    match backend.result_from_lines(lines.clone(), true) {
        ChooserResult::SelectedMany(p) => assert_eq!(p, vec!["/a", "/b"]),
        _ => panic!("expected SelectedMany"),
    }
    match backend.result_from_lines(lines, false) {
        ChooserResult::Selected(p) => assert_eq!(p, "/a"),
        _ => panic!("expected Selected"),
    }
    assert!(matches!(backend.result_from_lines(vec!["".to_string()], true), ChooserResult::Cancelled));
}

#[test]
fn printed_paths_are_read_back() {
    let backend = FileChooserBackend::new();
    let out = "/home/u/a b.txt\n/srv/\u{3000}x\n";
    match backend.output_result(true, out, true) {
        ChooserResult::SelectedMany(p) => assert_eq!(p, vec!["/home/u/a b.txt", "/srv/\u{3000}x"]),
        _ => panic!("expected SelectedMany"),
    }
    match backend.output_result(true, "\u{a0}/p\u{2003}\n", false) {
        ChooserResult::Selected(p) => assert_eq!(p, "/p"),
        _ => panic!("expected Selected"),
    }
}
