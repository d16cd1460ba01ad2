//! The decisions of the backend that runs `navi-chooser` as a child process:
//! the request it accepts, the command line it gives the child, and how it
//! reads the child's output.
use vstd::prelude::*;
use vstd::string::*;
use crate::chooser::{ChooserRequest, ChooserResult, RequestModel};
use crate::navi_chooser::{title_flag, multiple_flag, directory_flag, parse_args_from, parse_args_spec, default_request_model};
use crate::portal_core::{parse_request_spec, result_model, strings_model, ChooserOptions, PortalError, PortalErrorModel};
use crate::portal_backend::file_chooser::request::parse_chooser_request;
use crate::text::{join2, is_white_space, lines_spec, lemma_lines_of_printed, lemma_trim_of_clean, printed_lines, trim_spec, trim_text};
use crate::paths::{path_with_file_name, with_file_name};

verus! {

/// The D-Bus object that answers `OpenFile` calls.
pub struct FileChooserBackend;

/// `str::lines`, each line as a new string: the text split at `\n` or
/// `\r\n`, without the line endings.
#[verifier::external_body]
fn lines_of(s: &str) -> (res: Vec<String>)
    ensures
        strings_model(res@) == lines_spec(s@),
{
    s.lines().map(|l| l.to_string()).collect()
}

/// The lines among `lines` that are not empty, in order.
pub open spec fn nonempty_lines(lines: Seq<Seq<char>>) -> Seq<Seq<char>>
    decreases lines.len(),
{
    if lines.len() == 0 {
        Seq::empty()
    } else {
        let rest = nonempty_lines(lines.drop_last());
        if lines.last().len() > 0 {
            rest.push(lines.last())
        } else {
            rest
        }
    }
}

/// The chooser's outcome from the trimmed lines it printed: nothing chosen
/// when there is no non-empty line; else every such line (when several are
/// allowed) or the first.
pub open spec fn is_lines_result(r: ChooserResult, lines: Seq<Seq<char>>, multiple: bool) -> bool {
    let kept = nonempty_lines(lines);
    if kept.len() == 0 {
        r is Cancelled
    } else if multiple {
        r is SelectedMany && r.paths() == kept
    } else {
        r is Selected && r.paths() == seq![kept[0]]
    }
}

/// What the chooser's output means: nothing chosen when it failed; else the
/// outcome read from its output's lines, each trimmed.
pub open spec fn is_output_result(r: ChooserResult, success: bool, stdout: Seq<char>, multiple: bool) -> bool {
    if !success {
        r is Cancelled
    } else {
        is_lines_result(r, lines_spec(stdout).map_values(|l: Seq<char>| trim_spec(l)), multiple)
    }
}

/// The command line arguments of a request's `navi-chooser` run.
pub open spec fn command_args_spec(r: RequestModel) -> Seq<Seq<char>> {
    let base = seq![title_flag(), r.title];
    let with_multiple = if r.multiple { base.push(multiple_flag()) } else { base };
    if r.directory { with_multiple.push(directory_flag()) } else { with_multiple }
}

impl FileChooserBackend {
    pub fn new() -> Self {
        FileChooserBackend
    }

    /// Reads the request of an `OpenFile` call; a bad option makes the call's
    /// arguments invalid.
    pub fn read_request(&self, title: String, options: &ChooserOptions) -> (res: Result<ChooserRequest, PortalError>)
        ensures
            result_model(res, |r: ChooserRequest| r.model()) == match parse_request_spec(title@, *options) {
                Ok(r) => Ok(r),
                Err(e) => Err(PortalErrorModel::InvalidArgs("invalid file chooser request: "@ + e.text())),
            },
    {
        match parse_chooser_request(title, options) {
            Ok(r) => Ok(r),
            Err(e) => {
                let text = e.to_text();
                Err(PortalError::InvalidArgs(join2("invalid file chooser request: ", text.as_str())))
            },
        }
    }

    /// The arguments `navi-chooser` is run with for a request.
    pub fn command_args(&self, request: &ChooserRequest) -> (args: Vec<String>)
        ensures
            strings_model(args@) == command_args_spec(request.model()),
    {
        let mut args: Vec<String> = Vec::new();
        args.push(String::from_str("--title"));
        args.push(request.title.clone());
        if request.multiple {
            args.push(String::from_str("--multiple"));
        }
        if request.directory {
            args.push(String::from_str("--directory"));
        }
        assert(strings_model(args@) =~= command_args_spec(request.model()));
        args
    }

    /// The program to run: `navi-chooser` beside the running program
    /// (`current_exe`, when it is known), else `navi-chooser` found by name.
    pub fn chooser_binary(&self, current_exe: Option<String>) -> (program: String)
        ensures
            program@ == path_with_file_name(
                match current_exe {
                    Some(exe) => exe@,
                    None => "navi-chooser"@,
                },
                "navi-chooser"@,
            ),
    {
        let base = match current_exe {
            Some(exe) => exe,
            None => String::from_str("navi-chooser"),
        };
        with_file_name(base.as_str(), "navi-chooser")
    }

    /// The error for a `navi-chooser` that could not be started.
    pub fn spawn_failed(&self, err: &str) -> (e: PortalError)
        ensures
            e.model() == PortalErrorModel::Failed("failed to spawn navi-chooser: "@ + err@),
    {
        PortalError::Failed(join2("failed to spawn navi-chooser: ", err))
    }

    /// What `navi-chooser` chose, from the trimmed lines it printed: all the
    /// non-empty lines when several paths are allowed, else the first; nothing
    /// when there is no such line.
    pub fn result_from_lines(&self, lines: Vec<String>, multiple: bool) -> (r: ChooserResult)
        ensures
            is_lines_result(r, strings_model(lines@), multiple),
    {
        let ghost all = strings_model(lines@);
        let mut kept: Vec<String> = Vec::new();
        let mut i: usize = 0;
        assert(strings_model(kept@) =~= Seq::<Seq<char>>::empty());
        assert(all.take(0) =~= Seq::<Seq<char>>::empty());
        while i < lines.len()
            invariant
                all == strings_model(lines@),
                i <= lines.len(),
                strings_model(kept@) == nonempty_lines(all.take(i as int)),
            decreases lines.len() - i,
        {
            assert(all.take(i + 1).drop_last() =~= all.take(i as int));
            let ghost before = kept@;
            if lines[i].unicode_len() > 0 {
                kept.push(lines[i].clone());
                assert(strings_model(kept@) =~= strings_model(before).push(lines@[i as int]@));
            }
            i = i + 1;
        }
        assert(all.take(lines.len() as int) =~= all);
        if kept.len() == 0 {
            ChooserResult::Cancelled
        } else if multiple {
            ChooserResult::SelectedMany(kept)
        } else {
            let first = kept[0].clone();
            ChooserResult::Selected(first)
        }
    }

    /// What `navi-chooser` chose, read from whether it succeeded and what it
    /// printed: one path per line, surrounding white space and empty lines
    /// ignored.
    pub fn output_result(&self, success: bool, stdout: &str, multiple: bool) -> (r: ChooserResult)
        ensures
            is_output_result(r, success, stdout@, multiple),
    {
        if !success {
            return ChooserResult::Cancelled;
        }
        let lines = lines_of(stdout);
        let ghost all = strings_model(lines@);
        let mut clean: Vec<String> = Vec::new();
        let mut i: usize = 0;
        while i < lines.len()
            invariant
                all == strings_model(lines@),
                all == lines_spec(stdout@),
                i <= lines.len(),
                strings_model(clean@) =~= all.take(i as int).map_values(|l: Seq<char>| trim_spec(l)),
            decreases lines.len() - i,
        {
            let t = trim_text(lines[i].as_str());
            let ghost before = clean@;
            clean.push(t);
            assert(strings_model(clean@) =~= strings_model(before).push(t@));
            assert(all.take(i + 1).map_values(|l: Seq<char>| trim_spec(l))
                =~= all.take(i as int).map_values(|l: Seq<char>| trim_spec(l)).push(trim_spec(all[i as int])));
            i = i + 1;
        }
        assert(all.take(lines.len() as int) =~= all);
        self.result_from_lines(clean, multiple)
    }
}

/// `navi-chooser` reads back exactly the request that the backend encoded in
/// its command line, whatever the program's name and the title.
pub proof fn lemma_command_line_round_trip(program: Seq<char>, r: RequestModel)
    ensures
        parse_args_spec(seq![program] + command_args_spec(r)) == r,
{
    reveal_strlit("--title");
    reveal_strlit("--multiple");
    reveal_strlit("--directory");
    assert(title_flag()[2] != multiple_flag()[2]);
    assert(title_flag()[2] != directory_flag()[2]);
    assert(multiple_flag() != directory_flag());
    let args = seq![program] + command_args_spec(r);
    let d = default_request_model();
    let after_title = RequestModel { title: r.title, ..d };
    assert(args[1] == title_flag());
    assert(args[2] == r.title);
    assert(parse_args_from(args, 1, d) == parse_args_from(args, 3, after_title));
    if r.multiple {
        let after_multiple = RequestModel { multiple: true, ..after_title };
        assert(args[3] == multiple_flag());
        assert(parse_args_from(args, 3, after_title) == parse_args_from(args, 4, after_multiple));
        if r.directory {
            assert(args[4] == directory_flag());
            assert(parse_args_from(args, 4, after_multiple) == parse_args_from(args, 5, RequestModel { directory: true, ..after_multiple }));
            assert(args.len() == 5);
        } else {
            assert(args.len() == 4);
        }
    } else {
        if r.directory {
            assert(args[3] == directory_flag());
            assert(parse_args_from(args, 3, after_title) == parse_args_from(args, 4, RequestModel { directory: true, ..after_title }));
            assert(args.len() == 4);
        } else {
            assert(args.len() == 3);
        }
    }
}

/// Lines that are not empty are all kept, in order.
pub proof fn lemma_nonempty_lines_of_nonempty(lines: Seq<Seq<char>>)
    requires
        forall|i: int| 0 <= i < lines.len() ==> (#[trigger] lines[i]).len() > 0,
    ensures
        nonempty_lines(lines) == lines,
    decreases lines.len(),
{
    if lines.len() > 0 {
        let init = lines.drop_last();
        assert forall|i: int| 0 <= i < init.len() implies (#[trigger] init[i]).len() > 0 by {
            assert(init[i] == lines[i]);
        }
        lemma_nonempty_lines_of_nonempty(init);
        assert(lines[lines.len() - 1].len() > 0);
        assert(init.push(lines.last()) =~= lines);
    }
}

/// The paths that `navi-chooser` prints, one per line, are what the backend
/// reads back from a successful run: all of them when several are allowed,
/// else the first. This holds of paths that are not empty, hold no line
/// ending, and neither start nor end with white space.
pub proof fn lemma_printed_paths_read_back(r: ChooserResult, printed: Seq<Seq<char>>, multiple: bool)
    requires
        printed.len() > 0,
        forall|i: int| 0 <= i < printed.len() ==> (#[trigger] printed[i]).len() > 0,
        forall|i: int| 0 <= i < printed.len() ==> !(#[trigger] printed[i]).contains('\n'),
        forall|i: int| 0 <= i < printed.len() ==> !is_white_space((#[trigger] printed[i])[0]),
        forall|i: int| 0 <= i < printed.len() ==> !is_white_space((#[trigger] printed[i]).last()),
        is_output_result(r, true, printed_lines(printed), multiple),
    ensures
        multiple ==> r is SelectedMany && r.paths() == printed,
        !multiple ==> r is Selected && r.paths() == seq![printed[0]],
{
    assert forall|i: int| 0 <= i < printed.len() implies (#[trigger] printed[i]).len() == 0 || printed[i].last() != '\r' by {
        assert(is_white_space('\r'));
    }
    lemma_lines_of_printed(printed);
    let trimmed_all = printed.map_values(|l: Seq<char>| trim_spec(l));
    assert forall|i: int| 0 <= i < printed.len() implies trim_spec(#[trigger] printed[i]) == printed[i] by {
        lemma_trim_of_clean(printed[i]);
    }
    assert(trimmed_all =~= printed);
    lemma_nonempty_lines_of_nonempty(printed);
}

/// The non-empty lines are the lines that are not empty, in order: exactly
/// what filtering out the empty ones leaves.
pub proof fn lemma_nonempty_lines_filter(lines: Seq<Seq<char>>)
    ensures
        nonempty_lines(lines) == lines.filter(|l: Seq<char>| l.len() > 0),
    decreases lines.len(),
{
    reveal_with_fuel(Seq::<Seq<char>>::filter, 1);
    if lines.len() > 0 {
        lemma_nonempty_lines_filter(lines.drop_last());
    }
}

/// A run that failed chooses nothing, whatever it printed; a run that
/// printed only white space chooses nothing either.
pub proof fn lemma_failed_or_blank_run_chooses_nothing(r: ChooserResult, success: bool, stdout: Seq<char>, multiple: bool)
    requires
        is_output_result(r, success, stdout, multiple),
        !success || forall|i: int| 0 <= i < lines_spec(stdout).len() ==> trim_spec(#[trigger] lines_spec(stdout)[i]).len() == 0,
    ensures
        r is Cancelled,
{
    if success {
        let trimmed = lines_spec(stdout).map_values(|l: Seq<char>| trim_spec(l));
        lemma_nonempty_lines_filter(trimmed);
        assert forall|i: int| 0 <= i < trimmed.len() implies !((|l: Seq<char>| l.len() > 0)(#[trigger] trimmed[i])) by {
            assert(trimmed[i] == trim_spec(lines_spec(stdout)[i]));
        }
        trimmed.lemma_all_neg_filter_empty(|l: Seq<char>| l.len() > 0);
    }
}

} // verus!
