//! The `navi-chooser` program's own logic: reading its command line into a
//! request, and turning the chooser's outcome into printed lines and an exit
//! code.
use vstd::prelude::*;
use vstd::string::*;
use crate::chooser::{ChooserRequest, ChooserResult, RequestModel};
use crate::text::text_eq;

verus! {

pub open spec fn title_flag() -> Seq<char> {
    "--title"@
}

pub open spec fn multiple_flag() -> Seq<char> {
    "--multiple"@
}

pub open spec fn directory_flag() -> Seq<char> {
    "--directory"@
}

/// The request read from `args[i..]`, starting from `r`: `--title` takes the
/// next argument as the title (when there is one), `--multiple` and
/// `--directory` switch their flags on, and anything else is skipped.
pub open spec fn parse_args_from(args: Seq<Seq<char>>, i: int, r: RequestModel) -> RequestModel
    decreases args.len() - i,
{
    if i < 0 || i >= args.len() {
        r
    } else if args[i] == title_flag() {
        if i + 1 < args.len() {
            parse_args_from(args, i + 2, RequestModel { title: args[i + 1], ..r })
        } else {
            parse_args_from(args, i + 1, r)
        }
    } else if args[i] == multiple_flag() {
        parse_args_from(args, i + 1, RequestModel { multiple: true, ..r })
    } else if args[i] == directory_flag() {
        parse_args_from(args, i + 1, RequestModel { directory: true, ..r })
    } else {
        parse_args_from(args, i + 1, r)
    }
}

pub open spec fn default_request_model() -> RequestModel {
    RequestModel { title: Seq::empty(), multiple: false, directory: false }
}

/// The request that a whole command line asks for; `args[0]` is the program.
pub open spec fn parse_args_spec(args: Seq<Seq<char>>) -> RequestModel {
    parse_args_from(args, 1, default_request_model())
}

/// Reads the command line (`args[0]` being the program's name) into a request.
pub fn parse_args(args: &Vec<String>) -> (request: ChooserRequest)
    ensures
        request.model() == parse_args_spec(args@.map_values(|a: String| a@)),
{
    let ghost view = args@.map_values(|a: String| a@);
    let mut request = ChooserRequest::default();
    let mut i: usize = 1;
    while i < args.len()
        invariant
            view == args@.map_values(|a: String| a@),
            1 <= i,
            parse_args_from(view, i as int, request.model()) == parse_args_spec(view),
        decreases args.len() - i,
    {
        let arg = args[i].as_str();
        if text_eq(arg, "--title") {
            if i + 1 < args.len() {
                request.title = args[i + 1].clone();
                i += 1;
            }
        } else if text_eq(arg, "--multiple") {
            request.multiple = true;
        } else if text_eq(arg, "--directory") {
            request.directory = true;
        }
        i += 1;
    }
    request
}

/// The lines `navi-chooser` prints and the code it exits with, for the
/// chooser's outcome (`None` when the chooser failed): each chosen path on a
/// line and 0, or nothing and 1.
pub fn report(outcome: Option<ChooserResult>) -> (res: (Vec<String>, i32))
    ensures
        match outcome {
            Some(r) => match r {
                ChooserResult::Cancelled => res.0@.len() == 0 && res.1 == 1,
                _ => res.0@.map_values(|p: String| p@) == r.paths() && res.1 == 0,
            },
            None => res.0@.len() == 0 && res.1 == 1,
        },
{
    match outcome {
        Some(ChooserResult::Selected(path)) => {
            let mut lines: Vec<String> = Vec::new();
            lines.push(path);
            proof {
                assert(lines@.map_values(|p: String| p@) =~= seq![lines@[0]@]);
            }
            (lines, 0)
        },
        Some(ChooserResult::SelectedMany(paths)) => (paths, 0),
        _ => (Vec::new(), 1),
    }
}

/// Flags once read are never lost: reading on from a request that has a
/// flag set gives a request with that flag set.
pub proof fn lemma_flags_stay_set(args: Seq<Seq<char>>, i: int, r: RequestModel)
    ensures
        r.multiple ==> parse_args_from(args, i, r).multiple,
        r.directory ==> parse_args_from(args, i, r).directory,
    decreases args.len() - i,
{
    if 0 <= i < args.len() {
        if args[i] == title_flag() {
            if i + 1 < args.len() {
                lemma_flags_stay_set(args, i + 2, RequestModel { title: args[i + 1], ..r });
            } else {
                lemma_flags_stay_set(args, i + 1, r);
            }
        } else if args[i] == multiple_flag() {
            lemma_flags_stay_set(args, i + 1, RequestModel { multiple: true, ..r });
        } else if args[i] == directory_flag() {
            lemma_flags_stay_set(args, i + 1, RequestModel { directory: true, ..r });
        } else {
            lemma_flags_stay_set(args, i + 1, r);
        }
    }
}

/// Reading from `i` on reaches every position `j >= i` that does not follow
/// a `--title` (which would take it as the title): a flag there is set in
/// the result.
proof fn lemma_flag_at_is_read(args: Seq<Seq<char>>, i: int, j: int, r: RequestModel)
    requires
        0 <= i <= j < args.len(),
        j == i || args[j - 1] != title_flag(),
    ensures
        args[j] == multiple_flag() ==> parse_args_from(args, i, r).multiple,
        args[j] == directory_flag() ==> parse_args_from(args, i, r).directory,
    decreases j - i,
{
    reveal_strlit("--title");
    reveal_strlit("--multiple");
    reveal_strlit("--directory");
    assert(title_flag()[2] != multiple_flag()[2]);
    assert(title_flag()[2] != directory_flag()[2]);
    assert(multiple_flag().len() != directory_flag().len());
    lemma_flags_stay_set(args, i + 1, RequestModel { multiple: true, ..r });
    lemma_flags_stay_set(args, i + 1, RequestModel { directory: true, ..r });
    if i < j {
        if args[i] == title_flag() {
            if i + 1 < args.len() {
                assert(i + 2 <= j);
                lemma_flag_at_is_read(args, i + 2, j, RequestModel { title: args[i + 1], ..r });
            } else {
                lemma_flag_at_is_read(args, i + 1, j, r);
            }
        } else if args[i] == multiple_flag() {
            lemma_flag_at_is_read(args, i + 1, j, RequestModel { multiple: true, ..r });
        } else if args[i] == directory_flag() {
            lemma_flag_at_is_read(args, i + 1, j, RequestModel { directory: true, ..r });
        } else {
            lemma_flag_at_is_read(args, i + 1, j, r);
        }
    }
}

/// A `--multiple` or `--directory` anywhere after the program's name sets
/// its flag, wherever it stands, unless it is the argument of a `--title`
/// just before it.
pub proof fn lemma_flag_anywhere_is_read(args: Seq<Seq<char>>, j: int)
    requires
        1 <= j < args.len(),
        j == 1 || args[j - 1] != title_flag(),
    ensures
        args[j] == multiple_flag() ==> parse_args_spec(args).multiple,
        args[j] == directory_flag() ==> parse_args_spec(args).directory,
{
    lemma_flag_at_is_read(args, 1, j, default_request_model());
}

/// Without `--multiple` or `--directory` among the arguments, both flags are
/// off; without `--title`, the title is empty.
pub proof fn lemma_absent_flags_are_off(args: Seq<Seq<char>>, i: int)
    requires
        0 <= i,
        forall|k: int| i <= k < args.len() ==> args[k] != multiple_flag() && args[k] != directory_flag() && args[k] != title_flag(),
    ensures
        parse_args_from(args, i, default_request_model()) == default_request_model(),
    decreases args.len() - i,
{
    if i < args.len() {
        lemma_absent_flags_are_off(args, i + 1);
    }
}

/// A title read from the command line is the argument of some `--title`.
pub proof fn lemma_title_comes_from_title_flag(args: Seq<Seq<char>>, i: int, r: RequestModel)
    requires
        0 <= i,
    ensures
        parse_args_from(args, i, r).title == r.title
            || exists|k: int| i < k < args.len() && args[k - 1] == title_flag() && parse_args_from(args, i, r).title == #[trigger] args[k],
    decreases args.len() - i,
{
    if i < args.len() {
        if args[i] == title_flag() {
            if i + 1 < args.len() {
                let r2 = RequestModel { title: args[i + 1], ..r };
                lemma_title_comes_from_title_flag(args, i + 2, r2);
                if parse_args_from(args, i + 2, r2).title == r2.title {
                    let k = i + 1;
                    assert(args[k - 1] == title_flag());
                    assert(parse_args_from(args, i, r).title == args[k]);
                }
            } else {
                lemma_title_comes_from_title_flag(args, i + 1, r);
            }
        } else if args[i] == multiple_flag() {
            lemma_title_comes_from_title_flag(args, i + 1, RequestModel { multiple: true, ..r });
        } else if args[i] == directory_flag() {
            lemma_title_comes_from_title_flag(args, i + 1, RequestModel { directory: true, ..r });
        } else {
            lemma_title_comes_from_title_flag(args, i + 1, r);
        }
    }
}

} // verus!
