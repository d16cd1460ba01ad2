//! The file chooser portal's request and response logic: reading the
//! request's options, and turning the chooser's result into the portal's
//! response code and `file://` URIs.
use vstd::prelude::*;
use vstd::string::*;
use crate::chooser::{ChooserRequest, ChooserResult, RequestModel};
use crate::paths::{is_absolute, spec_is_absolute};
use crate::text::{join2, join3, starts_with_char};

verus! {

/// One option of a portal request, as far as the chooser reads it: a boolean,
/// or a value of another type together with the text of the error that
/// converting it to a boolean gave.
#[derive(Debug, Clone)]
pub enum OptionValue {
    Bool(bool),
    NotBool(String),
}

/// The options of a portal request, keyed by name.
#[derive(Debug, Clone)]
pub struct ChooserOptions {
    entries: Vec<(String, OptionValue)>,
}

/// The value stored under `key` in `entries` (the first entry with that key).
pub open spec fn lookup(entries: Seq<(String, OptionValue)>, key: Seq<char>) -> Option<OptionValue>
    decreases entries.len(),
{
    if entries.len() == 0 {
        None
    } else if entries[0].0@ == key {
        Some(entries[0].1)
    } else {
        lookup(entries.drop_first(), key)
    }
}

proof fn lemma_lookup_update(entries: Seq<(String, OptionValue)>, i: int, key: String, value: OptionValue, k: Seq<char>)
    requires
        0 <= i < entries.len(),
        entries[i].0@ == key@,
        forall|j: int| 0 <= j < i ==> entries[j].0@ != key@,
    ensures
        lookup(entries.update(i, (key, value)), k) == (if k == key@ { Some(value) } else { lookup(entries, k) }),
    decreases entries.len(),
{
    let updated = entries.update(i, (key, value));
    if i > 0 {
        lemma_lookup_update(entries.drop_first(), i - 1, key, value, k);
        assert(updated.drop_first() =~= entries.drop_first().update(i - 1, (key, value)));
        assert(updated[0] == entries[0]);
    } else {
        assert(updated.drop_first() =~= entries.drop_first());
    }
}

proof fn lemma_lookup_push(entries: Seq<(String, OptionValue)>, key: String, value: OptionValue, k: Seq<char>)
    requires
        forall|j: int| 0 <= j < entries.len() ==> entries[j].0@ != key@,
    ensures
        lookup(entries.push((key, value)), k) == (if k == key@ { Some(value) } else { lookup(entries, k) }),
    decreases entries.len(),
{
    let pushed = entries.push((key, value));
    if entries.len() > 0 {
        lemma_lookup_push(entries.drop_first(), key, value, k);
        assert(pushed.drop_first() =~= entries.drop_first().push((key, value)));
        assert(pushed[0] == entries[0]);
    } else {
        assert(pushed.drop_first() =~= Seq::<(String, OptionValue)>::empty());
        assert(lookup(pushed.drop_first(), k) == None::<OptionValue>);
    }
}

impl ChooserOptions {
    /// The value stored under `key`, if any.
    pub closed spec fn get_spec(&self, key: Seq<char>) -> Option<OptionValue> {
        lookup(self.entries@, key)
    }

    /// No options.
    pub fn new() -> (o: Self)
        ensures
            forall|k: Seq<char>| o.get_spec(k).is_none(),
    {
        ChooserOptions { entries: Vec::new() }
    }

    /// Stores `value` under `key`, replacing what was stored there.
    pub fn insert(&mut self, key: String, value: OptionValue)
        ensures
            forall|k: Seq<char>|
                #[trigger] final(self).get_spec(k) == (if k == key@ { Some(value) } else { old(self).get_spec(k) }),
    {
        let n = self.entries.len();
        let mut i: usize = 0;
        while i < n
            invariant
                n == self.entries.len(),
                self.entries@ == old(self).entries@,
                i <= n,
                forall|j: int| 0 <= j < i ==> self.entries@[j].0@ != key@,
            decreases n - i,
        {
            if crate::text::text_eq(self.entries[i].0.as_str(), key.as_str()) {
                let ghost before = self.entries@;
                proof {
                    assert forall|k: Seq<char>| #[trigger] lookup(before.update(i as int, (key, value)), k)
                        == (if k == key@ { Some(value) } else { lookup(before, k) }) by {
                        lemma_lookup_update(before, i as int, key, value, k);
                    }
                }
                self.entries.set(i, (key, value));
                assert(self.entries@ == before.update(i as int, (key, value)));
                return;
            }
            i = i + 1;
        }
        let ghost before = self.entries@;
        proof {
            assert forall|k: Seq<char>| #[trigger] lookup(before.push((key, value)), k)
                == (if k == key@ { Some(value) } else { lookup(before, k) }) by {
                lemma_lookup_push(before, key, value, k);
            }
        }
        self.entries.push((key, value));
    }

    /// The value stored under `key`, if any.
    pub fn get(&self, key: &str) -> (res: Option<&OptionValue>)
        ensures
            match res {
                Some(v) => self.get_spec(key@) == Some(*v),
                None => self.get_spec(key@).is_none(),
            },
    {
        let n = self.entries.len();
        let mut i: usize = 0;
        assert(self.entries@.skip(0) =~= self.entries@);
        while i < n
            invariant
                n == self.entries.len(),
                i <= n,
                lookup(self.entries@, key@) == lookup(self.entries@.skip(i as int), key@),
            decreases n - i,
        {
            assert(self.entries@.skip(i as int).drop_first() =~= self.entries@.skip(i + 1));
            if crate::text::text_eq(self.entries[i].0.as_str(), key) {
                return Some(&self.entries[i].1);
            }
            i = i + 1;
        }
        None
    }
}

/// A portal error: the D-Bus error name and its message.
#[derive(Debug, Clone)]
pub enum PortalError {
    /// `org.freedesktop.DBus.Error.Failed`
    Failed(String),
    /// `org.freedesktop.DBus.Error.InvalidArgs`
    InvalidArgs(String),
}

/// The plain value of a portal error.
pub enum PortalErrorModel {
    Failed(Seq<char>),
    InvalidArgs(Seq<char>),
}

pub open spec fn failed_name() -> Seq<char> {
    "org.freedesktop.DBus.Error.Failed"@
}

pub open spec fn invalid_args_name() -> Seq<char> {
    "org.freedesktop.DBus.Error.InvalidArgs"@
}

impl PortalErrorModel {
    /// How the error reads: its name, a colon, and its message.
    pub open spec fn text(self) -> Seq<char> {
        match self {
            PortalErrorModel::Failed(m) => failed_name() + ": "@ + m,
            PortalErrorModel::InvalidArgs(m) => invalid_args_name() + ": "@ + m,
        }
    }
}

impl PortalError {
    pub open spec fn model(&self) -> PortalErrorModel {
        match self {
            PortalError::Failed(m) => PortalErrorModel::Failed(m@),
            PortalError::InvalidArgs(m) => PortalErrorModel::InvalidArgs(m@),
        }
    }

    /// How the error reads: `<error name>: <message>`.
    pub fn to_text(&self) -> (s: String)
        ensures
            s@ == self.model().text(),
    {
        match self {
            PortalError::Failed(m) => join3("org.freedesktop.DBus.Error.Failed", ": ", m.as_str()),
            PortalError::InvalidArgs(m) => join3("org.freedesktop.DBus.Error.InvalidArgs", ": ", m.as_str()),
        }
    }
}

/// The plain value of a `Result` that may hold a portal error.
pub open spec fn result_model<T, U>(r: Result<T, PortalError>, f: spec_fn(T) -> U) -> Result<U, PortalErrorModel> {
    match r {
        Ok(t) => Ok(f(t)),
        Err(e) => Err(e.model()),
    }
}

/// What `get_bool_option` gives for a key and the value stored under it.
pub open spec fn bool_option_spec(value: Option<OptionValue>, key: Seq<char>) -> Result<Option<bool>, PortalErrorModel> {
    match value {
        None => Ok(None),
        Some(OptionValue::Bool(b)) => Ok(Some(b)),
        Some(OptionValue::NotBool(err)) => Err(PortalErrorModel::Failed("option `"@ + key + "` is not a bool: "@ + err@)),
    }
}

/// Reads a boolean option: absent gives `Ok(None)`, a boolean gives it, and a
/// value of another type is an error that names the key.
pub fn get_bool_option(options: &ChooserOptions, key: &str) -> (res: Result<Option<bool>, PortalError>)
    ensures
        result_model(res, |b: Option<bool>| b) == bool_option_spec(options.get_spec(key@), key@),
{
    match options.get(key) {
        None => Ok(None),
        Some(OptionValue::Bool(b)) => Ok(Some(*b)),
        Some(OptionValue::NotBool(err)) => {
            let head = join3("option `", key, "` is not a bool: ");
            Err(PortalError::Failed(join2(head.as_str(), err.as_str())))
        },
    }
}

/// What `parse_chooser_request` gives: `multiple` is read first, then
/// `directory`; an absent option is `false`; the first error is returned.
pub open spec fn parse_request_spec(title: Seq<char>, options: ChooserOptions) -> Result<RequestModel, PortalErrorModel> {
    match bool_option_spec(options.get_spec("multiple"@), "multiple"@) {
        Err(e) => Err(e),
        Ok(m) => match bool_option_spec(options.get_spec("directory"@), "directory"@) {
            Err(e) => Err(e),
            Ok(d) => Ok(RequestModel {
                title,
                multiple: m.unwrap_or(false),
                directory: d.unwrap_or(false),
            }),
        },
    }
}

/// Builds the chooser request from the portal call's title and options.
pub fn parse_chooser_request(title: String, options: &ChooserOptions) -> (res: Result<ChooserRequest, PortalError>)
    ensures
        result_model(res, |r: ChooserRequest| r.model()) == parse_request_spec(title@, *options),
{
    let multiple = match get_bool_option(options, "multiple") {
        Ok(m) => m,
        Err(e) => return Err(e),
    };
    let directory = match get_bool_option(options, "directory") {
        Ok(d) => d,
        Err(e) => return Err(e),
    };
    Ok(ChooserRequest {
        title,
        multiple: multiple.unwrap_or(false),
        directory: directory.unwrap_or(false),
    })
}

/// The absolute form of a path: the path itself when it is absolute, else
/// what canonicalizing it gave (`canonical`: the canonical path, or the text
/// of the error).
pub open spec fn absolute_spec(path: Seq<char>, canonical: Result<Seq<char>, Seq<char>>) -> Result<Seq<char>, PortalErrorModel> {
    if spec_is_absolute(path) {
        Ok(path)
    } else {
        match canonical {
            Ok(abs) => Ok(abs),
            Err(e) => Err(PortalErrorModel::Failed("failed to canonicalize "@ + path + ": "@ + e)),
        }
    }
}

/// The `file://` URI of a path, or why there is none.
pub open spec fn file_uri_spec(path: Seq<char>, canonical: Result<Seq<char>, Seq<char>>) -> Result<Seq<char>, PortalErrorModel> {
    match absolute_spec(path, canonical) {
        Err(e) => Err(e),
        Ok(abs) => if abs.len() > 0 && abs[0] == '/' {
            Ok("file://"@ + abs)
        } else {
            Err(PortalErrorModel::Failed("path is not a unix absolute path: "@ + abs))
        },
    }
}

pub open spec fn canonical_model(c: Result<String, String>) -> Result<Seq<char>, Seq<char>> {
    match c {
        Ok(s) => Ok(s@),
        Err(e) => Err(e@),
    }
}

/// The `file://` URI of `path`. A relative path is made absolute by
/// canonicalizing it, which is done by the caller: `canonical` holds what
/// that gave, and is not read for an absolute path.
pub fn path_to_file_uri(path: &str, canonical: &Result<String, String>) -> (res: Result<String, PortalError>)
    ensures
        result_model(res, |s: String| s@) == file_uri_spec(path@, canonical_model(*canonical)),
{
    let absolute: String = if is_absolute(path) {
        String::from_str(path)
    } else {
        match canonical {
            Ok(abs) => abs.clone(),
            Err(e) => {
                let head = join3("failed to canonicalize ", path, ": ");
                return Err(PortalError::Failed(join2(head.as_str(), e.as_str())));
            },
        }
    };
    if !starts_with_char(absolute.as_str(), '/') {
        return Err(PortalError::Failed(join2("path is not a unix absolute path: ", absolute.as_str())));
    }
    Ok(join2("file://", absolute.as_str()))
}

pub open spec fn canonicals_model(c: Seq<Result<String, String>>) -> Seq<Result<Seq<char>, Seq<char>>> {
    c.map_values(|r: Result<String, String>| canonical_model(r))
}

pub open spec fn strings_model(v: Seq<String>) -> Seq<Seq<char>> {
    v.map_values(|s: String| s@)
}

/// Why encoding stopped short of a list of URIs: a path has no URI, or the
/// relative path at `index` (which is `path`) must be canonicalized first.
#[derive(Debug, Clone)]
pub enum EncodeStop {
    Failed(PortalError),
    NeedsCanonical { index: usize, path: String },
}

/// The plain value of an `EncodeStop`.
pub enum StopModel {
    Failed(PortalErrorModel),
    NeedsCanonical(int, Seq<char>),
}

impl EncodeStop {
    pub open spec fn model(&self) -> StopModel {
        match self {
            EncodeStop::Failed(e) => StopModel::Failed(e.model()),
            EncodeStop::NeedsCanonical { index, path } => StopModel::NeedsCanonical(*index as int, path@),
        }
    }
}

pub open spec fn stop_result_model<T, U>(r: Result<T, EncodeStop>, f: spec_fn(T) -> U) -> Result<U, StopModel> {
    match r {
        Ok(t) => Ok(f(t)),
        Err(e) => Err(e.model()),
    }
}

/// What canonicalizing `paths[i]` gave, as far as it is known: entry `i` of
/// `canonical`. Past its end it is unknown, which matters only for relative
/// paths.
pub open spec fn canonical_at(canonical: Seq<Result<Seq<char>, Seq<char>>>, i: int) -> Result<Seq<char>, Seq<char>> {
    if 0 <= i < canonical.len() { canonical[i] } else { Ok(Seq::empty()) }
}

/// Encoding `paths` from index `i` on, after the URIs `done`: in order, each
/// path's URI; the first path without a URI stops it with that path's error;
/// a relative path past the known canonicalization results stops it with a
/// request to canonicalize that path. Entries of `canonical` at absolute
/// paths are not read.
pub open spec fn encode_from(
    paths: Seq<Seq<char>>,
    canonical: Seq<Result<Seq<char>, Seq<char>>>,
    i: int,
    done: Seq<Seq<char>>,
) -> Result<Seq<Seq<char>>, StopModel>
    decreases paths.len() - i,
{
    if i < 0 || i >= paths.len() {
        Ok(done)
    } else if i >= canonical.len() && !spec_is_absolute(paths[i]) {
        Err(StopModel::NeedsCanonical(i, paths[i]))
    } else {
        match file_uri_spec(paths[i], canonical_at(canonical, i)) {
            Err(e) => Err(StopModel::Failed(e)),
            Ok(uri) => encode_from(paths, canonical, i + 1, done.push(uri)),
        }
    }
}

pub open spec fn encode_uris_spec(
    paths: Seq<Seq<char>>,
    canonical: Seq<Result<Seq<char>, Seq<char>>>,
) -> Result<Seq<Seq<char>>, StopModel> {
    encode_from(paths, canonical, 0, Seq::empty())
}

/// A request to canonicalize names a relative path that has no known result
/// yet, so each request makes the known results longer.
pub proof fn lemma_needs_canonical_is_new(
    paths: Seq<Seq<char>>,
    canonical: Seq<Result<Seq<char>, Seq<char>>>,
    i: int,
    done: Seq<Seq<char>>,
)
    requires
        0 <= i,
    ensures
        encode_from(paths, canonical, i, done) matches Err(StopModel::NeedsCanonical(k, p)) ==> {
            &&& canonical.len() <= k < paths.len()
            &&& i <= k
            &&& p == paths[k]
            &&& !spec_is_absolute(paths[k])
        },
    decreases paths.len() - i,
{
    if i < paths.len() && !(i >= canonical.len() && !spec_is_absolute(paths[i])) {
        if let Ok(uri) = file_uri_spec(paths[i], canonical_at(canonical, i)) {
            lemma_needs_canonical_is_new(paths, canonical, i + 1, done.push(uri));
        }
    }
}

/// The `file://` URIs of `paths`, in order; `canonical[i]` is what
/// canonicalizing `paths[i]` gave (entries at absolute paths are not read).
/// The first path without a URI ends it with that path's error; a relative
/// path with no canonicalization result yet ends it with a request for one.
pub fn encode_uris(paths: &Vec<String>, canonical: &Vec<Result<String, String>>) -> (res: Result<Vec<String>, EncodeStop>)
    ensures
        stop_result_model(res, |v: Vec<String>| strings_model(v@))
            == encode_uris_spec(strings_model(paths@), canonicals_model(canonical@)),
        res matches Err(EncodeStop::NeedsCanonical { index, path }) ==> canonical.len() <= index < paths.len(),
{
    let ghost ps = strings_model(paths@);
    let ghost cs = canonicals_model(canonical@);
    let mut uris: Vec<String> = Vec::new();
    let mut i: usize = 0;
    assert(strings_model(uris@) =~= Seq::<Seq<char>>::empty());
    proof {
        lemma_needs_canonical_is_new(ps, cs, 0, Seq::empty());
    }
    while i < paths.len()
        invariant
            ps == strings_model(paths@),
            cs == canonicals_model(canonical@),
            ps.len() == paths.len(),
            cs.len() == canonical.len(),
            i <= paths.len(),
            encode_uris_spec(ps, cs) == encode_from(ps, cs, i as int, strings_model(uris@)),
            encode_uris_spec(ps, cs) matches Err(StopModel::NeedsCanonical(k, p)) ==> canonical.len() <= k < paths.len(),
        decreases paths.len() - i,
    {
        let path = paths[i].as_str();
        let result = if i < canonical.len() {
            path_to_file_uri(path, &canonical[i])
        } else if is_absolute(path) {
            path_to_file_uri(path, &Ok(String::new()))
        } else {
            return Err(EncodeStop::NeedsCanonical { index: i, path: paths[i].clone() });
        };
        match result {
            Err(e) => return Err(EncodeStop::Failed(e)),
            Ok(uri) => {
                let ghost before = uris@;
                uris.push(uri);
                assert(strings_model(uris@) =~= strings_model(before).push(uri@));
            },
        }
        i = i + 1;
    }
    Ok(uris)
}

/// The portal's answer to a chooser request: the response code (0 for a
/// choice, 1 for a cancelled request) and, with a choice, the chosen URIs.
#[derive(Debug, Clone)]
pub struct PortalResponse {
    pub response: u32,
    pub uris: Option<Vec<String>>,
}

pub struct ResponseModel {
    pub response: u32,
    pub uris: Option<Seq<Seq<char>>>,
}

impl PortalResponse {
    pub open spec fn model(&self) -> ResponseModel {
        ResponseModel {
            response: self.response,
            uris: match self.uris {
                Some(u) => Some(strings_model(u@)),
                None => None,
            },
        }
    }
}

/// The portal's answer for a chooser result: code 1 and no results when it
/// was cancelled; code 0 and the URIs of the chosen paths otherwise (or why
/// encoding them stopped).
pub open spec fn response_spec(result: ChooserResult, canonical: Seq<Result<Seq<char>, Seq<char>>>) -> Result<ResponseModel, StopModel> {
    match result {
        ChooserResult::Cancelled => Ok(ResponseModel { response: 1, uris: None }),
        _ => match encode_uris_spec(result.paths(), canonical) {
            Err(e) => Err(e),
            Ok(uris) => Ok(ResponseModel { response: 0, uris: Some(uris) }),
        },
    }
}

/// Builds the portal's answer for the chooser's result. `canonical[i]` is
/// what canonicalizing the `i`-th chosen path gave, as far as it is known; a
/// relative path beyond that is asked for, one at a time.
pub fn response_from_chooser(result: &ChooserResult, canonical: &Vec<Result<String, String>>) -> (res: Result<PortalResponse, EncodeStop>)
    ensures
        stop_result_model(res, |r: PortalResponse| r.model()) == response_spec(*result, canonicals_model(canonical@)),
        res matches Err(EncodeStop::NeedsCanonical { index, path }) ==> canonical.len() <= index < result.paths().len(),
{
    match result {
        ChooserResult::Cancelled => Ok(PortalResponse { response: 1, uris: None }),
        ChooserResult::Selected(path) => {
            let mut paths: Vec<String> = Vec::new();
            paths.push(path.clone());
            assert(strings_model(paths@) =~= result.paths());
            match encode_uris(&paths, canonical) {
                Ok(uris) => Ok(PortalResponse { response: 0, uris: Some(uris) }),
                Err(e) => Err(e),
            }
        },
        ChooserResult::SelectedMany(paths) => {
            assert(strings_model(paths@) =~= result.paths());
            match encode_uris(paths, canonical) {
                Ok(uris) => Ok(PortalResponse { response: 0, uris: Some(uris) }),
                Err(e) => Err(e),
            }
        },
    }
}

/// Absolute paths always have URIs, whatever is known of canonicalizing
/// them: each is `file://` followed by the path.
pub proof fn lemma_absolute_paths_encode(
    paths: Seq<Seq<char>>,
    canonical: Seq<Result<Seq<char>, Seq<char>>>,
    i: int,
    done: Seq<Seq<char>>,
)
    requires
        0 <= i <= paths.len(),
        forall|j: int| 0 <= j < paths.len() ==> spec_is_absolute(#[trigger] paths[j]),
    ensures
        encode_from(paths, canonical, i, done) == Ok::<Seq<Seq<char>>, StopModel>(
            done + paths.skip(i).map_values(|p: Seq<char>| "file://"@ + p),
        ),
    decreases paths.len() - i,
{
    if i < paths.len() {
        assert(spec_is_absolute(paths[i]));
        lemma_absolute_paths_encode(paths, canonical, i + 1, done.push("file://"@ + paths[i]));
        assert(done.push("file://"@ + paths[i]) + paths.skip(i + 1).map_values(|p: Seq<char>| "file://"@ + p)
            =~= done + paths.skip(i).map_values(|p: Seq<char>| "file://"@ + p));
    } else {
        assert(done + paths.skip(i).map_values(|p: Seq<char>| "file://"@ + p) =~= done);
    }
}

/// Encoding that finishes gives one URI for each path left, after those
/// already made.
pub proof fn lemma_encode_from_count(
    paths: Seq<Seq<char>>,
    canonical: Seq<Result<Seq<char>, Seq<char>>>,
    i: int,
    done: Seq<Seq<char>>,
)
    requires
        0 <= i <= paths.len(),
    ensures
        encode_from(paths, canonical, i, done) matches Ok(uris) ==> uris.len() == done.len() + paths.len() - i,
    decreases paths.len() - i,
{
    if i < paths.len() && !(i >= canonical.len() && !spec_is_absolute(paths[i])) {
        if let Ok(uri) = file_uri_spec(paths[i], canonical_at(canonical, i)) {
            lemma_encode_from_count(paths, canonical, i + 1, done.push(uri));
        }
    }
}

/// A response with a choice carries one URI for each chosen path.
pub proof fn lemma_response_has_a_uri_per_path(result: ChooserResult, canonical: Seq<Result<Seq<char>, Seq<char>>>)
    ensures
        response_spec(result, canonical) matches Ok(r) ==> match r.uris {
            Some(uris) => r.response == 0 && uris.len() == result.paths().len(),
            None => r.response == 1 && result is Cancelled,
        },
{
    lemma_encode_from_count(result.paths(), canonical, 0, Seq::empty());
}

/// A boolean option reads back as its own value, an absent one as absent,
/// and one of another type as an error naming its key.
pub proof fn lemma_bool_option_reads_value(value: Option<OptionValue>, key: Seq<char>)
    ensures
        value matches Some(OptionValue::Bool(b)) ==> bool_option_spec(value, key) == Ok::<Option<bool>, PortalErrorModel>(Some(b)),
        value is None ==> bool_option_spec(value, key) == Ok::<Option<bool>, PortalErrorModel>(None),
        value matches Some(OptionValue::NotBool(e)) ==> (bool_option_spec(value, key) matches Err(PortalErrorModel::Failed(m))
            && m == "option `"@ + key + "` is not a bool: "@ + e@),
{
}

/// The request carries the boolean options as given, and `false` for the
/// ones that are absent; its title is the call's title.
pub proof fn lemma_request_reads_flags(title: Seq<char>, options: ChooserOptions)
    requires
        options.get_spec("multiple"@) is None || options.get_spec("multiple"@) matches Some(OptionValue::Bool(_)),
        options.get_spec("directory"@) is None || options.get_spec("directory"@) matches Some(OptionValue::Bool(_)),
    ensures
        parse_request_spec(title, options) matches Ok(r) && {
            &&& r.title == title
            &&& r.multiple == (options.get_spec("multiple"@) == Some(OptionValue::Bool(true)))
            &&& r.directory == (options.get_spec("directory"@) == Some(OptionValue::Bool(true)))
        },
{
    lemma_bool_option_reads_value(options.get_spec("multiple"@), "multiple"@);
    lemma_bool_option_reads_value(options.get_spec("directory"@), "directory"@);
}

/// Every URI made starts with `file://` and goes on with an absolute path;
/// an absolute path's URI is `file://` and the path itself.
pub proof fn lemma_file_uri_shape(path: Seq<char>, canonical: Result<Seq<char>, Seq<char>>)
    ensures
        file_uri_spec(path, canonical) matches Ok(uri) ==> {
            &&& uri.len() > 7
            &&& uri.take(7) == "file://"@
            &&& spec_is_absolute(uri.skip(7))
        },
        spec_is_absolute(path) ==> file_uri_spec(path, canonical) == Ok::<Seq<char>, PortalErrorModel>("file://"@ + path),
        !spec_is_absolute(path) && canonical is Err ==> file_uri_spec(path, canonical) is Err,
{
    reveal_strlit("file://");
    if let Ok(uri) = file_uri_spec(path, canonical) {
        if let Ok(abs) = absolute_spec(path, canonical) {
            assert(uri == "file://"@ + abs);
            assert(uri.take(7) =~= "file://"@);
            assert(uri.skip(7) =~= abs);
        }
    }
}

/// Encoding from `i` on keeps the URIs already made and puts each later
/// path's own URI at that path's place; when it fails, the failure is the
/// error of some path from `i` on whose earlier paths all have URIs.
proof fn lemma_encode_from_positions(
    paths: Seq<Seq<char>>,
    canonical: Seq<Result<Seq<char>, Seq<char>>>,
    i: int,
    done: Seq<Seq<char>>,
)
    requires
        0 <= i <= paths.len(),
        done.len() == i,
    ensures
        encode_from(paths, canonical, i, done) matches Ok(uris) ==> {
            &&& uris.len() == paths.len()
            &&& uris.take(i) == done
            &&& forall|j: int| i <= j < paths.len()
                ==> file_uri_spec(#[trigger] paths[j], canonical_at(canonical, j)) == Ok::<Seq<char>, PortalErrorModel>(uris[j])
        },
        encode_from(paths, canonical, i, done) matches Err(StopModel::Failed(e)) ==> exists|j: int|
            i <= j < paths.len() && file_uri_spec(#[trigger] paths[j], canonical_at(canonical, j)) == Err::<Seq<char>, PortalErrorModel>(e)
                && forall|k: int| i <= k < j ==> file_uri_spec(#[trigger] paths[k], canonical_at(canonical, k)) is Ok,
    decreases paths.len() - i,
{
    if i < paths.len() && !(i >= canonical.len() && !spec_is_absolute(paths[i])) {
        match file_uri_spec(paths[i], canonical_at(canonical, i)) {
            Ok(uri) => {
                let next = done.push(uri);
                lemma_encode_from_positions(paths, canonical, i + 1, next);
                if let Ok(uris) = encode_from(paths, canonical, i, done) {
                    assert(uris.take(i + 1) == next);
                    assert(uris.take(i) =~= next.take(i));
                    assert(next.take(i) =~= done);
                    assert(uris[i] == uris.take(i + 1)[i]);
                }
                if let Err(StopModel::Failed(e)) = encode_from(paths, canonical, i, done) {
                    let j = choose|j: int| i + 1 <= j < paths.len() && file_uri_spec(#[trigger] paths[j], canonical_at(canonical, j)) == Err::<Seq<char>, PortalErrorModel>(e)
                        && forall|k: int| i + 1 <= k < j ==> file_uri_spec(#[trigger] paths[k], canonical_at(canonical, k)) is Ok;
                    assert(forall|k: int| i <= k < j ==> file_uri_spec(#[trigger] paths[k], canonical_at(canonical, k)) is Ok);
                }
            },
            Err(e) => {
                assert(forall|k: int| i <= k < i ==> file_uri_spec(#[trigger] paths[k], canonical_at(canonical, k)) is Ok);
            },
        }
    } else if i >= paths.len() {
        assert(done.take(i) =~= done);
    }
}

/// The URIs of a finished encoding are, in order, the URIs of the paths;
/// a failed encoding reports the first path that has no URI.
pub proof fn lemma_encode_uris_by_position(paths: Seq<Seq<char>>, canonical: Seq<Result<Seq<char>, Seq<char>>>)
    ensures
        encode_uris_spec(paths, canonical) matches Ok(uris) ==> {
            &&& uris.len() == paths.len()
            &&& forall|j: int| 0 <= j < paths.len()
                ==> file_uri_spec(#[trigger] paths[j], canonical_at(canonical, j)) == Ok::<Seq<char>, PortalErrorModel>(uris[j])
        },
        encode_uris_spec(paths, canonical) matches Err(StopModel::Failed(e)) ==> exists|j: int|
            0 <= j < paths.len() && file_uri_spec(#[trigger] paths[j], canonical_at(canonical, j)) == Err::<Seq<char>, PortalErrorModel>(e)
                && forall|k: int| 0 <= k < j ==> file_uri_spec(#[trigger] paths[k], canonical_at(canonical, k)) is Ok,
{
    lemma_encode_from_positions(paths, canonical, 0, Seq::empty());
}

/// The value stored under a key is one that was stored with that key.
pub proof fn lemma_lookup_finds_entry(entries: Seq<(String, OptionValue)>, key: Seq<char>)
    ensures
        lookup(entries, key) matches Some(v) ==> exists|i: int| 0 <= i < entries.len() && (#[trigger] entries[i]).0@ == key && entries[i].1 == v,
        lookup(entries, key) is None ==> forall|i: int| 0 <= i < entries.len() ==> (#[trigger] entries[i]).0@ != key,
    decreases entries.len(),
{
    if entries.len() > 0 {
        lemma_lookup_finds_entry(entries.drop_first(), key);
        if entries[0].0@ != key {
            if let Some(v) = lookup(entries, key) {
                let i = choose|i: int| 0 <= i < entries.drop_first().len() && (#[trigger] entries.drop_first()[i]).0@ == key && entries.drop_first()[i].1 == v;
                assert(entries[i + 1] == entries.drop_first()[i]);
            } else {
                assert forall|i: int| 0 <= i < entries.len() implies (#[trigger] entries[i]).0@ != key by {
                    if i > 0 {
                        assert(entries[i] == entries.drop_first()[i - 1]);
                    }
                }
            }
        }
    }
}

} // verus!
