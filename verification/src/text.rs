//! Small verified string helpers.
use vstd::prelude::*;
use vstd::string::*;

verus! {

/// Whether two strings hold the same characters.
pub fn text_eq(a: &str, b: &str) -> (res: bool)
    ensures
        res == (a@ == b@),
{
    let n = a.unicode_len();
    if n != b.unicode_len() {
        return false;
    }
    let mut i: usize = 0;
    while i < n
        invariant
            n == a@.len(),
            n == b@.len(),
            i <= n,
            forall|j: int| 0 <= j < i ==> a@[j] == b@[j],
        decreases n - i,
    {
        if a.get_char(i) != b.get_char(i) {
            return false;
        }
        i = i + 1;
    }
    assert(a@ =~= b@);
    true
}

/// `a`, then `b`, as one new string.
pub fn join2(a: &str, b: &str) -> (res: String)
    ensures
        res@ == a@ + b@,
{
    let mut s = String::from_str(a);
    s.append(b);
    s
}

/// `a`, then `b`, then `c`, as one new string.
pub fn join3(a: &str, b: &str, c: &str) -> (res: String)
    ensures
        res@ == a@ + b@ + c@,
{
    let mut s = String::from_str(a);
    s.append(b);
    s.append(c);
    s
}

/// Whether a string starts with the given character.
pub fn starts_with_char(s: &str, c: char) -> (res: bool)
    ensures
        res == (s@.len() > 0 && s@[0] == c),
{
    s.unicode_len() > 0 && s.get_char(0) == c
}

/// Whether a character has the Unicode `White_Space` property (what
/// `char::is_whitespace` tests).
pub open spec fn is_white_space(c: char) -> bool {
    let n = c as u32;
    ||| 0x9 <= n <= 0xd
    ||| n == 0x20
    ||| n == 0x85
    ||| n == 0xa0
    ||| n == 0x1680
    ||| 0x2000 <= n <= 0x200a
    ||| n == 0x2028
    ||| n == 0x2029
    ||| n == 0x202f
    ||| n == 0x205f
    ||| n == 0x3000
}

/// A text without its leading white space.
pub open spec fn trim_start_spec(s: Seq<char>) -> Seq<char>
    decreases s.len(),
{
    if s.len() > 0 && is_white_space(s[0]) {
        trim_start_spec(s.drop_first())
    } else {
        s
    }
}

/// A text without its trailing white space.
pub open spec fn trim_end_spec(s: Seq<char>) -> Seq<char>
    decreases s.len(),
{
    if s.len() > 0 && is_white_space(s.last()) {
        trim_end_spec(s.drop_last())
    } else {
        s
    }
}

/// A text without its leading and trailing white space (`str::trim`).
pub open spec fn trim_spec(s: Seq<char>) -> Seq<char> {
    trim_end_spec(trim_start_spec(s))
}

/// The text before the first `\n`, and what follows that `\n` when there is
/// one.
pub open spec fn first_line(s: Seq<char>) -> (Seq<char>, Option<Seq<char>>)
    decreases s.len(),
{
    if s.len() == 0 {
        (Seq::empty(), None)
    } else if s[0] == '\n' {
        (Seq::empty(), Some(s.drop_first()))
    } else {
        let (line, rest) = first_line(s.drop_first());
        (seq![s[0]] + line, rest)
    }
}

/// What follows the first line ending is shorter than the text, and the text
/// is that line, the `\n`, and what follows.
pub proof fn lemma_first_line(s: Seq<char>)
    ensures
        first_line(s).1 matches Some(rest) ==> rest.len() < s.len() && s == first_line(s).0 + seq!['\n'] + rest,
        first_line(s).1 is None ==> first_line(s).0 == s,
    decreases s.len(),
{
    if s.len() > 0 && s[0] != '\n' {
        lemma_first_line(s.drop_first());
        let (line, rest) = first_line(s.drop_first());
        assert(s =~= seq![s[0]] + s.drop_first());
        if let Some(r) = rest {
            assert(s.drop_first() == line + seq!['\n'] + r);
            assert(s =~= seq![s[0]] + line + seq!['\n'] + r);
        } else {
            assert(s =~= seq![s[0]] + line);
        }
    } else if s.len() > 0 {
        assert(s =~= Seq::<char>::empty() + seq!['\n'] + s.drop_first());
    } else {
        assert(first_line(s).0 =~= s);
    }
}

/// A line without the `\r` of a `\r\n` ending.
pub open spec fn strip_cr(line: Seq<char>) -> Seq<char> {
    if line.len() > 0 && line.last() == '\r' { line.drop_last() } else { line }
}

/// The lines of a text (`str::lines`): split at `\n` or `\r\n`, without the
/// line endings; a final line ending is optional.
pub open spec fn lines_spec(s: Seq<char>) -> Seq<Seq<char>>
    decreases s.len(),
{
    if s.len() == 0 {
        Seq::empty()
    } else {
        match first_line(s).1 {
            None => seq![first_line(s).0],
            Some(rest) => {
                proof {
                    lemma_first_line(s);
                }
                seq![strip_cr(first_line(s).0)] + lines_spec(rest)
            },
        }
    }
}

/// What a program prints when it prints each of `lines` on a line of its
/// own.
pub open spec fn printed_lines(lines: Seq<Seq<char>>) -> Seq<char>
    decreases lines.len(),
{
    if lines.len() == 0 {
        Seq::empty()
    } else {
        lines[0] + seq!['\n'] + printed_lines(lines.drop_first())
    }
}

/// The first line of `line`, a `\n` and more, is `line`, when `line` holds no
/// `\n`.
pub proof fn lemma_first_line_of_printed(line: Seq<char>, rest: Seq<char>)
    requires
        !line.contains('\n'),
    ensures
        first_line(line + seq!['\n'] + rest) == (line, Some(rest)),
    decreases line.len(),
{
    let s = line + seq!['\n'] + rest;
    if line.len() == 0 {
        assert(s[0] == '\n');
        assert(s.drop_first() =~= rest);
    } else {
        assert(!line.drop_first().contains('\n')) by {
            if line.drop_first().contains('\n') {
                let k = choose|k: int| 0 <= k < line.drop_first().len() && line.drop_first()[k] == '\n';
                assert(line[k + 1] == '\n');
            }
        }
        lemma_first_line_of_printed(line.drop_first(), rest);
        assert(s.drop_first() =~= line.drop_first() + seq!['\n'] + rest);
        assert(s[0] == line[0]);
        assert(line[0] != '\n');
        assert(seq![line[0]] + line.drop_first() =~= line);
    }
}

/// Lines printed one per line are read back as the same lines, when none
/// holds a `\n` or ends in `\r`.
pub proof fn lemma_lines_of_printed(lines: Seq<Seq<char>>)
    requires
        forall|i: int| 0 <= i < lines.len() ==> !(#[trigger] lines[i]).contains('\n'),
        forall|i: int| 0 <= i < lines.len() ==> (#[trigger] lines[i]).len() == 0 || lines[i].last() != '\r',
    ensures
        lines_spec(printed_lines(lines)) == lines,
    decreases lines.len(),
{
    if lines.len() > 0 {
        let rest = lines.drop_first();
        assert forall|i: int| 0 <= i < rest.len() implies !(#[trigger] rest[i]).contains('\n') by {
            assert(rest[i] == lines[i + 1]);
        }
        assert forall|i: int| 0 <= i < rest.len() implies (#[trigger] rest[i]).len() == 0 || rest[i].last() != '\r' by {
            assert(rest[i] == lines[i + 1]);
        }
        lemma_lines_of_printed(rest);
        let s = printed_lines(lines);
        assert(!lines[0].contains('\n'));
        lemma_first_line_of_printed(lines[0], printed_lines(rest));
        assert(s.len() > 0);
        assert(strip_cr(lines[0]) == lines[0]);
        assert(seq![lines[0]] + rest =~= lines);
    } else {
        assert(printed_lines(lines) =~= Seq::<char>::empty());
    }
}

/// A text that neither starts nor ends with white space is its own trim.
pub proof fn lemma_trim_of_clean(s: Seq<char>)
    requires
        s.len() > 0,
        !is_white_space(s[0]),
        !is_white_space(s.last()),
    ensures
        trim_spec(s) == s,
{
}

/// Whether a character has the Unicode `White_Space` property.
pub fn is_white_space_char(c: char) -> (b: bool)
    ensures
        b == is_white_space(c),
{
    let n = c as u32;
    (0x9 <= n && n <= 0xd) || n == 0x20 || n == 0x85 || n == 0xa0 || n == 0x1680
        || (0x2000 <= n && n <= 0x200a) || n == 0x2028 || n == 0x2029 || n == 0x202f
        || n == 0x205f || n == 0x3000
}

/// A text without its leading and trailing white space, as a new string.
pub fn trim_text(s: &str) -> (res: String)
    ensures
        res@ == trim_spec(s@),
{
    let n = s.unicode_len();
    let mut start: usize = 0;
    assert(s@.skip(0) =~= s@);
    while start < n && is_white_space_char(s.get_char(start))
        invariant
            n == s@.len(),
            start <= n,
            trim_start_spec(s@) == trim_start_spec(s@.skip(start as int)),
        decreases n - start,
    {
        let ghost t = s@.skip(start as int);
        assert(t.len() > 0 && t[0] == s@[start as int]);
        assert(t.drop_first() =~= s@.skip(start + 1));
        start = start + 1;
    }
    let ghost front = s@.skip(start as int);
    if start < n {
        assert(front[0] == s@[start as int]);
    } else {
        assert(front.len() == 0);
    }
    assert(trim_start_spec(front) == front);
    let mut end: usize = n;
    assert(front =~= s@.subrange(start as int, n as int));
    while end > start && is_white_space_char(s.get_char(end - 1))
        invariant
            n == s@.len(),
            start <= end <= n,
            trim_end_spec(front) == trim_end_spec(s@.subrange(start as int, end as int)),
            front == s@.subrange(start as int, n as int),
        decreases end - start,
    {
        let ghost t = s@.subrange(start as int, end as int);
        assert(t.last() == s@[end - 1]);
        assert(t.drop_last() =~= s@.subrange(start as int, end - 1));
        end = end - 1;
    }
    let ghost back = s@.subrange(start as int, end as int);
    if end > start {
        assert(back.last() == s@[end - 1]);
    }
    assert(trim_end_spec(back) == back);
    String::from_str(s.substring_char(start, end))
}

proof fn lemma_trim_start_cut(s: Seq<char>) -> (a: int)
    ensures
        0 <= a <= s.len(),
        trim_start_spec(s) == s.skip(a),
        forall|k: int| 0 <= k < a ==> is_white_space(#[trigger] s[k]),
        a < s.len() ==> !is_white_space(s[a]),
    decreases s.len(),
{
    if s.len() > 0 && is_white_space(s[0]) {
        let a1 = lemma_trim_start_cut(s.drop_first());
        assert(s.drop_first().skip(a1) =~= s.skip(a1 + 1));
        assert forall|k: int| 0 <= k < a1 + 1 implies is_white_space(#[trigger] s[k]) by {
            if k > 0 {
                assert(s[k] == s.drop_first()[k - 1]);
            }
        }
        if a1 + 1 < s.len() {
            assert(s[a1 + 1] == s.drop_first()[a1]);
        }
        a1 + 1
    } else {
        assert(s.skip(0) =~= s);
        0
    }
}

proof fn lemma_trim_end_cut(s: Seq<char>) -> (b: int)
    ensures
        0 <= b <= s.len(),
        trim_end_spec(s) == s.take(b),
        forall|k: int| b <= k < s.len() ==> is_white_space(#[trigger] s[k]),
        b > 0 ==> !is_white_space(s[b - 1]),
    decreases s.len(),
{
    if s.len() > 0 && is_white_space(s.last()) {
        let b1 = lemma_trim_end_cut(s.drop_last());
        assert(s.drop_last().take(b1) =~= s.take(b1));
        assert forall|k: int| b1 <= k < s.len() implies is_white_space(#[trigger] s[k]) by {
            if k < s.len() - 1 {
                assert(s[k] == s.drop_last()[k]);
            }
        }
        if b1 > 0 {
            assert(s[b1 - 1] == s.drop_last()[b1 - 1]);
        }
        b1
    } else {
        assert(s.take(s.len() as int) =~= s);
        s.len() as int
    }
}

/// Trimming cuts white space only, from both ends, and as much as there is:
/// the result is a stretch of the text, everything outside it is white
/// space, and it neither starts nor ends with white space.
pub proof fn lemma_trim_cuts_white_space(s: Seq<char>)
    ensures
        exists|a: int, b: int| {
            &&& 0 <= a <= b <= s.len()
            &&& trim_spec(s) == s.subrange(a, b)
            &&& forall|k: int| 0 <= k < a ==> is_white_space(#[trigger] s[k])
            &&& forall|k: int| b <= k < s.len() ==> is_white_space(#[trigger] s[k])
        },
        trim_spec(s).len() > 0 ==> !is_white_space(trim_spec(s)[0]) && !is_white_space(trim_spec(s).last()),
{
    let a = lemma_trim_start_cut(s);
    let t = s.skip(a);
    let b = lemma_trim_end_cut(t);
    assert(trim_spec(s) == t.take(b));
    assert(t.take(b) =~= s.subrange(a, a + b));
    assert forall|k: int| a + b <= k < s.len() implies is_white_space(#[trigger] s[k]) by {
        assert(s[k] == t[k - a]);
    }
    if b > 0 {
        assert(t.take(b)[0] == s[a]);
        assert(t.take(b).last() == t[b - 1]);
    }
    assert(0 <= a <= a + b <= s.len());
}

proof fn lemma_first_line_has_no_newline(s: Seq<char>)
    ensures
        !first_line(s).0.contains('\n'),
    decreases s.len(),
{
    if s.len() > 0 && s[0] != '\n' {
        lemma_first_line_has_no_newline(s.drop_first());
        let line = first_line(s.drop_first()).0;
        let whole = seq![s[0]] + line;
        assert forall|k: int| 0 <= k < whole.len() implies whole[k] != '\n' by {
            if k > 0 {
                assert(whole[k] == line[k - 1]);
            }
        }
    }
}

/// No line holds a line ending's `\n`, and a text without a `\n` is one
/// line, itself (when not empty).
pub proof fn lemma_lines_hold_no_newline(s: Seq<char>)
    ensures
        forall|i: int| 0 <= i < lines_spec(s).len() ==> !(#[trigger] lines_spec(s)[i]).contains('\n'),
        s.len() > 0 && !s.contains('\n') ==> lines_spec(s) == seq![s],
    decreases s.len(),
{
    if s.len() > 0 {
        lemma_first_line(s);
        lemma_first_line_has_no_newline(s);
        let (line, rest) = first_line(s);
        match rest {
            None => {},
            Some(r) => {
                lemma_lines_hold_no_newline(r);
                let l = strip_cr(line);
                assert(!l.contains('\n')) by {
                    if l.contains('\n') {
                        let k = choose|k: int| 0 <= k < l.len() && l[k] == '\n';
                        assert(line[k] == '\n');
                    }
                }
                assert forall|i: int| 0 <= i < lines_spec(s).len() implies !(#[trigger] lines_spec(s)[i]).contains('\n') by {
                    if i > 0 {
                        assert(lines_spec(s)[i] == lines_spec(r)[i - 1]);
                    }
                }
                if !s.contains('\n') {
                    assert(s[line.len() as int] == '\n');
                }
            },
        }
    }
}

} // verus!
