//! One row of the entry list: its label, and the range of rows that a
//! shift-click selects.
use vstd::prelude::*;
use vstd::string::*;
use std::collections::HashSet;
use crate::paths::{file_name, path_file_name};
use crate::text::join3;

verus! {

broadcast use vstd::std_specs::hash::group_hash_axioms;

/// A row of the entry list: the entry's path and its row.
pub struct EntryItem {
    pub path: String,
    pub index: usize,
}

pub open spec fn spec_min(a: usize, b: usize) -> usize {
    if a <= b { a } else { b }
}

pub open spec fn spec_max(a: usize, b: usize) -> usize {
    if a <= b { b } else { a }
}

/// The rows from the lower to the higher of `from` and `to`, both included.
pub open spec fn range_set(from: usize, to: usize) -> Set<usize> {
    Set::new(|k: usize| spec_min(from, to) <= k <= spec_max(from, to))
}

/// The label of an entry: its file name, or the whole path when it has none.
pub open spec fn entry_label_spec(path: Seq<char>) -> Seq<char> {
    match path_file_name(path) {
        Some(name) => name,
        None => path,
    }
}

/// The decimal digit `d` (below ten) as a character.
pub open spec fn digit_char(d: nat) -> char {
    if d == 0 { '0' } else if d == 1 { '1' } else if d == 2 { '2' } else if d == 3 { '3' }
    else if d == 4 { '4' } else if d == 5 { '5' } else if d == 6 { '6' } else if d == 7 { '7' }
    else if d == 8 { '8' } else { '9' }
}

/// A number written in decimal, without sign or leading zeros.
pub open spec fn decimal_text(n: nat) -> Seq<char>
    decreases n,
{
    if n < 10 {
        seq![digit_char(n)]
    } else {
        decimal_text(n / 10).push(digit_char(n % 10))
    }
}

/// The decimal digit `d` as a one-character string.
fn digit_text(d: usize) -> (s: &'static str)
    requires
        d < 10,
    ensures
        s@ == seq![digit_char(d as nat)],
{
    proof {
        reveal_strlit("0");
        reveal_strlit("1");
        reveal_strlit("2");
        reveal_strlit("3");
        reveal_strlit("4");
        reveal_strlit("5");
        reveal_strlit("6");
        reveal_strlit("7");
        reveal_strlit("8");
        reveal_strlit("9");
    }
    let s = match d {
        0 => "0",
        1 => "1",
        2 => "2",
        3 => "3",
        4 => "4",
        5 => "5",
        6 => "6",
        7 => "7",
        8 => "8",
        _ => "9",
    };
    assert(s@ =~= seq![digit_char(d as nat)]);
    s
}

/// The number in decimal (what `usize::to_string` gives).
pub fn usize_text(n: usize) -> (res: String)
    ensures
        res@ == decimal_text(n as nat),
    decreases n,
{
    if n < 10 {
        String::from_str(digit_text(n))
    } else {
        let mut s = usize_text(n / 10);
        s.append(digit_text(n % 10));
        s
    }
}

/// The element id of an entry's row: its path, a dash, and its row number.
pub open spec fn entry_id_spec(path: Seq<char>, index: usize) -> Seq<char> {
    path + "-"@ + decimal_text(index as nat)
}

impl EntryItem {
    pub fn new(path: String, index: usize) -> (e: Self)
        ensures
            e.path == path,
            e.index == index,
    {
        EntryItem { path, index }
    }

    /// The element id of the entry's row.
    pub fn element_id(&self) -> (id: String)
        ensures
            id@ == entry_id_spec(self.path@, self.index),
    {
        let number = usize_text(self.index);
        join3(self.path.as_str(), "-", number.as_str())
    }

    /// The text shown for the entry.
    pub fn label(&self) -> (s: String)
        ensures
            s@ == entry_label_spec(self.path@),
    {
        match file_name(self.path.as_str()) {
            Some(name) => name,
            None => self.path.clone(),
        }
    }
}

/// The rows between `from` and `to`, both included, in either order.
pub fn get_range(from: usize, to: usize) -> (r: HashSet<usize>)
    ensures
        r@ == range_set(from, to),
{
    let start = if from <= to { from } else { to };
    let end = if from <= to { to } else { from };
    let mut set: HashSet<usize> = HashSet::new();
    let mut i: usize = start;
    loop
        invariant
            start <= i <= end,
            start == spec_min(from, to),
            end == spec_max(from, to),
            set@ == Set::new(|k: usize| start <= k < i),
        decreases end - i,
    {
        set.insert(i);
        if i == end {
            assert(set@ =~= range_set(from, to));
            return set;
        }
        i = i + 1;
        assert(set@ =~= Set::new(|k: usize| start <= k < i));
    }
}

/// Which two rows bound a range does not matter.
pub proof fn lemma_range_symmetric(a: usize, b: usize)
    ensures
        range_set(a, b) == range_set(b, a),
        range_set(a, b).contains(a),
        range_set(a, b).contains(b),
{
    assert(range_set(a, b) =~= range_set(b, a));
}

/// Which borders of a row are drawn, from its highlight (selected, row above
/// selected, row below selected): a selected row joins a selected neighbour
/// by leaving out the border between them.
pub fn row_borders(highlight: (bool, bool, bool)) -> (b: (bool, bool))
    ensures
        b.0 == !(highlight.0 && highlight.1),
        b.1 == !(highlight.0 && highlight.2),
{
    let (is_active, prev_active, next_active) = highlight;
    (!(is_active && prev_active), !(is_active && next_active))
}

/// The rows of a range are exactly those between its two ends.
pub proof fn lemma_range_exact(a: usize, b: usize)
    ensures
        forall|k: usize| range_set(a, b).contains(k) <==> ((a <= k && k <= b) || (b <= k && k <= a)),
{
}

/// The value of a decimal digit, or -1 for any other character.
pub open spec fn digit_value(c: char) -> int {
    if c == '0' { 0 } else if c == '1' { 1 } else if c == '2' { 2 } else if c == '3' { 3 }
    else if c == '4' { 4 } else if c == '5' { 5 } else if c == '6' { 6 } else if c == '7' { 7 }
    else if c == '8' { 8 } else if c == '9' { 9 } else { -1 }
}

/// The number a decimal text stands for, read from the left.
pub open spec fn decimal_value(s: Seq<char>) -> int
    decreases s.len(),
{
    if s.len() == 0 {
        0
    } else {
        decimal_value(s.drop_last()) * 10 + digit_value(s.last())
    }
}

/// A number's decimal text is made of digits, has no leading zero, and
/// stands for the number.
pub proof fn lemma_decimal_text_reads_back(n: nat)
    ensures
        decimal_text(n).len() > 0,
        forall|i: int| 0 <= i < decimal_text(n).len() ==> 0 <= #[trigger] digit_value(decimal_text(n)[i]) <= 9,
        n > 0 ==> decimal_text(n)[0] != '0',
        decimal_value(decimal_text(n)) == n,
    decreases n,
{
    if n >= 10 {
        lemma_decimal_text_reads_back(n / 10);
        let t = decimal_text(n / 10);
        let d = n % 10;
        assert(decimal_text(n) == t.push(digit_char(d)));
        assert(t.push(digit_char(d)).drop_last() =~= t);
        assert(digit_value(digit_char(d)) == d);
        assert(n == (n / 10) * 10 + n % 10) by (nonlinear_arith);
        assert(decimal_value(decimal_text(n)) == decimal_value(t) * 10 + digit_value(digit_char(d)));
        assert forall|i: int| 0 <= i < decimal_text(n).len() implies 0 <= #[trigger] digit_value(decimal_text(n)[i]) <= 9 by {
            if i < t.len() {
                assert(decimal_text(n)[i] == t[i]);
            }
        }
        assert(decimal_text(n)[0] == t[0]);
    } else {
        assert(digit_value(digit_char(n)) == n);
        assert(seq![digit_char(n)].drop_last() =~= Seq::<char>::empty());
        assert(decimal_value(Seq::<char>::empty()) == 0);
        assert(decimal_value(decimal_text(n)) == decimal_value(Seq::<char>::empty()) * 10 + digit_value(digit_char(n)));
    }
}

/// The element id of an entry's row is its path, a dash, and the decimal
/// text of its row number.
pub proof fn lemma_entry_id_parts(path: Seq<char>, index: usize)
    ensures
        entry_id_spec(path, index).take(path.len() as int) == path,
        entry_id_spec(path, index)[path.len() as int] == '-',
        decimal_value(entry_id_spec(path, index).skip(path.len() as int + 1)) == index,
{
    reveal_strlit("-");
    lemma_decimal_text_reads_back(index as nat);
    let id = entry_id_spec(path, index);
    assert(id.take(path.len() as int) =~= path);
    assert(id.skip(path.len() as int + 1) =~= decimal_text(index as nat));
}

} // verus!
