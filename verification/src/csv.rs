//! Comma-separated text: cutting a line into its entries.

use vstd::prelude::*;
use vstd::string::*;
use crate::text::{split, split_pieces};

verus! {

/// `c` is white space: a character with the Unicode property `White_Space`.
pub open spec fn is_whitespace(c: char) -> bool {
    let code = c as u32;
    ||| 0x09 <= code <= 0x0D
    ||| code == 0x20
    ||| code == 0x85
    ||| code == 0xA0
    ||| code == 0x1680
    ||| 0x2000 <= code <= 0x200A
    ||| code == 0x2028
    ||| code == 0x2029
    ||| code == 0x202F
    ||| code == 0x205F
    ||| code == 0x3000
}

/// `s` without the white space at its start.
pub open spec fn trim_start(s: Seq<char>) -> Seq<char>
    decreases s.len(),
{
    if s.len() > 0 && is_whitespace(s[0]) {
        trim_start(s.skip(1))
    } else {
        s
    }
}

/// `s` without the white space at its end.
pub open spec fn trim_end(s: Seq<char>) -> Seq<char>
    decreases s.len(),
{
    if s.len() > 0 && is_whitespace(s.last()) {
        trim_end(s.drop_last())
    } else {
        s
    }
}

/// `s` without the white space at either end.
pub open spec fn trimmed(s: Seq<char>) -> Seq<char> {
    trim_end(trim_start(s))
}

/// The entries of one line: its pieces between commas, each trimmed.
pub open spec fn csv_entries(line: Seq<char>) -> Seq<Seq<char>> {
    split(line, ',').map_values(|piece: Seq<char>| trimmed(piece))
}

/// The entries of every line.
pub open spec fn csv_rows(lines: Seq<Seq<char>>) -> Seq<Seq<Seq<char>>> {
    lines.map_values(|line: Seq<char>| csv_entries(line))
}

/// Tells whether `c` is white space.
pub fn is_whitespace_char(c: char) -> (b: bool)
    ensures
        b == is_whitespace(c),
{
    let code: u32 = c as u32;
    (0x09 <= code && code <= 0x0D) || code == 0x20 || code == 0x85 || code == 0xA0 || code
        == 0x1680 || (0x2000 <= code && code <= 0x200A) || code == 0x2028 || code == 0x2029
        || code == 0x202F || code == 0x205F || code == 0x3000
}

/// Dropping `k` leading white-space characters does not change what
/// `trim_start` gives.
proof fn lemma_trim_start_skip(s: Seq<char>, k: int)
    requires
        0 <= k <= s.len(),
        forall|j: int| 0 <= j < k ==> is_whitespace(#[trigger] s[j]),
    ensures
        trim_start(s) == trim_start(s.skip(k)),
    decreases k,
{
    if k > 0 {
        assert(is_whitespace(s[0]));
        let rest = s.skip(1);
        assert forall|j: int| 0 <= j < k - 1 implies is_whitespace(#[trigger] rest[j]) by {
            assert(rest[j] == s[j + 1]);
        }
        lemma_trim_start_skip(rest, k - 1);
        assert(rest.skip(k - 1) =~= s.skip(k));
    } else {
        assert(s.skip(0) =~= s);
    }
}

/// Dropping trailing white-space characters down to length `k` does not
/// change what `trim_end` gives.
proof fn lemma_trim_end_take(s: Seq<char>, k: int)
    requires
        0 <= k <= s.len(),
        forall|j: int| k <= j < s.len() ==> is_whitespace(#[trigger] s[j]),
    ensures
        trim_end(s) == trim_end(s.take(k)),
    decreases s.len() - k,
{
    if k < s.len() {
        assert(is_whitespace(s.last()));
        let rest = s.drop_last();
        assert forall|j: int| k <= j < rest.len() implies is_whitespace(#[trigger] rest[j]) by {
            assert(rest[j] == s[j]);
        }
        lemma_trim_end_take(rest, k);
        assert(rest.take(k) =~= s.take(k));
    } else {
        assert(s.take(k) =~= s);
    }
}

/// The part of `s` between its leading and its trailing white space.
pub fn trim(s: &str) -> (t: &str)
    ensures
        t@ == trimmed(s@),
{
    let n = s.unicode_len();
    let mut start: usize = 0;
    while start < n && is_whitespace_char(s.get_char(start))
        invariant
            n == s@.len(),
            start <= n,
            forall|j: int| 0 <= j < start ==> is_whitespace(#[trigger] s@[j]),
        decreases n - start,
    {
        start += 1;
    }
    let mut end: usize = n;
    while end > start && is_whitespace_char(s.get_char(end - 1))
        invariant
            n == s@.len(),
            start <= end <= n,
            forall|j: int| end <= j < n ==> is_whitespace(#[trigger] s@[j]),
        decreases end,
    {
        end -= 1;
    }
    proof {
        let front = s@.skip(start as int);
        lemma_trim_start_skip(s@, start as int);
        assert(trim_start(s@) == front) by {
            if start < n {
                assert(front[0] == s@[start as int]);
            }
        }
        assert forall|j: int| end - start <= j < front.len() implies is_whitespace(
            #[trigger] front[j],
        ) by {
            assert(front[j] == s@[j + start]);
        }
        lemma_trim_end_take(front, end - start);
        let kept = front.take(end - start);
        assert(kept =~= s@.subrange(start as int, end as int));
        assert(trim_end(kept) == kept) by {
            if end > start {
                assert(kept.last() == s@[end - 1]);
            }
        }
    }
    s.substring_char(start, end)
}

/// The texts that a list of strings holds.
pub open spec fn texts(entries: Seq<String>) -> Seq<Seq<char>> {
    entries.map_values(|entry: String| entry@)
}

/// The texts that a list of rows holds.
pub open spec fn row_texts(rows: Seq<Vec<String>>) -> Seq<Seq<Seq<char>>> {
    rows.map_values(|row: Vec<String>| texts(row@))
}

/// Cuts one line at its commas and trims each entry.
pub fn parse_csv_line(line: &str) -> (entries: Vec<String>)
    ensures
        texts(entries@) == csv_entries(line@),
{
    let pieces = split_pieces(line, ',');
    let mut entries: Vec<String> = Vec::new();
    let mut i: usize = 0;
    while i < pieces.len()
        invariant
            i <= pieces.len(),
            pieces@.len() == split(line@, ',').len(),
            forall|k: int| 0 <= k < pieces@.len() ==> (#[trigger] pieces@[k])@ == split(line@, ',')[k],
            entries@.len() == i,
            forall|k: int| 0 <= k < i ==> (#[trigger] entries@[k])@ == trimmed(split(line@, ',')[k]),
        decreases pieces.len() - i,
    {
        entries.push(String::from_str(trim(pieces[i])));
        i += 1;
    }
    proof {
        assert(texts(entries@) =~= csv_entries(line@));
    }
    entries
}

/// Cuts every line at its commas, trimming each entry: one row per line, in
/// order.
pub fn parse_csv_document(lines: &Vec<String>) -> (rows: Vec<Vec<String>>)
    ensures
        row_texts(rows@) == csv_rows(texts(lines@)),
{
    let mut rows: Vec<Vec<String>> = Vec::new();
    let mut i: usize = 0;
    while i < lines.len()
        invariant
            i <= lines.len(),
            rows@.len() == i,
            forall|k: int| 0 <= k < i ==> texts((#[trigger] rows@[k])@) == csv_entries(lines@[k]@),
        decreases lines.len() - i,
    {
        let row = parse_csv_line(lines[i].as_str());
        rows.push(row);
        i += 1;
    }
    proof {
        assert(row_texts(rows@) =~= csv_rows(texts(lines@)));
    }
    rows
}

} // verus!
