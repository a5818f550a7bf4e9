//! One display line per record, for choosing among search results.

use vstd::prelude::*;
use crate::record::{Record, RecordView};
use crate::text::{decimal, push_decimal};

verus! {

/// The characters of `s` before its first `[`, without any `]`.
pub open spec fn bracket_inner(s: Seq<char>) -> Seq<char>
    decreases s.len(),
{
    if s.len() == 0 || s[0] == '[' {
        Seq::empty()
    } else if s[0] == ']' {
        bracket_inner(s.drop_first())
    } else {
        seq![s[0]] + bracket_inner(s.drop_first())
    }
}

/// The index of the first `[` in `s`, if there is one.
pub open spec fn first_bracket(s: Seq<char>) -> Option<int> {
    if exists|j: int| 0 <= j < s.len() && s[j] == '[' {
        Some(choose|j: int| 0 <= j < s.len() && s[j] == '[' && forall|k: int| 0 <= k < j ==> s[k] != '[')
    } else {
        None
    }
}

/// The page count to show: none when the raw count is empty or starts with
/// `0`; where it embeds a bracketed count of content pages, that count;
/// otherwise the raw count.
pub open spec fn shown_page_count(pages: Seq<char>) -> Seq<char> {
    if pages.len() == 0 || pages[0] == '0' {
        Seq::empty()
    } else {
        match first_bracket(pages) {
            Some(j) => bracket_inner(pages.subrange(j + 1, pages.len() as int)),
            None => pages,
        }
    }
}

/// The page part of a line, with the unit in singular for exactly `1`.
pub open spec fn page_info(count: Seq<char>) -> Seq<char> {
    if count.len() == 0 {
        Seq::empty()
    } else if count.len() == 1 && count[0] == '1' {
        count + " page - "@
    } else {
        count + " pages - "@
    }
}

/// The author to show.
pub open spec fn shown_author(author: Seq<char>) -> Seq<char> {
    if author.len() == 0 {
        "Unknown author"@
    } else {
        author
    }
}

/// The line for the record at position `i`, numbered from one:
/// `N. "title" by author, year (pages - format)`.
pub open spec fn listing_line(i: nat, r: RecordView) -> Seq<char> {
    decimal(i + 1) + ". \""@ + r.title + "\" by "@ + shown_author(r.author) + ", "@ + r.year
        + " ("@ + page_info(shown_page_count(r.page_count)) + r.file_format + ")"@
}

fn push_char_of(out: &mut String, s: &str, k: usize)
    requires
        k < s@.len(),
        k < usize::MAX,
    ensures
        final(out)@ == old(out)@.push(s@[k as int]),
{
    let one = s.substring_char(k, k + 1);
    out.append(one);
    assert(final(out)@ =~= old(out)@.push(s@[k as int]));
}

fn page_count_text(pages: &str) -> (r: String)
    ensures
        r@ == shown_page_count(pages@),
{
    let n = pages.unicode_len();
    if n == 0 || pages.get_char(0) == '0' {
        return String::new();
    }
    let mut j: usize = 0;
    while j < n && pages.get_char(j) != '['
        invariant
            n == pages@.len(),
            j <= n,
            forall|k: int| 0 <= k < j ==> pages@[k] != '[',
        decreases n - j,
    {
        j = j + 1;
    }
    if j == n {
        assert(first_bracket(pages@) is None);
        return String::from_str(pages);
    }
    assert(first_bracket(pages@) == Some(j as int)) by {
        let c = choose|c: int|
            0 <= c < pages@.len() && pages@[c] == '[' && forall|k: int| 0 <= k < c ==> pages@[k] != '[';
        assert(pages@[j as int] == '[');
        assert(c == j as int);
    }
    let ghost whole = pages@.subrange(j + 1, n as int);
    let mut out = String::new();
    let mut k: usize = j + 1;
    while k < n && pages.get_char(k) != '['
        invariant
            n == pages@.len(),
            j < k <= n,
            whole == pages@.subrange(j + 1, n as int),
            out@ + bracket_inner(pages@.subrange(k as int, n as int)) == bracket_inner(whole),
        decreases n - k,
    {
        let ghost rest = pages@.subrange(k as int, n as int);
        assert(rest.drop_first() =~= pages@.subrange(k + 1, n as int));
        let ghost before = out@;
        let c = pages.get_char(k);
        if c != ']' {
            push_char_of(&mut out, pages, k);
            assert(bracket_inner(rest) == seq![c] + bracket_inner(rest.drop_first()));
            assert(out@ + bracket_inner(rest.drop_first()) =~= before + bracket_inner(rest));
        }
        k = k + 1;
    }
    assert(bracket_inner(pages@.subrange(k as int, n as int)) =~= Seq::<char>::empty());
    assert(out@ =~= out@ + Seq::<char>::empty());
    out
}

fn listing_line_text(i: usize, r: &Record) -> (line: String)
    requires
        i < usize::MAX,
    ensures
        line@ == listing_line(i as nat, r@),
{
    let mut s = String::new();
    push_decimal(&mut s, (i as u64) + 1);
    s.append(". \"");
    s.append(r.title.as_str());
    s.append("\" by ");
    if r.author.as_str().unicode_len() == 0 {
        s.append("Unknown author");
    } else {
        s.append(r.author.as_str());
    }
    s.append(", ");
    s.append(r.year.as_str());
    s.append(" (");
    let count = page_count_text(r.page_count.as_str());
    let m = count.as_str().unicode_len();
    if m > 0 {
        s.append(count.as_str());
        if m == 1 && count.as_str().get_char(0) == '1' {
            s.append(" page - ");
        } else {
            s.append(" pages - ");
        }
    }
    s.append(r.file_format.as_str());
    s.append(")");
    assert(s@ =~= listing_line(i as nat, r@));
    s
}

/// The display lines of `results`, one per record and in the same order,
/// numbered from one.
pub fn stringify_search_results(results: &[Record]) -> (lines: Vec<String>)
    ensures
        lines@.len() == results@.len(),
        forall|k: int| 0 <= k < results@.len() ==> #[trigger] lines@[k]@ == listing_line(
            k as nat,
            results@[k]@,
        ),
{
    let mut lines: Vec<String> = Vec::new();
    let mut i: usize = 0;
    while i < results.len()
        invariant
            i <= results@.len(),
            lines@.len() == i,
            forall|k: int| 0 <= k < i ==> #[trigger] lines@[k]@ == listing_line(
                k as nat,
                results@[k]@,
            ),
        decreases results@.len() - i,
    {
        let line = listing_line_text(i, &results[i]);
        lines.push(line);
        i = i + 1;
    }
    lines
}


} // verus!
