//! Line search: the query-matching core of a small grep.
//!
//! `build` parses the command line into a configuration, and `search`
//! returns, in order, every line of the input that contains the query.
//! A line ends at a line feed or at the end of the input; a carriage
//! return directly before a line feed is not part of the line.  Reading
//! the file and printing the matches stay with the caller.

use vstd::prelude::*;

verus! {

/// What to search for, and where: the parsed command line.
pub struct ParserConfig {
    pub query: String,
    pub file_path: String,
}

/// Parse a command line: the program name, then the file path, then the
/// query.  Fewer than three words is an error.
pub fn build(args: Vec<String>) -> (r: Result<ParserConfig, &'static str>)
    ensures
        args@.len() < 3 ==> (r matches Result::Err(m) && m@ == "invalid arguments"@),
        args@.len() >= 3 ==> (r matches Result::Ok(cfg) && cfg.file_path@ == args@[1]@
            && cfg.query@ == args@[2]@),
{
    if args.len() < 3 {
        return Result::Err("invalid arguments");
    }

    let file_path = args[1].clone();
    let query = args[2].clone();

    Result::Ok(ParserConfig { file_path, query })
}

/// The index of the first line feed, or the length if there is none.
pub open spec fn first_newline(s: Seq<char>) -> int
    decreases s.len(),
{
    if s.len() == 0 {
        0
    } else if s[0] == '\n' {
        0
    } else {
        1 + first_newline(s.subrange(1, s.len() as int))
    }
}

/// A segment without its trailing carriage return, if it has one.
pub open spec fn strip_cr(l: Seq<char>) -> Seq<char> {
    if l.len() > 0 && l[l.len() - 1] == '\r' {
        l.subrange(0, l.len() - 1)
    } else {
        l
    }
}

/// The lines of a text: split at line feeds, each segment before a line
/// feed stripped of a trailing carriage return, with no empty line after
/// a trailing line feed.
pub open spec fn spec_lines(s: Seq<char>) -> Seq<Seq<char>>
    decreases s.len(),
    via spec_lines_decreases
{
    if s.len() == 0 {
        Seq::empty()
    } else {
        let i = first_newline(s);
        if i == s.len() {
            seq![s]
        } else {
            seq![strip_cr(s.subrange(0, i))] + spec_lines(s.subrange(i + 1, s.len() as int))
        }
    }
}

/// The needle occurs contiguously somewhere in the haystack.
pub open spec fn is_substring(hay: Seq<char>, needle: Seq<char>) -> bool {
    exists|i: int|
        0 <= i <= hay.len() - needle.len() && #[trigger] hay.subrange(i, i + needle.len())
            == needle
}

/// The lines of the text that contain the query, in order.
pub open spec fn matching_lines(s: Seq<char>, q: Seq<char>) -> Seq<Seq<char>> {
    spec_lines(s).filter(|l: Seq<char>| is_substring(l, q))
}

#[via_fn]
proof fn spec_lines_decreases(s: Seq<char>) {
    lemma_first_newline(s);
}

/// `first_newline` points at the first line feed: everything before it
/// is another character, and it is a line feed unless the text ends.
proof fn lemma_first_newline(s: Seq<char>)
    ensures
        0 <= first_newline(s) <= s.len(),
        first_newline(s) < s.len() ==> s[first_newline(s)] == '\n',
        forall|j: int| 0 <= j < first_newline(s) ==> s[j] != '\n',
    decreases s.len(),
{
    if s.len() > 0 && s[0] != '\n' {
        let tail = s.subrange(1, s.len() as int);
        lemma_first_newline(tail);
        assert forall|j: int| 0 <= j < first_newline(s) implies s[j] != '\n' by {
            if j > 0 {
                assert(s[j] == tail[j - 1]);
            }
        }
    }
}

/// Any index with the same two properties is `first_newline`.
proof fn lemma_first_newline_unique(s: Seq<char>, i: int)
    requires
        0 <= i <= s.len(),
        i < s.len() ==> s[i] == '\n',
        forall|j: int| 0 <= j < i ==> s[j] != '\n',
    ensures
        i == first_newline(s),
{
    lemma_first_newline(s);
    let f = first_newline(s);
    if i < f {
        assert(s[i] != '\n');
    } else if f < i {
        assert(s[f] != '\n');
    }
}

/// Split a text into its lines, as slices of the original buffer.
fn split_lines<'a>(s: &'a str) -> (r: Vec<&'a str>)
    ensures
        r@.len() == spec_lines(s@).len(),
        forall|i: int| 0 <= i < r@.len() ==> (#[trigger] r@[i])@ == spec_lines(s@)[i],
    decreases s@.len(),
{
    let n = s.unicode_len();
    if n == 0 {
        return Vec::new();
    }
    let mut i: usize = 0;
    while i < n && s.get_char(i) != '\n'
        invariant
            i <= n,
            n == s@.len(),
            forall|j: int| 0 <= j < i ==> s@[j] != '\n',
        decreases n - i,
    {
        i = i + 1;
    }
    proof {
        lemma_first_newline_unique(s@, i as int);
    }
    if i == n {
        let mut r: Vec<&'a str> = Vec::new();
        r.push(s);
        return r;
    }
    let line = if i > 0 && s.get_char(i - 1) == '\r' {
        s.substring_char(0, i - 1)
    } else {
        s.substring_char(0, i)
    };
    proof {
        assert(line@ == strip_cr(s@.subrange(0, i as int)));
    }
    let rest = s.substring_char(i + 1, n);
    let mut r = split_lines(rest);
    r.insert(0, line);
    proof {
        let expected = spec_lines(s@);
        assert(expected == seq![strip_cr(s@.subrange(0, i as int))] + spec_lines(rest@));
        assert forall|j: int| 0 <= j < r@.len() implies (#[trigger] r@[j])@ == expected[j] by {
            if j > 0 {
                assert(r@[j]@ == spec_lines(rest@)[j - 1]);
            }
        }
    }
    r
}

/// Whether the needle occurs in the haystack, by direct scan.
fn str_contains(hay: &str, needle: &str) -> (b: bool)
    ensures
        b == is_substring(hay@, needle@),
{
    let n = hay.unicode_len();
    let m = needle.unicode_len();
    if m > n {
        return false;
    }
    let mut i: usize = 0;
    while i <= n - m
        invariant
            m <= n,
            n == hay@.len(),
            m == needle@.len(),
            i <= n - m + 1,
            forall|ip: int|
                0 <= ip < i ==> #[trigger] hay@.subrange(ip, ip + needle@.len()) != needle@,
        decreases n + 1 - m - i,
    {
        let mut j: usize = 0;
        while j < m && hay.get_char(i + j) == needle.get_char(j)
            invariant
                m <= n,
                n == hay@.len(),
                m == needle@.len(),
                i <= n - m,
                j <= m,
                forall|jp: int| 0 <= jp < j ==> hay@[i + jp] == needle@[jp],
            decreases m - j,
        {
            j = j + 1;
        }
        if j == m {
            proof {
                assert(hay@.subrange(i as int, i + needle@.len()) =~= needle@);
            }
            return true;
        }
        proof {
            assert(hay@.subrange(i as int, i + needle@.len()) != needle@) by {
                assert(hay@.subrange(i as int, i + needle@.len())[j as int] != needle@[j as int]);
            }
        }
        i = i + 1;
    }
    false
}

/// Every line of the contents that contains the query, in order.
pub fn search<'a>(query: &str, contents: &'a String) -> (r: Vec<&'a str>)
    ensures
        r@.len() == matching_lines(contents@, query@).len(),
        forall|i: int|
            0 <= i < r@.len() ==> (#[trigger] r@[i])@ == matching_lines(contents@, query@)[i],
{
    broadcast use Seq::lemma_filter_push;

    let lines = split_lines(contents.as_str());
    let ghost pred = |l: Seq<char>| is_substring(l, query@);
    let ghost line_views = lines@.map_values(|l: &str| l@);
    let mut r: Vec<&'a str> = Vec::new();
    let mut i: usize = 0;
    proof {
        assert(line_views.take(0) =~= Seq::<Seq<char>>::empty());
        assert(Seq::<Seq<char>>::empty().filter(pred) =~= Seq::<Seq<char>>::empty()) by {
            reveal(Seq::filter);
        }
    }
    while i < lines.len()
        invariant
            i <= lines@.len(),
            line_views == lines@.map_values(|l: &str| l@),
            pred == (|l: Seq<char>| is_substring(l, query@)),
            forall|j: int| 0 <= j < lines@.len() ==> (#[trigger] lines@[j])@ == line_views[j],
            r@.len() == line_views.take(i as int).filter(pred).len(),
            forall|j: int|
                0 <= j < r@.len() ==> (#[trigger] r@[j])@ == line_views.take(i as int).filter(
                    pred,
                )[j],
        decreases lines@.len() - i,
    {
        let line = lines[i];
        let is_match = str_contains(line, query);
        if is_match {
            r.push(line);
        }
        proof {
            let prefix = line_views.take(i as int);
            assert(line_views.take(i as int + 1) =~= prefix.push(line@));
            prefix.lemma_filter_push(line@, pred);
            assert(is_match == pred(line@));
        }
        i = i + 1;
    }
    proof {
        assert(line_views.take(lines@.len() as int) =~= line_views);
        assert(matching_lines(contents@, query@) == spec_lines(contents@).filter(pred));
        assert(line_views =~= spec_lines(contents@));
    }
    r
}

} // verus!
