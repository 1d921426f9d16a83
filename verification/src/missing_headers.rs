//! The compiler lines that report a missing header,
//! `fatal error: <header>.h: No such file or directory`, found in compiler
//! output the way a regular-expression search finds them: at each position
//! from left to right, the first match, then the search goes on after it.
//! `<header>` is a run of characters that are not Unicode white space.
use crate::text::{chars_occur_at, occurs_at, str_chars, string_of_chars};
use vstd::prelude::*;

verus! {

/// Unicode white space (the `White_Space` property).
pub open spec fn is_white_space(c: char) -> bool {
    ||| ('\t' <= c && c <= '\r')
    ||| c == ' '
    ||| c == '\u{85}'
    ||| c == '\u{a0}'
    ||| c == '\u{1680}'
    ||| ('\u{2000}' <= c && c <= '\u{200a}')
    ||| c == '\u{2028}'
    ||| c == '\u{2029}'
    ||| c == '\u{202f}'
    ||| c == '\u{205f}'
    ||| c == '\u{3000}'
}

/// What a missing-header line starts with.
pub open spec fn header_prefix() -> Seq<char> {
    "fatal error: "@
}

/// What follows the header name on a missing-header line.
pub open spec fn header_suffix() -> Seq<char> {
    ".h: No such file or directory"@
}

/// Where the run of non-white-space characters of `s` that starts at `j`
/// ends.
pub open spec fn run_end(s: Seq<char>, j: int) -> int
    decreases s.len() - j,
{
    if j < 0 || j >= s.len() {
        j
    } else if is_white_space(s[j]) {
        j
    } else {
        run_end(s, j + 1)
    }
}

/// Where the header name of a line starting at `i` ends: three characters
/// (`.h:`) before the end of the run that starts after the prefix.
pub open spec fn header_end(s: Seq<char>, i: int) -> int {
    run_end(s, i + header_prefix().len()) - 3
}

/// A missing-header line starts at `i`: the prefix, a non-empty header name
/// of non-white-space characters, then the suffix.
pub open spec fn header_line_at(s: Seq<char>, i: int) -> bool {
    &&& occurs_at(s, header_prefix(), i)
    &&& i + header_prefix().len() < header_end(s, i)
    &&& occurs_at(s, header_suffix(), header_end(s, i))
}

/// The header name of the line starting at `i`.
pub open spec fn header_name(s: Seq<char>, i: int) -> Seq<char> {
    s.subrange(i + header_prefix().len(), header_end(s, i))
}

/// Where the line starting at `i` ends.
pub open spec fn header_line_end(s: Seq<char>, i: int) -> int {
    header_end(s, i) + header_suffix().len()
}

/// The header names of the missing-header lines from position `pos` on, in
/// order: the first line that starts at or after `pos`, then those after
/// it.
pub open spec fn header_names_from(s: Seq<char>, pos: int) -> Seq<Seq<char>>
    decreases s.len() - pos,
{
    if pos < 0 || pos >= s.len() {
        Seq::empty()
    } else if header_line_at(s, pos) {
        seq![header_name(s, pos)] + header_names_from(s, header_line_end(s, pos))
    } else {
        header_names_from(s, pos + 1)
    }
}

/// The header names reported in `s`, each as a captured group.
pub open spec fn header_captures(s: Seq<char>) -> Seq<Option<Seq<char>>> {
    header_names_from(s, 0).map_values(|h: Seq<char>| Some(h))
}

/// Whether `c` is Unicode white space.
fn white_space(c: char) -> (b: bool)
    ensures
        b == is_white_space(c),
{
    ('\t' <= c && c <= '\r') || c == ' ' || c == '\u{85}' || c == '\u{a0}' || c == '\u{1680}' || ('\u{2000}'
        <= c && c <= '\u{200a}') || c == '\u{2028}' || c == '\u{2029}' || c == '\u{202f}' || c == '\u{205f}'
        || c == '\u{3000}'
}

/// Where the run of non-white-space characters starting at `j` ends.
fn run_end_at(s: &Vec<char>, j: usize) -> (e: usize)
    requires
        j <= s@.len(),
    ensures
        e == run_end(s@, j as int),
        j <= e <= s@.len(),
{
    let mut k = j;
    while k < s.len() && !white_space(s[k])
        invariant
            j <= k <= s@.len(),
            run_end(s@, j as int) == run_end(s@, k as int),
        decreases s@.len() - k,
    {
        k = k + 1;
    }
    k
}

/// The end of the header name when a missing-header line starts at `i`.
fn header_line_at_exec(s: &Vec<char>, prefix: &Vec<char>, suffix: &Vec<char>, i: usize) -> (r: Option<usize>)
    requires
        i < s@.len(),
        prefix@ == header_prefix(),
        suffix@ == header_suffix(),
    ensures
        r is Some <==> header_line_at(s@, i as int),
        r matches Some(e) ==> e == header_end(s@, i as int),
{
    if prefix.len() > s.len() - i {
        return None;
    }
    if !chars_occur_at(s, prefix, i) {
        return None;
    }
    let run = run_end_at(s, i + prefix.len());
    if run < 3 || run - 3 <= i + prefix.len() {
        return None;
    }
    let e = run - 3;
    if suffix.len() > s.len() - e {
        return None;
    }
    if !chars_occur_at(s, suffix, e) {
        return None;
    }
    Some(e)
}

/// The header names reported in compiler output, in order of appearance.
pub fn scan_header_names(output: &str) -> (names: Vec<Option<String>>)
    ensures
        names.deep_view() == header_captures(output@),
{
    let s = str_chars(output);
    let prefix = str_chars("fatal error: ");
    let suffix = str_chars(".h: No such file or directory");
    proof {
        reveal_strlit("fatal error: ");
        reveal_strlit(".h: No such file or directory");
    }
    let mut names: Vec<Option<String>> = Vec::new();
    let mut pos: usize = 0;
    while pos < s.len()
        invariant
            s@ == output@,
            prefix@ == header_prefix(),
            suffix@ == header_suffix(),
            pos <= s@.len(),
            names.deep_view() + header_names_from(s@, pos as int).map_values(|h: Seq<char>| Some(h))
                == header_captures(s@),
        decreases s@.len() - pos,
    {
        let ghost before = names.deep_view();
        let ghost rest = header_names_from(s@, pos as int);
        match header_line_at_exec(&s, &prefix, &suffix, pos) {
            Some(e) => {
                let name = string_of_chars(&s, pos + prefix.len(), e);
                let next = e + suffix.len();
                names.push(Some(name));
                proof {
                    let tail = header_names_from(s@, next as int);
                    assert(rest == seq![header_name(s@, pos as int)] + tail);
                    assert(names.deep_view() =~= before.push(Some(header_name(s@, pos as int))));
                    assert(rest.map_values(|h: Seq<char>| Some(h)) =~= seq![Some(header_name(s@, pos as int))]
                        + tail.map_values(|h: Seq<char>| Some(h)));
                    assert(names.deep_view() + tail.map_values(|h: Seq<char>| Some(h)) =~= before
                        + rest.map_values(|h: Seq<char>| Some(h)));
                }
                pos = next;
            },
            None => {
                assert(rest == header_names_from(s@, pos + 1));
                pos = pos + 1;
            },
        }
    }
    proof {
        assert(header_names_from(s@, pos as int) =~= Seq::<Seq<char>>::empty());
        assert(names.deep_view() =~= names.deep_view() + header_names_from(s@, pos as int).map_values(
            |h: Seq<char>| Some(h),
        ));
    }
    names
}


/// The run starting at `j` lies within `s`, holds no white space, and ends
/// at white space or at the end of `s`.
proof fn run_end_bounds(s: Seq<char>, j: int)
    requires
        0 <= j <= s.len(),
    ensures
        j <= run_end(s, j) <= s.len(),
        forall|k: int| j <= k < run_end(s, j) ==> !is_white_space(#[trigger] s[k]),
    decreases s.len() - j,
{
    if j < s.len() && !is_white_space(s[j]) {
        run_end_bounds(s, j + 1);
    }
}

/// Two missing-header lines never overlap: a line that starts after
/// another starts at or after the other's end.
pub proof fn header_lines_do_not_overlap(s: Seq<char>, f: int, i: int)
    requires
        header_line_at(s, f),
        header_line_at(s, i),
        f < i,
    ensures
        header_line_end(s, f) <= i,
{
    reveal_strlit("fatal error: ");
    reveal_strlit(".h: No such file or directory");
    let p = header_prefix();
    let q = header_suffix();
    let e = header_end(s, f);
    run_end_bounds(s, f + 13);
    assert(p.len() == 13);
    assert(q.len() == 29);
    assert(s.subrange(i, i + 13) == p);
    assert(s.subrange(e, e + 29) == q);
    assert(s[i] == p[0]);
    assert(s[i + 1] == p[1]);
    assert(s[i + 5] == p[5]);
    if i < e + 29 {
        if i < f + 13 {
            assert(s.subrange(f, f + 13) == p);
            assert(s[i] == p[i - f]);
            assert(false);
        } else if i < e - 2 {
            assert(!is_white_space(s[i + 5]));
            assert(false);
        } else if i < e {
            assert(s[e] == p[e - i]);
            assert(s[e] == q[0]);
            assert(false);
        } else {
            assert(s[i] == q[i - e]);
            if i - e == 12 {
                assert(s[i + 1] == q[13]);
            }
            assert(false);
        }
    }
}

/// A missing-header line lies within `s`.
proof fn header_line_within(s: Seq<char>, i: int)
    requires
        header_line_at(s, i),
    ensures
        0 <= i < s.len(),
        i < header_line_end(s, i) <= s.len(),
{
    reveal_strlit("fatal error: ");
    reveal_strlit(".h: No such file or directory");
}

/// Every missing-header line at or after `pos` is found by the search that
/// starts at `pos`.
pub proof fn every_header_line_is_found(s: Seq<char>, pos: int, i: int)
    requires
        0 <= pos <= i,
        header_line_at(s, i),
    ensures
        header_names_from(s, pos).contains(header_name(s, i)),
    decreases s.len() - pos,
{
    header_line_within(s, i);
    let found = header_names_from(s, pos);
    if pos == i {
        assert(found[0] == header_name(s, i));
    } else if header_line_at(s, pos) {
        header_lines_do_not_overlap(s, pos, i);
        header_line_within(s, pos);
        let next = header_line_end(s, pos);
        every_header_line_is_found(s, next, i);
        let tail = header_names_from(s, next);
        let k = choose|k: int| 0 <= k < tail.len() && tail[k] == header_name(s, i);
        assert(found[k + 1] == tail[k]);
    } else {
        every_header_line_is_found(s, pos + 1, i);
    }
}

/// Every header name the search finds is that of a missing-header line:
/// the `k`-th name found from `pos` is the name of the line at the result.
pub proof fn found_header_is_a_line(s: Seq<char>, pos: int, k: int) -> (i: int)
    requires
        0 <= k < header_names_from(s, pos).len(),
    ensures
        pos <= i,
        header_line_at(s, i),
        header_names_from(s, pos)[k] == header_name(s, i),
    decreases s.len() - pos,
{
    if pos < 0 || pos >= s.len() {
        assert(header_names_from(s, pos) =~= Seq::<Seq<char>>::empty());
        pos
    } else if header_line_at(s, pos) {
        header_line_within(s, pos);
        let next = header_line_end(s, pos);
        if k == 0 {
            pos
        } else {
            assert(header_names_from(s, pos)[k] == header_names_from(s, next)[k - 1]);
            found_header_is_a_line(s, next, k - 1)
        }
    } else {
        found_header_is_a_line(s, pos + 1, k)
    }
}

} // verus!
