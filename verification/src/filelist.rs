//! The file-list heuristic: purely syntactic inference, with no disk access,
//! that a multi-line payload is a list of filesystem paths.

use vstd::prelude::*;
use crate::text::{
    is_blank, is_alpha, is_alnum, prefix_of, trimmed, all_blank, line_seqs, sep_parts, count_if,
    trail_count, lemma_trail_count_is, lemma_count_if_push, chars_of, starts_with_lit,
    contains_char, trim_chars, all_blank_chars, split_lines, split_seps, alpha_char, alnum_char,
};

verus! {

// ---------------------------------------------------------------------------
// Specification
// ---------------------------------------------------------------------------

pub open spec fn not_dot_fn() -> spec_fn(char) -> bool {
    |c: char| c != '.'
}

/// The punctuation allowed inside a path segment besides alphanumerics.
pub open spec fn is_safe_punct(c: char) -> bool {
    c == ' ' || c == '.' || c == '-' || c == '_' || c == '(' || c == ')' || c == '[' || c == ']'
        || c == '{' || c == '}'
}

/// The text ends in `.` followed by one to five alphanumeric characters.
pub open spec fn ext_shape(t: Seq<char>) -> bool {
    let tr = trail_count(t, not_dot_fn());
    tr < t.len() && 1 <= tr <= 5 && (forall|k: int| t.len() - tr <= k < t.len() ==> is_alnum(t[k]))
}

pub open spec fn segment_ok(p: Seq<char>) -> bool {
    p.len() > 0 && p.len() <= 255 && (forall|k: int|
        0 <= k < p.len() ==> (is_alnum(p[k]) || is_safe_punct(p[k])))
}

/// Split on `/` and `\` gives at least two segments, all of a reasonable
/// shape.
pub open spec fn dir_structure_shape(t: Seq<char>) -> bool {
    let parts = sep_parts(t);
    parts.len() >= 2 && (forall|i: int| 0 <= i < parts.len() ==> segment_ok(parts[i]))
}

pub open spec fn win_abs_shape(t: Seq<char>) -> bool {
    t.len() >= 3 && is_alpha(t[0]) && t[1] == ':' && t[2] == '\\'
}

pub open spec fn unc_shape(t: Seq<char>) -> bool {
    prefix_of("\\\\"@, t) && t.len() > 2
}

pub open spec fn unix_abs_shape(t: Seq<char>) -> bool {
    t.len() > 1 && t[0] == '/'
}

pub open spec fn home_shape(t: Seq<char>) -> bool {
    prefix_of("~/"@, t)
}

/// A single line looks like a filesystem path.
pub open spec fn path_like(l: Seq<char>) -> bool {
    let t = trimmed(l);
    if t.len() == 0 {
        false
    } else if win_abs_shape(t) || unc_shape(t) || unix_abs_shape(t) || home_shape(t) {
        true
    } else if t.contains('/') || t.contains('\\') {
        ext_shape(t) || dir_structure_shape(t)
    } else {
        ext_shape(t)
    }
}

pub open spec fn nonblank_fn() -> spec_fn(Seq<char>) -> bool {
    |l: Seq<char>| !all_blank(l)
}

pub open spec fn pathlike_fn() -> spec_fn(Seq<char>) -> bool {
    |l: Seq<char>| path_like(l)
}

/// At least 80% of the lines, rounded up, must look like paths.
pub open spec fn list_threshold(n: nat) -> nat {
    ((4 * n + 4) / 5) as nat
}

/// The whole payload looks like a list of filesystem paths: discarding blank
/// lines, at least 80% (rounded up) of what remains is path-like. A line is
/// blank when it holds only ASCII whitespace (see `text::is_blank`): a line
/// of other Unicode spaces counts as a non-path line and weighs against the
/// threshold.
pub open spec fn file_list_shape(s: Seq<char>) -> bool {
    let ls = line_seqs(s);
    let ne = count_if(ls, nonblank_fn());
    let pc = count_if(ls, pathlike_fn());
    ne > 0 && pc >= list_threshold(ne) && pc > 0
}

// ---------------------------------------------------------------------------
// Executable heuristic
// ---------------------------------------------------------------------------

fn ext_shape_chars(t: &Vec<char>) -> (r: bool)
    ensures
        r == ext_shape(t@),
{
    let ghost p = not_dot_fn();
    let n = t.len();
    let mut j: usize = n;
    while j > 0 && t[j - 1] != '.'
        invariant
            p == not_dot_fn(),
            n == t@.len(),
            j <= n,
            forall|k: int| j <= k < n ==> t@[k] != '.',
        decreases j,
    {
        j -= 1;
    }
    proof {
        assert forall|k: int| j <= k < n implies p(t@[k]) by {
            assert(t@[k] != '.');
        }
        if j > 0 {
            assert(!p(t@[j - 1]));
        }
        lemma_trail_count_is(t@, p, j as int);
    }
    if j == 0 {
        // no dot anywhere: the trailing run is the whole text
        return false;
    }
    let tr = n - j;
    if !(1 <= tr && tr <= 5) {
        return false;
    }
    let mut k: usize = j;
    while k < n
        invariant
            n == t@.len(),
            trail_count(t@, not_dot_fn()) == n - j,
            1 <= n - j <= 5,
            j <= k <= n,
            forall|m: int| j <= m < k ==> is_alnum(t@[m]),
        decreases n - k,
    {
        if !alnum_char(t[k]) {
            return false;
        }
        k += 1;
    }
    true
}

fn safe_punct_char(c: char) -> (r: bool)
    ensures
        r == is_safe_punct(c),
{
    c == ' ' || c == '.' || c == '-' || c == '_' || c == '(' || c == ')' || c == '[' || c == ']'
        || c == '{' || c == '}'
}

fn segment_ok_chars(p: &Vec<char>) -> (r: bool)
    ensures
        r == segment_ok(p@),
{
    if p.len() == 0 || p.len() > 255 {
        return false;
    }
    let mut k: usize = 0;
    while k < p.len()
        invariant
            k <= p@.len(),
            forall|m: int| 0 <= m < k ==> (is_alnum(p@[m]) || is_safe_punct(p@[m])),
        decreases p@.len() - k,
    {
        if !(alnum_char(p[k]) || safe_punct_char(p[k])) {
            return false;
        }
        k += 1;
    }
    true
}

fn dir_structure_chars(t: &Vec<char>) -> (r: bool)
    ensures
        r == dir_structure_shape(t@),
{
    let parts = split_seps(t);
    if parts.len() < 2 {
        return false;
    }
    let mut i: usize = 0;
    while i < parts.len()
        invariant
            parts.deep_view() == sep_parts(t@),
            i <= parts@.len(),
            forall|k: int| 0 <= k < i ==> segment_ok(parts.deep_view()[k]),
        decreases parts@.len() - i,
    {
        if !segment_ok_chars(&parts[i]) {
            proof {
                assert(parts.deep_view()[i as int] == parts@[i as int]@);
            }
            return false;
        }
        proof {
            assert(parts.deep_view()[i as int] == parts@[i as int]@);
        }
        i += 1;
    }
    true
}

fn path_like_chars(v: &Vec<char>) -> (r: bool)
    ensures
        r == path_like(v@),
{
    let t = trim_chars(v);
    let n = t.len();
    if n == 0 {
        return false;
    }
    if n >= 3 && alpha_char(t[0]) && t[1] == ':' && t[2] == '\\' {
        return true;
    }
    if starts_with_lit(&t, "\\\\") && n > 2 {
        return true;
    }
    if t[0] == '/' && n > 1 {
        return true;
    }
    if starts_with_lit(&t, "~/") {
        return true;
    }
    let with_sep = contains_char(&t, '/') || contains_char(&t, '\\');
    if with_sep {
        ext_shape_chars(&t) || dir_structure_chars(&t)
    } else {
        ext_shape_chars(&t)
    }
}

/// Does this single line look like a filesystem path? Purely syntactic; the
/// filesystem is never consulted.
pub fn is_path_like(line: &str) -> (r: bool)
    ensures
        r == path_like(line@),
{
    let v = chars_of(line);
    path_like_chars(&v)
}

/// Does the text end in a short alphanumeric file extension?
pub fn has_file_extension(path: &str) -> (r: bool)
    ensures
        r == ext_shape(path@),
{
    let v = chars_of(path);
    ext_shape_chars(&v)
}

/// Does the text split on separators into at least two reasonable segments?
pub fn has_directory_structure(path: &str) -> (r: bool)
    ensures
        r == dir_structure_shape(path@),
{
    let v = chars_of(path);
    dir_structure_chars(&v)
}

/// File-list detection without disk access: after discarding blank lines
/// (lines of ASCII whitespace only), at least 80% (rounded up) of the
/// remaining lines must individually look like filesystem paths.
pub fn is_file_list(content: &str) -> (r: bool)
    ensures
        r == file_list_shape(content@),
{
    let v = chars_of(content);
    file_list_chars(&v)
}

pub fn file_list_chars(v: &Vec<char>) -> (r: bool)
    ensures
        r == file_list_shape(v@),
{
    let lines = split_lines(v);
    let ghost ls = line_seqs(v@);
    let mut ne: usize = 0;
    let mut pc: usize = 0;
    let mut i: usize = 0;
    while i < lines.len()
        invariant
            lines.deep_view() == ls,
            i <= lines@.len(),
            ne == count_if(ls.take(i as int), nonblank_fn()),
            pc == count_if(ls.take(i as int), pathlike_fn()),
            ne <= i,
            pc <= i,
        decreases lines@.len() - i,
    {
        let line = &lines[i];
        proof {
            assert(lines.deep_view()[i as int] == line@);
            assert(ls.take(i + 1) =~= ls.take(i as int).push(ls[i as int]));
            lemma_count_if_push(ls.take(i as int), nonblank_fn(), ls[i as int]);
            lemma_count_if_push(ls.take(i as int), pathlike_fn(), ls[i as int]);
            assert(nonblank_fn()(ls[i as int]) == !all_blank(line@));
            assert(pathlike_fn()(ls[i as int]) == path_like(line@));
        }
        if !all_blank_chars(line) {
            ne += 1;
        }
        if path_like_chars(line) {
            pc += 1;
        }
        i += 1;
    }
    proof {
        assert(ls.take(i as int) =~= ls);
    }
    if ne == 0 {
        return false;
    }
    let threshold = (4 * (ne as u128) + 4) / 5;
    pc as u128 >= threshold && pc > 0
}

} // verus!
