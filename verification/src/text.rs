//! Character-level utilities shared by the classifier: predicates on
//! characters, prefix and substring tests, trimming, line splitting and
//! decimal/hexadecimal rendering, all specified over `Seq<char>`.

use vstd::prelude::*;
use vstd::string::StrSliceExecFns;

verus! {

// ---------------------------------------------------------------------------
// Character predicates
// ---------------------------------------------------------------------------

/// ASCII whitespace, the set used for trimming and blank-line detection.
/// This is a deliberate modelling choice: only these four characters count
/// as blank anywhere in the library, so a line of exotic Unicode spaces
/// counts as content, not as a blank line.
pub open spec fn is_blank(c: char) -> bool {
    c == ' ' || c == '\t' || c == '\n' || c == '\r'
}

pub open spec fn is_digit(c: char) -> bool {
    48 <= c as u32 <= 57
}

pub open spec fn is_alpha(c: char) -> bool {
    (65 <= c as u32 <= 90) || (97 <= c as u32 <= 122)
}

pub open spec fn is_alnum(c: char) -> bool {
    is_digit(c) || is_alpha(c)
}

pub fn blank_char(c: char) -> (r: bool)
    ensures
        r == is_blank(c),
{
    c == ' ' || c == '\t' || c == '\n' || c == '\r'
}

pub fn digit_char(c: char) -> (r: bool)
    ensures
        r == is_digit(c),
{
    let u = c as u32;
    48 <= u && u <= 57
}

pub fn alpha_char(c: char) -> (r: bool)
    ensures
        r == is_alpha(c),
{
    let u = c as u32;
    (65 <= u && u <= 90) || (97 <= u && u <= 122)
}

pub fn alnum_char(c: char) -> (r: bool)
    ensures
        r == is_alnum(c),
{
    digit_char(c) || alpha_char(c)
}

// ---------------------------------------------------------------------------
// From &str to a vector of characters
// ---------------------------------------------------------------------------

pub fn chars_of(s: &str) -> (v: Vec<char>)
    ensures
        v@ == s@,
{
    let n = s.unicode_len();
    let mut v: Vec<char> = Vec::new();
    let mut i: usize = 0;
    while i < n
        invariant
            n == s@.len(),
            i <= n,
            v@ == s@.take(i as int),
        decreases n - i,
    {
        v.push(s.get_char(i));
        i += 1;
        proof {
            assert(s@.take(i as int) =~= s@.take(i - 1).push(s@[i - 1]));
        }
    }
    proof {
        assert(v@ =~= s@);
    }
    v
}

// ---------------------------------------------------------------------------
// Prefix and substring tests
// ---------------------------------------------------------------------------

pub open spec fn prefix_of(p: Seq<char>, s: Seq<char>) -> bool {
    p.len() <= s.len() && s.subrange(0, p.len() as int) == p
}

/// `p` occurs in `s` starting at index `i`.
pub open spec fn occurs_at(s: Seq<char>, p: Seq<char>, i: int) -> bool {
    0 <= i && i + p.len() <= s.len() && s.subrange(i, i + p.len() as int) == p
}

pub open spec fn has_sub(s: Seq<char>, p: Seq<char>) -> bool {
    exists|i: int| occurs_at(s, p, i)
}

/// Does `v` start with the characters of the (usually literal) pattern `p`?
pub fn starts_with_lit(v: &Vec<char>, p: &str) -> (r: bool)
    ensures
        r == prefix_of(p@, v@),
{
    let pn = p.unicode_len();
    if pn > v.len() {
        return false;
    }
    let mut i: usize = 0;
    while i < pn
        invariant
            pn == p@.len(),
            pn <= v@.len(),
            i <= pn,
            forall|k: int| 0 <= k < i ==> v@[k] == p@[k],
        decreases pn - i,
    {
        if v[i] != p.get_char(i) {
            proof {
                assert(v@.subrange(0, pn as int)[i as int] == v@[i as int]);
            }
            return false;
        }
        i += 1;
    }
    proof {
        assert(v@.subrange(0, pn as int) =~= p@);
    }
    true
}

/// Does `p` occur in `v` starting at `at`?
pub fn matches_at(v: &Vec<char>, p: &str, at: usize) -> (r: bool)
    requires
        at + p@.len() <= v@.len(),
    ensures
        r == occurs_at(v@, p@, at as int),
{
    let pn = p.unicode_len();
    let n = v.len();
    let mut i: usize = 0;
    while i < pn
        invariant
            pn == p@.len(),
            n == v@.len(),
            at + pn <= n,
            i <= pn,
            forall|k: int| 0 <= k < i ==> v@[at + k] == p@[k],
        decreases pn - i,
    {
        if v[at + i] != p.get_char(i) {
            proof {
                assert(v@.subrange(at as int, at + pn as int)[i as int] == v@[at + i]);
            }
            return false;
        }
        i += 1;
    }
    proof {
        assert(v@.subrange(at as int, at + pn as int) =~= p@);
    }
    true
}

/// Does the (usually literal) pattern `p` occur anywhere in `v`?
pub fn contains_lit(v: &Vec<char>, p: &str) -> (r: bool)
    ensures
        r == has_sub(v@, p@),
{
    let pn = p.unicode_len();
    if pn > v.len() {
        proof {
            assert(forall|i: int| !occurs_at(v@, p@, i));
        }
        return false;
    }
    if pn == 0 {
        proof {
            assert(v@.subrange(0, 0) =~= p@);
            assert(occurs_at(v@, p@, 0));
        }
        return true;
    }
    let count = v.len() - pn + 1;
    let mut at: usize = 0;
    while at < count
        invariant
            pn == p@.len(),
            1 <= pn <= v@.len(),
            count == v@.len() - pn + 1,
            at <= count,
            forall|i: int| 0 <= i < at ==> !occurs_at(v@, p@, i),
        decreases count - at,
    {
        if matches_at(v, p, at) {
            return true;
        }
        at += 1;
    }
    proof {
        assert(forall|i: int| occurs_at(v@, p@, i) ==> 0 <= i < count);
    }
    false
}

// ---------------------------------------------------------------------------
// Leading / trailing runs and trimming
// ---------------------------------------------------------------------------

/// Length of the longest prefix of `s` whose characters all satisfy `p`.
pub open spec fn lead_count(s: Seq<char>, p: spec_fn(char) -> bool) -> nat
    decreases s.len(),
{
    if s.len() == 0 || !p(s[0]) {
        0
    } else {
        (1 + lead_count(s.drop_first(), p)) as nat
    }
}

/// Length of the longest suffix of `s` whose characters all satisfy `p`.
pub open spec fn trail_count(s: Seq<char>, p: spec_fn(char) -> bool) -> nat
    decreases s.len(),
{
    if s.len() == 0 || !p(s.last()) {
        0
    } else {
        (1 + trail_count(s.drop_last(), p)) as nat
    }
}

/// The exact run length is pinned down by a scan that stopped at `i`.
pub proof fn lemma_lead_count_is(s: Seq<char>, p: spec_fn(char) -> bool, i: int)
    requires
        0 <= i <= s.len(),
        forall|k: int| 0 <= k < i ==> p(s[k]),
        i < s.len() ==> !p(s[i]),
    ensures
        lead_count(s, p) == i,
    decreases s.len(),
{
    if i == 0 {
    } else {
        assert(p(s[0]));
        assert forall|k: int| 0 <= k < i - 1 implies p(s.drop_first()[k]) by {
            assert(s.drop_first()[k] == s[k + 1]);
        }
        if i - 1 < s.drop_first().len() {
            assert(s.drop_first()[i - 1] == s[i]);
        }
        lemma_lead_count_is(s.drop_first(), p, i - 1);
    }
}

pub proof fn lemma_trail_count_is(s: Seq<char>, p: spec_fn(char) -> bool, j: int)
    requires
        0 <= j <= s.len(),
        forall|k: int| j <= k < s.len() ==> p(s[k]),
        j > 0 ==> !p(s[j - 1]),
    ensures
        trail_count(s, p) == s.len() - j,
    decreases s.len(),
{
    if j == s.len() {
        if s.len() > 0 {
            assert(!p(s.last()));
        }
    } else {
        assert(p(s.last()));
        assert forall|k: int| j <= k < s.drop_last().len() implies p(s.drop_last()[k]) by {
            assert(s.drop_last()[k] == s[k]);
        }
        if j > 0 {
            assert(s.drop_last()[j - 1] == s[j - 1]);
        }
        lemma_trail_count_is(s.drop_last(), p, j);
    }
}

pub open spec fn blank_fn() -> spec_fn(char) -> bool {
    |c: char| is_blank(c)
}

pub open spec fn dash_fn() -> spec_fn(char) -> bool {
    |c: char| c == '-'
}

/// `s` with the characters satisfying `p` removed from both ends.
pub open spec fn trim_while(s: Seq<char>, p: spec_fn(char) -> bool) -> Seq<char> {
    if lead_count(s, p) == s.len() {
        Seq::empty()
    } else {
        s.subrange(lead_count(s, p) as int, s.len() - trail_count(s, p))
    }
}

/// `s` with ASCII whitespace removed from both ends.
pub open spec fn trimmed(s: Seq<char>) -> Seq<char> {
    trim_while(s, blank_fn())
}

pub open spec fn all_blank(s: Seq<char>) -> bool {
    forall|k: int| 0 <= k < s.len() ==> is_blank(s[k])
}

/// Bounds of `v` with ASCII whitespace scanned off both ends.
fn trim_blank_range(v: &Vec<char>) -> (r: (usize, usize))
    ensures
        r.0 <= r.1 <= v@.len(),
        v@.subrange(r.0 as int, r.1 as int) == trim_while(v@, blank_fn()),
{
    let ghost p = blank_fn();
    let n = v.len();
    let mut i: usize = 0;
    while i < n && blank_char(v[i])
        invariant
            p == blank_fn(),
            n == v@.len(),
            i <= n,
            forall|k: int| 0 <= k < i ==> p(v@[k]),
        decreases n - i,
    {
        i += 1;
        proof {
            assert(p(v@[i - 1]) == is_blank(v@[i - 1]));
        }
    }
    proof {
        if i < n {
            assert(p(v@[i as int]) == is_blank(v@[i as int]));
        }
        lemma_lead_count_is(v@, p, i as int);
    }
    if i == n {
        proof {
            assert(v@.subrange(0, 0) =~= Seq::<char>::empty());
        }
        return (0, 0);
    }
    let mut j: usize = n;
    while j > i + 1 && blank_char(v[j - 1])
        invariant
            p == blank_fn(),
            n == v@.len(),
            i < n,
            i + 1 <= j <= n,
            forall|k: int| j <= k < n ==> p(v@[k]),
        decreases j,
    {
        j -= 1;
        proof {
            assert(p(v@[j as int]) == is_blank(v@[j as int]));
        }
    }
    proof {
        assert(p(v@[j - 1]) == is_blank(v@[j - 1]));
        assert(!p(v@[j - 1]));
        lemma_trail_count_is(v@, p, j as int);
    }
    (i, j)
}

/// Copy of `v[a..b]`.
pub fn copy_range(v: &Vec<char>, a: usize, b: usize) -> (r: Vec<char>)
    requires
        a <= b <= v@.len(),
    ensures
        r@ == v@.subrange(a as int, b as int),
{
    let mut r: Vec<char> = Vec::new();
    let mut i: usize = a;
    while i < b
        invariant
            a <= i <= b <= v@.len(),
            r@ == v@.subrange(a as int, i as int),
        decreases b - i,
    {
        r.push(v[i]);
        i += 1;
        proof {
            assert(v@.subrange(a as int, i as int) =~= v@.subrange(a as int, i - 1).push(
                v@[i - 1],
            ));
        }
    }
    r
}

/// Copy of `v` with ASCII whitespace removed from both ends.
pub fn trim_chars(v: &Vec<char>) -> (r: Vec<char>)
    ensures
        r@ == trimmed(v@),
{
    let (a, b) = trim_blank_range(v);
    copy_range(v, a, b)
}

/// Bounds of `v` with dashes scanned off both ends.
fn trim_dash_range(v: &Vec<char>) -> (r: (usize, usize))
    ensures
        r.0 <= r.1 <= v@.len(),
        v@.subrange(r.0 as int, r.1 as int) == trim_while(v@, dash_fn()),
{
    let ghost p = dash_fn();
    let n = v.len();
    let mut i: usize = 0;
    while i < n && v[i] == '-'
        invariant
            p == dash_fn(),
            n == v@.len(),
            i <= n,
            forall|k: int| 0 <= k < i ==> p(v@[k]),
        decreases n - i,
    {
        i += 1;
        proof {
            assert(p(v@[i - 1]) == (v@[i - 1] == '-'));
        }
    }
    proof {
        if i < n {
            assert(p(v@[i as int]) == (v@[i as int] == '-'));
        }
        lemma_lead_count_is(v@, p, i as int);
    }
    if i == n {
        proof {
            assert(v@.subrange(0, 0) =~= Seq::<char>::empty());
        }
        return (0, 0);
    }
    let mut j: usize = n;
    while j > i + 1 && v[j - 1] == '-'
        invariant
            p == dash_fn(),
            n == v@.len(),
            i < n,
            i + 1 <= j <= n,
            forall|k: int| j <= k < n ==> p(v@[k]),
        decreases j,
    {
        j -= 1;
        proof {
            assert(p(v@[j as int]) == (v@[j as int] == '-'));
        }
    }
    proof {
        assert(p(v@[j - 1]) == (v@[j - 1] == '-'));
        assert(!p(v@[j - 1]));
        lemma_trail_count_is(v@, p, j as int);
    }
    (i, j)
}

/// Copy of `v` with dashes removed from both ends.
pub fn trim_dashes(v: &Vec<char>) -> (r: Vec<char>)
    ensures
        r@ == trim_while(v@, dash_fn()),
{
    let (a, b) = trim_dash_range(v);
    copy_range(v, a, b)
}

/// Is every character of `v` ASCII whitespace? (True for the empty vector.)
pub fn all_blank_chars(v: &Vec<char>) -> (r: bool)
    ensures
        r == all_blank(v@),
{
    let mut i: usize = 0;
    while i < v.len()
        invariant
            i <= v@.len(),
            forall|k: int| 0 <= k < i ==> is_blank(v@[k]),
        decreases v@.len() - i,
    {
        if !blank_char(v[i]) {
            return false;
        }
        i += 1;
    }
    true
}

// ---------------------------------------------------------------------------
// Splitting into lines and into path segments
// ---------------------------------------------------------------------------

pub open spec fn not_nl_fn() -> spec_fn(char) -> bool {
    |c: char| c != '\n'
}

pub open spec fn not_sep_fn() -> spec_fn(char) -> bool {
    |c: char| c != '/' && c != '\\'
}

/// A line with a trailing carriage return removed, as `str::lines` does.
pub open spec fn strip_cr(l: Seq<char>) -> Seq<char> {
    if l.len() > 0 && l.last() == '\r' {
        l.drop_last()
    } else {
        l
    }
}

/// The lines of `s`, split as `str::lines` splits: on `'\n'`, with a
/// trailing `'\r'` removed from each line and no empty line after a final
/// newline.
pub open spec fn line_seqs(s: Seq<char>) -> Seq<Seq<char>>
    decreases s.len(),
{
    if s.len() == 0 {
        Seq::empty()
    } else {
        let i = lead_count(s, not_nl_fn());
        if i >= s.len() {
            seq![strip_cr(s)]
        } else {
            seq![strip_cr(s.take(i as int))] + line_seqs(s.skip(i as int + 1))
        }
    }
}

/// The segments of `s` split on `'/'` and `'\\'`, as `str::split` splits:
/// empty segments are kept, and the result is never empty.
pub open spec fn sep_parts(s: Seq<char>) -> Seq<Seq<char>>
    decreases s.len(),
{
    let i = lead_count(s, not_sep_fn());
    if i >= s.len() {
        seq![s]
    } else {
        seq![s.take(i as int)] + sep_parts(s.skip(i as int + 1))
    }
}

/// Scan for the first character of `v` at or after `from` that fails `p`;
/// specialized to the newline and separator predicates by `sep_mode`.
fn scan_chunk(v: &Vec<char>, from: usize, sep_mode: bool) -> (j: usize)
    requires
        from <= v@.len(),
    ensures
        from <= j <= v@.len(),
        !sep_mode ==> j - from == lead_count(v@.skip(from as int), not_nl_fn()),
        sep_mode ==> j - from == lead_count(v@.skip(from as int), not_sep_fn()),
        j < v@.len() ==> (if sep_mode {
            v@[j as int] == '/' || v@[j as int] == '\\'
        } else {
            (v@[j as int] == '\n')
        }),
{
    let ghost p = if sep_mode {
        not_sep_fn()
    } else {
        not_nl_fn()
    };
    let n = v.len();
    let mut j: usize = from;
    loop
        invariant
            sep_mode ==> p == not_sep_fn(),
            !sep_mode ==> p == not_nl_fn(),
            n == v@.len(),
            from <= j <= n,
            forall|k: int| from <= k < j ==> p(v@[k]),
        ensures
            from <= j <= n,
            forall|k: int| from <= k < j ==> p(v@[k]),
            j < n ==> !p(v@[j as int]),
        decreases n - j,
    {
        if j >= n {
            break;
        }
        let c = v[j];
        let stop = if sep_mode {
            c == '/' || c == '\\'
        } else {
            c == '\n'
        };
        proof {
            assert(p(v@[j as int]) == !stop);
        }
        if stop {
            break;
        }
        j += 1;
    }
    proof {
        let rest = v@.skip(from as int);
        assert forall|k: int| 0 <= k < j - from implies p(rest[k]) by {
            assert(rest[k] == v@[from + k]);
        }
        if j < n {
            assert(rest[j - from] == v@[j as int]);
        }
        lemma_lead_count_is(rest, p, j - from);
    }
    j
}

/// Split `v` into lines, as `str::lines` does.
pub fn split_lines(v: &Vec<char>) -> (r: Vec<Vec<char>>)
    ensures
        r.deep_view() == line_seqs(v@),
{
    let n = v.len();
    let mut r: Vec<Vec<char>> = Vec::new();
    let mut pos: usize = 0;
    proof {
        assert(v@.skip(0) =~= v@);
        assert(r.deep_view() =~= Seq::<Seq<char>>::empty());
        assert(r.deep_view() + line_seqs(v@) =~= line_seqs(v@));
    }
    while pos < n
        invariant
            n == v@.len(),
            pos <= n,
            line_seqs(v@) == r.deep_view() + line_seqs(v@.skip(pos as int)),
        decreases n - pos,
    {
        let ghost old_r = r.deep_view();
        let ghost rest = v@.skip(pos as int);
        let j = scan_chunk(v, pos, false);
        let end = if j > pos && v[j - 1] == '\r' {
            j - 1
        } else {
            j
        };
        let line = copy_range(v, pos, end);
        proof {
            let i = (j - pos) as int;
            assert(rest.take(i) =~= v@.subrange(pos as int, j as int));
            if j < n {
                assert(line@ =~= strip_cr(rest.take(i)));
            } else {
                assert(rest.take(i) =~= rest);
                assert(line@ =~= strip_cr(rest));
            }
        }
        r.push(line);
        proof {
            assert(line.deep_view() =~= line@);
            assert(r.deep_view() =~= old_r.push(line@));
        }
        if j < n {
            proof {
                assert(rest.skip(j - pos + 1) =~= v@.skip(j + 1));
                assert(line_seqs(rest) =~= seq![line@] + line_seqs(v@.skip(j + 1)));
                assert(old_r + line_seqs(rest) =~= r.deep_view() + line_seqs(v@.skip(j + 1)));
            }
            pos = j + 1;
        } else {
            proof {
                assert(line_seqs(rest) =~= seq![line@]);
                assert(v@.skip(n as int) =~= Seq::<char>::empty());
                assert(old_r + line_seqs(rest) =~= r.deep_view() + line_seqs(v@.skip(n as int)));
            }
            pos = n;
        }
    }
    proof {
        assert(v@.skip(pos as int) =~= Seq::<char>::empty());
        assert(line_seqs(v@) =~= r.deep_view());
    }
    r
}

/// Split `v` on `'/'` and `'\\'`, keeping empty segments.
pub fn split_seps(v: &Vec<char>) -> (r: Vec<Vec<char>>)
    ensures
        r.deep_view() == sep_parts(v@),
{
    let n = v.len();
    let mut r: Vec<Vec<char>> = Vec::new();
    let mut pos: usize = 0;
    proof {
        assert(v@.skip(0) =~= v@);
        assert(r.deep_view() =~= Seq::<Seq<char>>::empty());
        assert(r.deep_view() + sep_parts(v@) =~= sep_parts(v@));
    }
    loop
        invariant_except_break
            sep_parts(v@) == r.deep_view() + sep_parts(v@.skip(pos as int)),
        invariant
            n == v@.len(),
            pos <= n,
        ensures
            r.deep_view() == sep_parts(v@),
        decreases n - pos,
    {
        let ghost old_r = r.deep_view();
        let ghost rest = v@.skip(pos as int);
        let j = scan_chunk(v, pos, true);
        let part = copy_range(v, pos, j);
        proof {
            let i = (j - pos) as int;
            assert(part@ =~= rest.take(i));
            if j >= n {
                assert(rest.take(i) =~= rest);
            }
        }
        r.push(part);
        proof {
            assert(part.deep_view() =~= part@);
            assert(r.deep_view() =~= old_r.push(part@));
        }
        if j < n {
            proof {
                assert(rest.skip(j - pos + 1) =~= v@.skip(j + 1));
                assert(sep_parts(rest) =~= seq![part@] + sep_parts(v@.skip(j + 1)));
                assert(old_r + sep_parts(rest) =~= r.deep_view() + sep_parts(v@.skip(j + 1)));
            }
            pos = j + 1;
        } else {
            proof {
                assert(sep_parts(rest) =~= seq![part@]);
                assert(old_r + sep_parts(rest) =~= r.deep_view());
            }
            break;
        }
    }
    r
}

// ---------------------------------------------------------------------------
// Counting lines that satisfy a predicate
// ---------------------------------------------------------------------------

/// How many elements of `ls` satisfy `p`.
pub open spec fn count_if(ls: Seq<Seq<char>>, p: spec_fn(Seq<char>) -> bool) -> nat
    decreases ls.len(),
{
    if ls.len() == 0 {
        0
    } else {
        (count_if(ls.drop_last(), p) + if p(ls.last()) {
            1nat
        } else {
            0nat
        }) as nat
    }
}

pub proof fn lemma_count_if_push(ls: Seq<Seq<char>>, p: spec_fn(Seq<char>) -> bool, l: Seq<char>)
    ensures
        count_if(ls.push(l), p) == count_if(ls, p) + (if p(l) {
            1int
        } else {
            0int
        }),
{
    assert(ls.push(l).drop_last() =~= ls);
    assert(ls.push(l).last() == l);
}

/// The elements of `ls` that satisfy `p`, in order.
pub open spec fn keep_if(ls: Seq<Seq<char>>, p: spec_fn(Seq<char>) -> bool) -> Seq<Seq<char>>
    decreases ls.len(),
{
    if ls.len() == 0 {
        Seq::empty()
    } else {
        keep_if(ls.drop_last(), p) + (if p(ls.last()) {
            seq![ls.last()]
        } else {
            Seq::empty()
        })
    }
}

pub proof fn lemma_keep_if_push(ls: Seq<Seq<char>>, p: spec_fn(Seq<char>) -> bool, l: Seq<char>)
    ensures
        keep_if(ls.push(l), p) == keep_if(ls, p) + (if p(l) {
            seq![l]
        } else {
            Seq::<Seq<char>>::empty()
        }),
{
    assert(ls.push(l).drop_last() =~= ls);
    assert(ls.push(l).last() == l);
}

// ---------------------------------------------------------------------------
// Rendering numbers as text
// ---------------------------------------------------------------------------

/// The character for the digit `d` in bases up to 16, lower case.
pub open spec fn digit_char_of(d: nat) -> char {
    if d < 10 {
        ((48 + d) as u8) as char
    } else {
        ((87 + d) as u8) as char
    }
}

/// Decimal rendering of `n`, most significant digit first.
pub open spec fn dec_chars(n: nat) -> Seq<char>
    decreases n,
{
    if n < 10 {
        seq![digit_char_of(n)]
    } else {
        dec_chars(n / 10).push(digit_char_of(n % 10))
    }
}

/// Lower-case hexadecimal rendering of `n`, most significant digit first.
pub open spec fn hex_chars(n: nat) -> Seq<char>
    decreases n,
{
    if n < 16 {
        seq![digit_char_of(n)]
    } else {
        hex_chars(n / 16).push(digit_char_of(n % 16))
    }
}

fn digit_char_exec(d: u64) -> (c: char)
    requires
        d < 16,
    ensures
        c == digit_char_of(d as nat),
{
    if d < 10 {
        (48 + d as u8) as char
    } else {
        (87 + d as u8) as char
    }
}

/// Append the decimal rendering of `n` to `out`.
pub fn push_dec(n: u64, out: &mut String)
    ensures
        final(out)@ == old(out)@ + dec_chars(n as nat),
    decreases n,
{
    if n < 10 {
        crate::outside::push_char(out, digit_char_exec(n));
        proof {
            assert(final(out)@ =~= old(out)@ + dec_chars(n as nat));
        }
    } else {
        push_dec(n / 10, out);
        crate::outside::push_char(out, digit_char_exec(n % 10));
        proof {
            assert(final(out)@ =~= old(out)@ + dec_chars(n as nat));
        }
    }
}

/// Append the hexadecimal rendering of `n` to `out`.
pub fn push_hex(n: u64, out: &mut String)
    ensures
        final(out)@ == old(out)@ + hex_chars(n as nat),
    decreases n,
{
    if n < 16 {
        crate::outside::push_char(out, digit_char_exec(n));
        proof {
            assert(final(out)@ =~= old(out)@ + hex_chars(n as nat));
        }
    } else {
        push_hex(n / 16, out);
        crate::outside::push_char(out, digit_char_exec(n % 16));
        proof {
            assert(final(out)@ =~= old(out)@ + hex_chars(n as nat));
        }
    }
}

/// The decimal rendering of `n` as a fresh string.
pub fn dec_string(n: u64) -> (r: String)
    ensures
        r@ == dec_chars(n as nat),
{
    let mut r = String::new();
    push_dec(n, &mut r);
    proof {
        assert(Seq::<char>::empty() + dec_chars(n as nat) =~= dec_chars(n as nat));
    }
    r
}

/// Build a `String` holding exactly the characters of `v`.
pub fn string_of_chars(v: &Vec<char>) -> (r: String)
    ensures
        r@ == v@,
{
    let mut r = String::new();
    let mut i: usize = 0;
    while i < v.len()
        invariant
            i <= v@.len(),
            r@ == v@.take(i as int),
        decreases v@.len() - i,
    {
        crate::outside::push_char(&mut r, v[i]);
        i += 1;
        proof {
            assert(v@.take(i as int) =~= v@.take(i - 1).push(v@[i - 1]));
        }
    }
    proof {
        assert(v@.take(v@.len() as int) =~= v@);
    }
    r
}

/// Does the single character `c` occur in `v`?
pub fn contains_char(v: &Vec<char>, c: char) -> (r: bool)
    ensures
        r == v@.contains(c),
{
    let mut i: usize = 0;
    while i < v.len()
        invariant
            i <= v@.len(),
            forall|k: int| 0 <= k < i ==> v@[k] != c,
        decreases v@.len() - i,
    {
        if v[i] == c {
            return true;
        }
        i += 1;
    }
    false
}

} // verus!
