//! The coarse content classifier: a fixed, ordered predicate chain with
//! first-match-wins semantics.

use vstd::prelude::*;
use crate::text::{
    is_blank, is_digit, prefix_of, has_sub, trimmed, line_seqs, chars_of, starts_with_lit,
    contains_lit, contains_char, trim_chars, split_lines, blank_char, digit_char,
};
use crate::types::{ContentKind, kind_label};

verus! {

// ---------------------------------------------------------------------------
// The shapes the chain tests for, in priority order
// ---------------------------------------------------------------------------

pub open spec fn url_shape(s: Seq<char>) -> bool {
    prefix_of("http://"@, s) || prefix_of("https://"@, s)
}

pub open spec fn ftp_shape(s: Seq<char>) -> bool {
    prefix_of("ftp://"@, s) || prefix_of("ftps://"@, s)
}

/// The trimmed text is `{...}` or `[...]`, regardless of JSON validity.
pub open spec fn json_shape(s: Seq<char>) -> bool {
    let t = trimmed(s);
    t.len() > 0 && ((t[0] == '{' && t.last() == '}') || (t[0] == '[' && t.last() == ']'))
}

pub open spec fn html_shape(s: Seq<char>) -> bool {
    has_sub(s, "<html>"@) || has_sub(s, "<!DOCTYPE"@) || has_sub(s, "<div"@)
}

pub open spec fn rtf_shape(s: Seq<char>) -> bool {
    prefix_of("{\\rtf"@, s)
}

pub open spec fn filepath_shape(s: Seq<char>) -> bool {
    has_sub(s, ":\\"@) || prefix_of("/"@, s) || prefix_of("~/"@, s)
}

pub open spec fn email_shape(s: Seq<char>) -> bool {
    s.contains('@') && s.contains('.') && (forall|k: int| 0 <= k < s.len() ==> !is_blank(s[k]))
}

pub open spec fn multiline_shape(s: Seq<char>) -> bool {
    line_seqs(s).len() > 1
}

/// Every character is a digit, `.`, `-` or `+`.
pub open spec fn numeric_shape(s: Seq<char>) -> bool {
    forall|k: int|
        0 <= k < s.len() ==> (is_digit(s[k]) || s[k] == '.' || s[k] == '-' || s[k] == '+')
}

/// The classifier: the first shape in the fixed priority order that the
/// text matches decides its kind.
pub open spec fn kind_of(s: Seq<char>) -> ContentKind {
    if url_shape(s) {
        ContentKind::Url
    } else if ftp_shape(s) {
        ContentKind::Ftp
    } else if json_shape(s) {
        ContentKind::Json
    } else if html_shape(s) {
        ContentKind::Html
    } else if rtf_shape(s) {
        ContentKind::Rtf
    } else if filepath_shape(s) {
        ContentKind::FilePath
    } else if email_shape(s) {
        ContentKind::Email
    } else if multiline_shape(s) {
        ContentKind::MultilineText
    } else if numeric_shape(s) {
        ContentKind::Number
    } else {
        ContentKind::Text
    }
}

// ---------------------------------------------------------------------------
// Executable classifier
// ---------------------------------------------------------------------------

/// No character of `v` is ASCII whitespace.
fn no_blank_chars(v: &Vec<char>) -> (r: bool)
    ensures
        r == (forall|k: int| 0 <= k < v@.len() ==> !is_blank(v@[k])),
{
    let mut i: usize = 0;
    while i < v.len()
        invariant
            i <= v@.len(),
            forall|k: int| 0 <= k < i ==> !is_blank(v@[k]),
        decreases v@.len() - i,
    {
        if blank_char(v[i]) {
            return false;
        }
        i += 1;
    }
    true
}

/// Every character of `v` is a digit, `.`, `-` or `+`.
fn all_numeric_chars(v: &Vec<char>) -> (r: bool)
    ensures
        r == numeric_shape(v@),
{
    let mut i: usize = 0;
    while i < v.len()
        invariant
            i <= v@.len(),
            forall|k: int|
                0 <= k < i ==> (is_digit(v@[k]) || v@[k] == '.' || v@[k] == '-' || v@[k] == '+'),
        decreases v@.len() - i,
    {
        let c = v[i];
        if !(digit_char(c) || c == '.' || c == '-' || c == '+') {
            return false;
        }
        i += 1;
    }
    true
}

/// Classify an already decomposed payload.
pub fn classify_chars(v: &Vec<char>) -> (k: ContentKind)
    ensures
        k == kind_of(v@),
{
    if starts_with_lit(v, "http://") || starts_with_lit(v, "https://") {
        return ContentKind::Url;
    }
    if starts_with_lit(v, "ftp://") || starts_with_lit(v, "ftps://") {
        return ContentKind::Ftp;
    }
    let t = trim_chars(v);
    if t.len() > 0 {
        let a = t[0];
        let b = t[t.len() - 1];
        proof {
            assert(t@.last() == t@[t@.len() - 1]);
        }
        if (a == '{' && b == '}') || (a == '[' && b == ']') {
            return ContentKind::Json;
        }
    }
    if contains_lit(v, "<html>") || contains_lit(v, "<!DOCTYPE") || contains_lit(v, "<div") {
        return ContentKind::Html;
    }
    if starts_with_lit(v, "{\\rtf") {
        return ContentKind::Rtf;
    }
    if contains_lit(v, ":\\") || starts_with_lit(v, "/") || starts_with_lit(v, "~/") {
        return ContentKind::FilePath;
    }
    if contains_char(v, '@') && contains_char(v, '.') && no_blank_chars(v) {
        return ContentKind::Email;
    }
    if split_lines(v).len() > 1 {
        proof {
            assert(line_seqs(v@).len() > 1);
        }
        return ContentKind::MultilineText;
    }
    if all_numeric_chars(v) {
        return ContentKind::Number;
    }
    ContentKind::Text
}

/// Classifier determinism: the kind is a function of the characters alone,
/// so two classifications of identical input always agree.
pub proof fn lemma_classify_deterministic(s: Seq<char>, k1: ContentKind, k2: ContentKind)
    requires
        k1 == kind_of(s),
        k2 == kind_of(s),
    ensures
        k1 == k2,
{
}

/// Classify a text payload: evaluate the fixed predicate chain and return
/// the first matching kind.
pub fn classify_kind(text: &str) -> (k: ContentKind)
    ensures
        k == kind_of(text@),
{
    let v = chars_of(text);
    classify_chars(&v)
}

/// The classified kind of the payload, reported under its label.
pub fn detect_content_type(content: &str) -> (r: String)
    ensures
        r@ == kind_label(kind_of(content@)),
{
    classify_kind(content).label()
}

} // verus!
