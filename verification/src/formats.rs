//! Exhaustive format enumeration: an additive list of independent shape
//! tests, each appending zero or more `ClipboardFormat` records. Distinct
//! from the exclusive classifier chain, which picks a single kind.

use vstd::prelude::*;
use vstd::string::{StrSliceExecFns, StringExecFns};
use vstd::utf8::encode_utf8;
use crate::outside::{base64_of, base64_encode, json_ok, json_accepts};
use crate::text::{
    is_alnum, prefix_of, has_sub, trimmed, line_seqs, count_if, dec_chars, chars_of,
    starts_with_lit, contains_lit, contains_char, trim_chars, split_lines, string_of_chars,
    copy_range, dec_string, alnum_char, lemma_count_if_push,
};
use crate::types::{ClipboardFormat, FormatView, RawImage};
use crate::classifier::{url_shape, ftp_shape, json_shape, rtf_shape};
use crate::filelist::{file_list_shape, nonblank_fn, file_list_chars};

verus! {

// ---------------------------------------------------------------------------
// UTF-16LE rendering, used for the third base record
// ---------------------------------------------------------------------------

/// The little-endian UTF-16 bytes of one character.
pub open spec fn utf16_unit_bytes(c: char) -> Seq<u8> {
    let u = c as u32;
    if u < 0x10000 {
        seq![(u % 256) as u8, ((u / 256) % 256) as u8]
    } else {
        let v = u - 0x10000;
        let hi = (0xD800 + ((v / 1024) % 1024)) as u32;
        let lo = (0xDC00 + (v % 1024)) as u32;
        seq![(hi % 256) as u8, ((hi / 256) % 256) as u8, (lo % 256) as u8, ((lo / 256) % 256) as u8]
    }
}

/// The little-endian UTF-16 encoding of the text, as `str::encode_utf16`
/// flattened to bytes produces it.
pub open spec fn utf16le_bytes(s: Seq<char>) -> Seq<u8>
    decreases s.len(),
{
    if s.len() == 0 {
        Seq::empty()
    } else {
        utf16_unit_bytes(s[0]) + utf16le_bytes(s.drop_first())
    }
}

pub proof fn lemma_utf16le_append_one(s: Seq<char>, c: char)
    ensures
        utf16le_bytes(s.push(c)) == utf16le_bytes(s) + utf16_unit_bytes(c),
    decreases s.len(),
{
    if s.len() == 0 {
        assert(s.push(c)[0] == c);
        assert(s.push(c).drop_first() =~= Seq::<char>::empty());
        assert(utf16le_bytes(s.push(c)) == utf16_unit_bytes(c) + utf16le_bytes(
            Seq::<char>::empty(),
        ));
        assert(utf16_unit_bytes(c) + Seq::<u8>::empty() =~= utf16_unit_bytes(c));
        assert(utf16le_bytes(s) + utf16_unit_bytes(c) =~= utf16_unit_bytes(c));
    } else {
        assert(s.push(c)[0] == s[0]);
        assert(s.push(c).drop_first() =~= s.drop_first().push(c));
        lemma_utf16le_append_one(s.drop_first(), c);
        assert(utf16le_bytes(s.push(c)) == utf16_unit_bytes(s[0]) + (utf16le_bytes(
            s.drop_first(),
        ) + utf16_unit_bytes(c)));
        assert(utf16_unit_bytes(s[0]) + (utf16le_bytes(s.drop_first()) + utf16_unit_bytes(c))
            =~= (utf16_unit_bytes(s[0]) + utf16le_bytes(s.drop_first())) + utf16_unit_bytes(c));
    }
}

pub proof fn lemma_utf16le_len(s: Seq<char>)
    ensures
        utf16le_bytes(s).len() <= 4 * s.len(),
    decreases s.len(),
{
    if s.len() > 0 {
        lemma_utf16le_len(s.drop_first());
    }
}

/// Build the UTF-16LE bytes of `v`.
fn utf16le_vec(v: &Vec<char>) -> (r: Vec<u8>)
    ensures
        r@ == utf16le_bytes(v@),
{
    let mut r: Vec<u8> = Vec::new();
    let mut i: usize = 0;
    while i < v.len()
        invariant
            i <= v@.len(),
            r@ == utf16le_bytes(v@.take(i as int)),
        decreases v@.len() - i,
    {
        let u = v[i] as u32;
        if u < 0x10000 {
            r.push((u % 256) as u8);
            r.push(((u / 256) % 256) as u8);
        } else {
            let w = u - 0x10000;
            let hi = 0xD800 + ((w / 1024) % 1024);
            let lo = 0xDC00 + (w % 1024);
            r.push((hi % 256) as u8);
            r.push(((hi / 256) % 256) as u8);
            r.push((lo % 256) as u8);
            r.push(((lo / 256) % 256) as u8);
        }
        i += 1;
        proof {
            assert(v@.take(i as int) =~= v@.take(i - 1).push(v@[i - 1]));
            lemma_utf16le_append_one(v@.take(i - 1), v@[i - 1]);
            assert(r@ =~= utf16le_bytes(v@.take(i as int)));
        }
    }
    proof {
        assert(v@.take(v@.len() as int) =~= v@);
    }
    r
}

/// The UTF-8 encoding of a text is between one and four bytes per character.
pub proof fn lemma_encode_utf8_len(s: Seq<char>)
    ensures
        s.len() <= encode_utf8(s).len() <= 4 * s.len(),
    decreases s.len(),
{
    if s.len() > 0 {
        lemma_encode_utf8_len(s.drop_first());
    }
}

// ---------------------------------------------------------------------------
// The record list, specified
// ---------------------------------------------------------------------------

/// A human preview: the text itself, or its first 100 characters and an
/// ellipsis.
pub open spec fn preview_of(s: Seq<char>) -> Seq<char> {
    if s.len() > 100 {
        s.take(100) + "..."@
    } else {
        s
    }
}

/// The base64 payload stored for a text record.
pub open spec fn text_b64(s: Seq<char>) -> Seq<char> {
    base64_of(encode_utf8(s))
}

pub open spec fn text_rec(
    s: Seq<char>,
    name: Seq<char>,
    mime: Seq<char>,
    preview: Seq<char>,
) -> FormatView {
    FormatView {
        format_name: name,
        format_type: mime,
        data_size: encode_utf8(s).len() as int,
        content_preview: preview,
        is_available: true,
        raw_data: Some(text_b64(s)),
    }
}

pub open spec fn plain_text_rec(s: Seq<char>) -> FormatView {
    text_rec(s, "Plain Text"@, "text/plain"@, preview_of(s))
}

pub open spec fn unicode_rec(s: Seq<char>) -> FormatView {
    FormatView {
        format_name: "Unicode Text (UTF-8)"@,
        format_type: "text/unicode"@,
        data_size: s.len() * 4 as int,
        content_preview: "Unicode version of text"@,
        is_available: true,
        raw_data: Some(text_b64(s)),
    }
}

pub open spec fn utf16_rec(s: Seq<char>) -> FormatView {
    FormatView {
        format_name: "Unicode Text (UTF-16LE)"@,
        format_type: "text/utf-16le"@,
        data_size: utf16le_bytes(s).len() as int,
        content_preview: "UTF-16 Little Endian encoding"@,
        is_available: true,
        raw_data: Some(base64_of(utf16le_bytes(s))),
    }
}

// --- the independent gates, in the order the list is assembled ---

/// The tag sniff used by the enumeration (wider than the classifier's).
pub open spec fn html_gate(s: Seq<char>) -> bool {
    has_sub(s, "<html>"@) || has_sub(s, "<!DOCTYPE"@) || has_sub(s, "<div"@) || has_sub(s, "<p"@)
        || has_sub(s, "<span"@) || has_sub(s, "<br"@)
}

pub open spec fn url_gate(s: Seq<char>) -> bool {
    url_shape(s) || ftp_shape(s)
}

pub open spec fn json_gate(s: Seq<char>) -> bool {
    json_shape(s) && json_ok(s)
}

pub open spec fn xml_gate(s: Seq<char>) -> bool {
    let t = trimmed(s);
    prefix_of("<?xml"@, t) || (t.len() > 0 && t[0] == '<' && t.last() == '>')
}

pub open spec fn csv_gate(s: Seq<char>) -> bool {
    let ls = line_seqs(s);
    s.contains(',') && ls.len() > 1 && (forall|i: int| 0 <= i < ls.len() ==> ls[i].contains(','))
}

pub open spec fn email_gate(s: Seq<char>) -> bool {
    s.contains('@') && s.contains('.') && !s.contains(' ') && line_seqs(s).len() == 1
}

pub open spec fn code_gate(s: Seq<char>) -> bool {
    has_sub(s, "function"@) || has_sub(s, "class"@) || has_sub(s, "import"@) || has_sub(
        s,
        "const"@,
    ) || has_sub(s, "def "@) || has_sub(s, "public class"@)
}

pub open spec fn markdown_gate(s: Seq<char>) -> bool {
    has_sub(s, "# "@) || has_sub(s, "## "@) || has_sub(s, "**"@) || has_sub(s, "```"@)
}

pub open spec fn base64_gate(s: Seq<char>) -> bool {
    s.len() > 20 && (forall|k: int|
        0 <= k < s.len() ==> (is_alnum(s[k]) || s[k] == '+' || s[k] == '/' || s[k] == '='))
        && s.len() % 4 == 0
}

// --- the groups each gate contributes ---

pub open spec fn html_group(s: Seq<char>) -> Seq<FormatView> {
    if html_gate(s) {
        seq![
            text_rec(s, "HTML"@, "text/html"@, "HTML content detected"@),
            text_rec(s, "HTML Fragment"@, "text/html-fragment"@, "HTML Fragment format"@),
        ]
    } else {
        Seq::empty()
    }
}

pub open spec fn rtf_group(s: Seq<char>) -> Seq<FormatView> {
    if rtf_shape(s) {
        seq![text_rec(s, "Rich Text Format"@, "text/rtf"@, "Rich Text Format content"@)]
    } else {
        Seq::empty()
    }
}

pub open spec fn url_group(s: Seq<char>) -> Seq<FormatView> {
    if url_gate(s) {
        seq![
            text_rec(s, "URL"@, "text/uri-list"@, "URL format"@),
            text_rec(
                s,
                "Internet Shortcut"@,
                "application/x-mswinurl"@,
                "Windows Internet Shortcut"@,
            ),
        ]
    } else {
        Seq::empty()
    }
}

/// The file-drop preview names how many non-blank lines the payload has.
pub open spec fn file_count_preview(s: Seq<char>) -> Seq<char> {
    dec_chars(count_if(line_seqs(s), nonblank_fn())) + " file(s)"@
}

pub open spec fn filelist_group(s: Seq<char>) -> Seq<FormatView> {
    if file_list_shape(s) {
        seq![
            text_rec(s, "File Drop List"@, "text/uri-list"@, file_count_preview(s)),
            text_rec(
                s,
                "Shell IDList Array"@,
                "application/x-shell-idlist"@,
                "Windows Shell file list"@,
            ),
        ]
    } else {
        Seq::empty()
    }
}

pub open spec fn json_group(s: Seq<char>) -> Seq<FormatView> {
    if json_gate(s) {
        seq![text_rec(s, "JSON"@, "application/json"@, "Valid JSON data"@)]
    } else {
        Seq::empty()
    }
}

pub open spec fn xml_group(s: Seq<char>) -> Seq<FormatView> {
    if xml_gate(s) {
        seq![text_rec(s, "XML"@, "application/xml"@, "XML content detected"@)]
    } else {
        Seq::empty()
    }
}

pub open spec fn csv_preview(s: Seq<char>) -> Seq<char> {
    "CSV with "@ + dec_chars(line_seqs(s).len()) + " rows"@
}

pub open spec fn csv_group(s: Seq<char>) -> Seq<FormatView> {
    if csv_gate(s) {
        seq![text_rec(s, "CSV"@, "text/csv"@, csv_preview(s))]
    } else {
        Seq::empty()
    }
}

pub open spec fn email_group(s: Seq<char>) -> Seq<FormatView> {
    if email_gate(s) {
        seq![text_rec(s, "Email Address"@, "text/x-email"@, "Email address format"@)]
    } else {
        Seq::empty()
    }
}

pub open spec fn code_group(s: Seq<char>) -> Seq<FormatView> {
    if code_gate(s) {
        seq![text_rec(s, "Source Code"@, "text/x-source-code"@, "Programming code detected"@)]
    } else {
        Seq::empty()
    }
}

pub open spec fn markdown_group(s: Seq<char>) -> Seq<FormatView> {
    if markdown_gate(s) {
        seq![text_rec(s, "Markdown"@, "text/markdown"@, "Markdown content detected"@)]
    } else {
        Seq::empty()
    }
}

pub open spec fn base64_group(s: Seq<char>) -> Seq<FormatView> {
    if base64_gate(s) {
        seq![text_rec(s, "Base64 Encoded Data"@, "application/base64"@, "Base64 encoded content"@)]
    } else {
        Seq::empty()
    }
}

/// Every record the enumeration produces for a text payload, in order:
/// three base records, then one group per independent gate.
pub open spec fn text_records(s: Seq<char>) -> Seq<FormatView> {
    if s.len() == 0 {
        Seq::empty()
    } else {
        seq![plain_text_rec(s), unicode_rec(s), utf16_rec(s)] + html_group(s) + rtf_group(s)
            + url_group(s) + filelist_group(s) + json_group(s) + xml_group(s) + csv_group(s)
            + email_group(s) + code_group(s) + markdown_group(s) + base64_group(s)
    }
}

/// The four records an image payload always contributes. All four carry
/// the same raw bytes; only the PNG pipeline re-encodes for history.
pub open spec fn image_records(rgba: Seq<u8>, width: u32, height: u32) -> Seq<FormatView> {
    let raw = Some(base64_of(rgba));
    let size = rgba.len() as int;
    seq![
        FormatView {
            format_name: "Image (RGBA)"@,
            format_type: "image/rgba"@,
            data_size: size,
            content_preview: dec_chars(width as nat) + "x"@ + dec_chars(height as nat)
                + " pixels"@,
            is_available: true,
            raw_data: raw,
        },
        FormatView {
            format_name: "Image (PNG)"@,
            format_type: "image/png"@,
            data_size: size,
            content_preview: "PNG format available"@,
            is_available: true,
            raw_data: raw,
        },
        FormatView {
            format_name: "Image (JPEG)"@,
            format_type: "image/jpeg"@,
            data_size: size,
            content_preview: "JPEG format available"@,
            is_available: true,
            raw_data: raw,
        },
        FormatView {
            format_name: "Image (Bitmap)"@,
            format_type: "image/bmp"@,
            data_size: size,
            content_preview: "Bitmap format available"@,
            is_available: true,
            raw_data: raw,
        },
    ]
}

/// The sentinel record returned when nothing at all was detected.
pub open spec fn empty_rec() -> FormatView {
    FormatView {
        format_name: "Empty"@,
        format_type: "empty"@,
        data_size: 0,
        content_preview: "Clipboard is empty"@,
        is_available: false,
        raw_data: None,
    }
}

/// The whole enumeration: image records first, then text records, and the
/// sentinel alone when the payload yields nothing.
pub open spec fn all_records(
    text: Option<Seq<char>>,
    image: Option<(Seq<u8>, u32, u32)>,
) -> Seq<FormatView> {
    let im = match image {
        Some((b, w, h)) => image_records(b, w, h),
        None => Seq::empty(),
    };
    let tx = match text {
        Some(s) => text_records(s),
        None => Seq::empty(),
    };
    if im.len() + tx.len() == 0 {
        seq![empty_rec()]
    } else {
        im + tx
    }
}

// ---------------------------------------------------------------------------
// Executable enumeration
// ---------------------------------------------------------------------------

/// The truncating preview of `v` as a fresh string.
fn preview_string(v: &Vec<char>) -> (p: String)
    ensures
        p@ == preview_of(v@),
{
    if v.len() > 100 {
        let head = copy_range(v, 0, 100);
        let mut p = string_of_chars(&head);
        p.append("...");
        p
    } else {
        string_of_chars(v)
    }
}

/// Append one record built from plain parts.
fn push_rec(
    r: &mut Vec<ClipboardFormat>,
    name: &str,
    mime: &str,
    size: usize,
    preview: String,
    raw: Option<String>,
    avail: bool,
)
    ensures
        final(r).deep_view() == old(r).deep_view().push(
            FormatView {
                format_name: name@,
                format_type: mime@,
                data_size: size as int,
                content_preview: preview@,
                is_available: avail,
                raw_data: crate::types::opt_view(raw),
            },
        ),
{
    let ghost before = r.deep_view();
    let rec = ClipboardFormat {
        format_name: String::from_str(name),
        format_type: String::from_str(mime),
        data_size: size,
        content_preview: preview,
        is_available: avail,
        raw_data: raw,
    };
    r.push(rec);
    proof {
        assert(r.deep_view() =~= before.push(rec@));
    }
}

/// How many of the given lines are not entirely blank.
fn count_nonblank(lines: &Vec<Vec<char>>) -> (n: usize)
    ensures
        n == count_if(lines.deep_view(), nonblank_fn()),
{
    let ghost ls = lines.deep_view();
    let mut n: usize = 0;
    let mut i: usize = 0;
    while i < lines.len()
        invariant
            ls == lines.deep_view(),
            i <= lines@.len(),
            n == count_if(ls.take(i as int), nonblank_fn()),
            n <= i,
        decreases lines@.len() - i,
    {
        proof {
            assert(ls.take(i + 1) =~= ls.take(i as int).push(ls[i as int]));
            lemma_count_if_push(ls.take(i as int), nonblank_fn(), ls[i as int]);
            assert(ls[i as int] == lines@[i as int]@);
            assert(nonblank_fn()(ls[i as int]) == !crate::text::all_blank(lines@[i as int]@));
        }
        if !crate::text::all_blank_chars(&lines[i]) {
            n += 1;
        }
        i += 1;
    }
    proof {
        assert(ls.take(i as int) =~= ls);
    }
    n
}

/// Do all of the given lines contain a comma?
fn all_lines_with_comma(lines: &Vec<Vec<char>>) -> (r: bool)
    ensures
        r == (forall|i: int|
            0 <= i < lines.deep_view().len() ==> lines.deep_view()[i].contains(',')),
{
    let mut i: usize = 0;
    while i < lines.len()
        invariant
            i <= lines@.len(),
            forall|k: int| 0 <= k < i ==> lines.deep_view()[k].contains(','),
        decreases lines@.len() - i,
    {
        proof {
            assert(lines.deep_view()[i as int] == lines@[i as int]@);
        }
        if !contains_char(&lines[i], ',') {
            return false;
        }
        i += 1;
    }
    true
}

/// Is every character a base64 alphabet character?
fn all_base64_chars(v: &Vec<char>) -> (r: bool)
    ensures
        r == (forall|k: int|
            0 <= k < v@.len() ==> (is_alnum(v@[k]) || v@[k] == '+' || v@[k] == '/' || v@[k]
                == '=')),
{
    let mut i: usize = 0;
    while i < v.len()
        invariant
            i <= v@.len(),
            forall|k: int|
                0 <= k < i ==> (is_alnum(v@[k]) || v@[k] == '+' || v@[k] == '/' || v@[k] == '='),
        decreases v@.len() - i,
    {
        let c = v[i];
        if !(alnum_char(c) || c == '+' || c == '/' || c == '=') {
            return false;
        }
        i += 1;
    }
    true
}

/// Enumerate every format record a text payload yields, in the fixed
/// assembly order. Empty text yields no records.
#[verifier::rlimit(100)]
#[verifier::spinoff_prover]
pub fn enumerate_text_formats(text: &str) -> (r: Vec<ClipboardFormat>)
    requires
        8 * text@.len() <= usize::MAX,
    ensures
        r.deep_view() == text_records(text@),
{
    let ghost s = text@;
    let mut r: Vec<ClipboardFormat> = Vec::new();
    let v = chars_of(text);
    if v.len() == 0 {
        proof {
            assert(r.deep_view() =~= text_records(s));
        }
        return r;
    }
    proof {
        lemma_encode_utf8_len(s);
        lemma_utf16le_len(s);
    }
    let bytes = text.as_bytes_vec();
    let b64 = base64_encode(&bytes);
    let size = bytes.len();

    push_rec(&mut r, "Plain Text", "text/plain", size, preview_string(&v), Some(b64.clone()), true);
    push_rec(
        &mut r,
        "Unicode Text (UTF-8)",
        "text/unicode",
        v.len() * 4,
        String::from_str("Unicode version of text"),
        Some(b64.clone()),
        true,
    );
    let u16b = utf16le_vec(&v);
    let b64u16 = base64_encode(&u16b);
    push_rec(
        &mut r,
        "Unicode Text (UTF-16LE)",
        "text/utf-16le",
        u16b.len(),
        String::from_str("UTF-16 Little Endian encoding"),
        Some(b64u16),
        true,
    );
    let ghost g_base = seq![plain_text_rec(s), unicode_rec(s), utf16_rec(s)];
    proof {
        assert(r.deep_view() =~= g_base);
    }

    if contains_lit(&v, "<html>") || contains_lit(&v, "<!DOCTYPE") || contains_lit(&v, "<div")
        || contains_lit(&v, "<p") || contains_lit(&v, "<span") || contains_lit(&v, "<br") {
        push_rec(
            &mut r,
            "HTML",
            "text/html",
            size,
            String::from_str("HTML content detected"),
            Some(b64.clone()),
            true,
        );
        push_rec(
            &mut r,
            "HTML Fragment",
            "text/html-fragment",
            size,
            String::from_str("HTML Fragment format"),
            Some(b64.clone()),
            true,
        );
    }
    let ghost g_html = g_base + html_group(s);
    proof {
        assert(r.deep_view() =~= g_html);
    }

    if starts_with_lit(&v, "{\\rtf") {
        push_rec(
            &mut r,
            "Rich Text Format",
            "text/rtf",
            size,
            String::from_str("Rich Text Format content"),
            Some(b64.clone()),
            true,
        );
    }
    let ghost g_rtf = g_html + rtf_group(s);
    proof {
        assert(r.deep_view() =~= g_rtf);
    }

    if starts_with_lit(&v, "http://") || starts_with_lit(&v, "https://") || starts_with_lit(
        &v,
        "ftp://",
    ) || starts_with_lit(&v, "ftps://") {
        push_rec(
            &mut r,
            "URL",
            "text/uri-list",
            size,
            String::from_str("URL format"),
            Some(b64.clone()),
            true,
        );
        push_rec(
            &mut r,
            "Internet Shortcut",
            "application/x-mswinurl",
            size,
            String::from_str("Windows Internet Shortcut"),
            Some(b64.clone()),
            true,
        );
    }
    let ghost g_url = g_rtf + url_group(s);
    proof {
        assert(r.deep_view() =~= g_url);
    }

    let lines = split_lines(&v);
    if file_list_chars(&v) {
        let ne = count_nonblank(&lines);
        let mut fp = dec_string(ne as u64);
        fp.append(" file(s)");
        push_rec(&mut r, "File Drop List", "text/uri-list", size, fp, Some(b64.clone()), true);
        push_rec(
            &mut r,
            "Shell IDList Array",
            "application/x-shell-idlist",
            size,
            String::from_str("Windows Shell file list"),
            Some(b64.clone()),
            true,
        );
    }
    let ghost g_fl = g_url + filelist_group(s);
    proof {
        assert(r.deep_view() =~= g_fl);
    }

    push_tail_records(&mut r, text, &v, &lines, size, &b64);
    proof {
        assert(r.deep_view() =~= text_records(s));
    }
    r
}

/// Append the records of the later gates: JSON, XML, CSV, email, source
/// code, markdown and base64 shape.
#[verifier::rlimit(100)]
#[verifier::spinoff_prover]
fn push_tail_records(
    r: &mut Vec<ClipboardFormat>,
    text: &str,
    v: &Vec<char>,
    lines: &Vec<Vec<char>>,
    size: usize,
    b64: &String,
)
    requires
        v@ == text@,
        lines.deep_view() == line_seqs(text@),
        size == encode_utf8(text@).len(),
        b64@ == text_b64(text@),
    ensures
        final(r).deep_view() == old(r).deep_view() + json_group(text@) + xml_group(text@)
            + csv_group(text@) + email_group(text@) + code_group(text@) + markdown_group(text@)
            + base64_group(text@),
{
    let ghost s = text@;
    let ghost g_fl = old(r).deep_view();
    let t = trim_chars(v);
    let json_shaped = if t.len() > 0 {
        let a = t[0];
        let b = t[t.len() - 1];
        proof {
            assert(t@.last() == t@[t@.len() - 1]);
        }
        (a == '{' && b == '}') || (a == '[' && b == ']')
    } else {
        false
    };
    if json_shaped && json_accepts(text) {
        push_rec(
            r,
            "JSON",
            "application/json",
            size,
            String::from_str("Valid JSON data"),
            Some(b64.clone()),
            true,
        );
    }
    let ghost g_json = g_fl + json_group(s);
    proof {
        assert(r.deep_view() =~= g_json);
    }

    let xml_shaped = starts_with_lit(&t, "<?xml") || (t.len() > 0 && t[0] == '<' && t[t.len() - 1]
        == '>');
    proof {
        if t.len() > 0 {
            assert(t@.last() == t@[t@.len() - 1]);
        }
    }
    if xml_shaped {
        push_rec(
            r,
            "XML",
            "application/xml",
            size,
            String::from_str("XML content detected"),
            Some(b64.clone()),
            true,
        );
    }
    let ghost g_xml = g_json + xml_group(s);
    proof {
        assert(r.deep_view() =~= g_xml);
    }

    if contains_char(v, ',') && lines.len() > 1 && all_lines_with_comma(lines) {
        let mut cp = String::from_str("CSV with ");
        cp.append(dec_string(lines.len() as u64).as_str());
        cp.append(" rows");
        push_rec(r, "CSV", "text/csv", size, cp, Some(b64.clone()), true);
    }
    let ghost g_csv = g_xml + csv_group(s);
    proof {
        assert(r.deep_view() =~= g_csv);
    }

    if contains_char(v, '@') && contains_char(v, '.') && !contains_char(v, ' ') && lines.len()
        == 1 {
        push_rec(
            r,
            "Email Address",
            "text/x-email",
            size,
            String::from_str("Email address format"),
            Some(b64.clone()),
            true,
        );
    }
    let ghost g_email = g_csv + email_group(s);
    proof {
        assert(r.deep_view() =~= g_email);
    }

    if contains_lit(v, "function") || contains_lit(v, "class") || contains_lit(v, "import")
        || contains_lit(v, "const") || contains_lit(v, "def ") || contains_lit(
        &v,
        "public class",
    ) {
        push_rec(
            r,
            "Source Code",
            "text/x-source-code",
            size,
            String::from_str("Programming code detected"),
            Some(b64.clone()),
            true,
        );
    }
    let ghost g_code = g_email + code_group(s);
    proof {
        assert(r.deep_view() =~= g_code);
    }

    if contains_lit(v, "# ") || contains_lit(v, "## ") || contains_lit(v, "**") || contains_lit(
        &v,
        "```",
    ) {
        push_rec(
            r,
            "Markdown",
            "text/markdown",
            size,
            String::from_str("Markdown content detected"),
            Some(b64.clone()),
            true,
        );
    }
    let ghost g_md = g_code + markdown_group(s);
    proof {
        assert(r.deep_view() =~= g_md);
    }

    if v.len() > 20 && all_base64_chars(v) && v.len() % 4 == 0 {
        push_rec(
            r,
            "Base64 Encoded Data",
            "application/base64",
            size,
            String::from_str("Base64 encoded content"),
            Some(b64.clone()),
            true,
        );
    }
    let ghost g_b64 = g_md + base64_group(s);
    proof {
        assert(r.deep_view() =~= g_b64);
    }
}

/// The four records an image payload always yields.
pub fn image_format_records(image: &RawImage) -> (r: Vec<ClipboardFormat>)
    requires
        image.rgba@.len() <= usize::MAX / 2,
    ensures
        r.deep_view() == image_records(image.rgba@, image.width, image.height),
{
    let b64 = base64_encode(&image.rgba);
    let size = image.rgba.len();
    let mut pv = dec_string(image.width as u64);
    pv.append("x");
    pv.append(dec_string(image.height as u64).as_str());
    pv.append(" pixels");
    let mut r: Vec<ClipboardFormat> = Vec::new();
    push_rec(&mut r, "Image (RGBA)", "image/rgba", size, pv, Some(b64.clone()), true);
    push_rec(
        &mut r,
        "Image (PNG)",
        "image/png",
        size,
        String::from_str("PNG format available"),
        Some(b64.clone()),
        true,
    );
    push_rec(
        &mut r,
        "Image (JPEG)",
        "image/jpeg",
        size,
        String::from_str("JPEG format available"),
        Some(b64.clone()),
        true,
    );
    push_rec(
        &mut r,
        "Image (Bitmap)",
        "image/bmp",
        size,
        String::from_str("Bitmap format available"),
        Some(b64.clone()),
        true,
    );
    proof {
        assert(r.deep_view() =~= image_records(image.rgba@, image.width, image.height));
    }
    r
}

/// The view of an optional text payload.
pub open spec fn opt_text_view(text: Option<&str>) -> Option<Seq<char>> {
    match text {
        Some(t) => Some(t@),
        None => None,
    }
}

/// The view of an optional image payload.
pub open spec fn opt_image_view(image: Option<&RawImage>) -> Option<(Seq<u8>, u32, u32)> {
    match image {
        Some(im) => Some((im.rgba@, im.width, im.height)),
        None => None,
    }
}

/// Enumerate every plausible format record of the payloads: image records
/// first, then text records; a single unavailable sentinel when nothing was
/// detected.
pub fn enumerate_formats(text: Option<&str>, image: Option<&RawImage>) -> (r: Vec<ClipboardFormat>)
    requires
        match text {
            Some(t) => 8 * t@.len() <= usize::MAX,
            None => true,
        },
        match image {
            Some(im) => im.rgba@.len() <= usize::MAX / 2,
            None => true,
        },
    ensures
        r.deep_view() == all_records(opt_text_view(text), opt_image_view(image)),
{
    let mut r: Vec<ClipboardFormat> = match image {
        Some(im) => image_format_records(im),
        None => Vec::new(),
    };
    let ghost im_part = r.deep_view();
    match text {
        Some(t) => {
            let mut tv = enumerate_text_formats(t);
            let ghost tx_part = tv.deep_view();
            r.append(&mut tv);
            proof {
                assert(r.deep_view() =~= im_part + tx_part);
            }
        },
        None => {
            proof {
                assert(r.deep_view() =~= im_part + Seq::<FormatView>::empty());
            }
        },
    }
    if r.len() == 0 {
        push_rec(
            &mut r,
            "Empty",
            "empty",
            0,
            String::from_str("Clipboard is empty"),
            None,
            false,
        );
        proof {
            assert(r.deep_view() =~= seq![empty_rec()]);
        }
    }
    proof {
        assert(r.deep_view() =~= all_records(opt_text_view(text), opt_image_view(image)));
    }
    r
}


// ---------------------------------------------------------------------------
// Laws of the enumeration
// ---------------------------------------------------------------------------

/// Enumeration determinism: the record list is a function of the payloads
/// alone, so two enumerations of identical input always agree, including
/// record ordering.
pub proof fn lemma_enumeration_deterministic(
    text: Option<Seq<char>>,
    image: Option<(Seq<u8>, u32, u32)>,
    r1: Seq<FormatView>,
    r2: Seq<FormatView>,
)
    requires
        r1 == all_records(text, image),
        r2 == all_records(text, image),
    ensures
        r1 == r2,
{
}

/// Any non-empty text payload yields at least the three base records; an
/// empty payload yields exactly the single unavailable sentinel.
pub proof fn lemma_enumeration_minimum(s: Seq<char>)
    ensures
        s.len() > 0 ==> all_records(Some(s), None).len() >= 3,
        s.len() == 0 ==> all_records(Some(s), None) == seq![empty_rec()],
        s.len() == 0 ==> all_records(Some(s), None)[0].is_available == false,
{
    if s.len() > 0 {
        assert(all_records(Some(s), None) == Seq::<FormatView>::empty() + text_records(s));
        assert((Seq::<FormatView>::empty() + text_records(s)).len() == text_records(s).len());
    }
}

/// How many records in the list carry the given format name.
pub open spec fn count_name(rs: Seq<FormatView>, name: Seq<char>) -> nat
    decreases rs.len(),
{
    if rs.len() == 0 {
        0
    } else {
        (count_name(rs.drop_last(), name) + if rs.last().format_name == name {
            1nat
        } else {
            0nat
        }) as nat
    }
}

pub proof fn lemma_count_name_concat(a: Seq<FormatView>, b: Seq<FormatView>, name: Seq<char>)
    ensures
        count_name(a + b, name) == count_name(a, name) + count_name(b, name),
    decreases b.len(),
{
    if b.len() == 0 {
        assert(a + b =~= a);
    } else {
        assert((a + b).drop_last() =~= a + b.drop_last());
        assert((a + b).last() == b.last());
        lemma_count_name_concat(a, b.drop_last(), name);
    }
}

proof fn lemma_count_name_one(v: FormatView, name: Seq<char>)
    ensures
        count_name(seq![v], name) == if v.format_name == name {
            1nat
        } else {
            0nat
        },
{
    assert(seq![v].drop_last() =~= Seq::<FormatView>::empty());
    assert(seq![v].last() == v);
    assert(count_name(Seq::<FormatView>::empty(), name) == 0);
}

proof fn lemma_count_name_three(v1: FormatView, v2: FormatView, v3: FormatView, name: Seq<char>)
    ensures
        count_name(seq![v1, v2, v3], name) == (if v1.format_name == name {
            1nat
        } else {
            0nat
        }) + (if v2.format_name == name {
            1nat
        } else {
            0nat
        }) + (if v3.format_name == name {
            1nat
        } else {
            0nat
        }),
{
    assert(seq![v1, v2, v3].drop_last() =~= seq![v1, v2]);
    assert(seq![v1, v2, v3].last() == v3);
    lemma_count_name_two(v1, v2, name);
}

proof fn lemma_count_name_two(v1: FormatView, v2: FormatView, name: Seq<char>)
    ensures
        count_name(seq![v1, v2], name) == (if v1.format_name == name {
            1nat
        } else {
            0nat
        }) + (if v2.format_name == name {
            1nat
        } else {
            0nat
        }),
{
    assert(seq![v1, v2].drop_last() =~= seq![v1]);
    assert(seq![v1, v2].last() == v2);
    lemma_count_name_one(v1, name);
}

/// The JSON record is double-gated: it appears in the enumeration, exactly
/// once, precisely when the payload is bracket-shaped AND the strict parse
/// accepts it. A bracket shape alone appends nothing, even though the
/// classifier still reports the JSON kind for it.
#[verifier::rlimit(100)]
#[verifier::spinoff_prover]
pub proof fn lemma_json_double_gate(s: Seq<char>)
    requires
        s.len() > 0,
    ensures
        count_name(text_records(s), "JSON"@) == (if json_shape(s) && json_ok(s) {
            1nat
        } else {
            0nat
        }),
{
    let j = "JSON"@;
    proof_strlit_facts();
    let base = seq![plain_text_rec(s), unicode_rec(s), utf16_rec(s)];
    lemma_count_name_three(plain_text_rec(s), unicode_rec(s), utf16_rec(s), j);
    assert(count_name(base, j) == 0);
    assert(count_name(html_group(s), j) == 0) by {
        if html_gate(s) {
            lemma_count_name_two(
                text_rec(s, "HTML"@, "text/html"@, "HTML content detected"@),
                text_rec(s, "HTML Fragment"@, "text/html-fragment"@, "HTML Fragment format"@),
                j,
            );
        }
    }
    assert(count_name(rtf_group(s), j) == 0) by {
        if rtf_shape(s) {
            lemma_count_name_one(
                text_rec(s, "Rich Text Format"@, "text/rtf"@, "Rich Text Format content"@),
                j,
            );
        }
    }
    assert(count_name(url_group(s), j) == 0) by {
        if url_gate(s) {
            lemma_count_name_two(
                text_rec(s, "URL"@, "text/uri-list"@, "URL format"@),
                text_rec(
                    s,
                    "Internet Shortcut"@,
                    "application/x-mswinurl"@,
                    "Windows Internet Shortcut"@,
                ),
                j,
            );
        }
    }
    assert(count_name(filelist_group(s), j) == 0) by {
        if file_list_shape(s) {
            lemma_count_name_two(
                text_rec(s, "File Drop List"@, "text/uri-list"@, file_count_preview(s)),
                text_rec(
                    s,
                    "Shell IDList Array"@,
                    "application/x-shell-idlist"@,
                    "Windows Shell file list"@,
                ),
                j,
            );
        }
    }
    assert(count_name(json_group(s), j) == (if json_gate(s) {
        1nat
    } else {
        0nat
    })) by {
        if json_gate(s) {
            lemma_count_name_one(text_rec(s, "JSON"@, "application/json"@, "Valid JSON data"@), j);
        }
    }
    assert(count_name(xml_group(s), j) == 0) by {
        if xml_gate(s) {
            lemma_count_name_one(text_rec(s, "XML"@, "application/xml"@, "XML content detected"@), j);
        }
    }
    assert(count_name(csv_group(s), j) == 0) by {
        if csv_gate(s) {
            lemma_count_name_one(text_rec(s, "CSV"@, "text/csv"@, csv_preview(s)), j);
        }
    }
    assert(count_name(email_group(s), j) == 0) by {
        if email_gate(s) {
            lemma_count_name_one(
                text_rec(s, "Email Address"@, "text/x-email"@, "Email address format"@),
                j,
            );
        }
    }
    assert(count_name(code_group(s), j) == 0) by {
        if code_gate(s) {
            lemma_count_name_one(
                text_rec(s, "Source Code"@, "text/x-source-code"@, "Programming code detected"@),
                j,
            );
        }
    }
    assert(count_name(markdown_group(s), j) == 0) by {
        if markdown_gate(s) {
            lemma_count_name_one(
                text_rec(s, "Markdown"@, "text/markdown"@, "Markdown content detected"@),
                j,
            );
        }
    }
    assert(count_name(base64_group(s), j) == 0) by {
        if base64_gate(s) {
            lemma_count_name_one(
                text_rec(
                    s,
                    "Base64 Encoded Data"@,
                    "application/base64"@,
                    "Base64 encoded content"@,
                ),
                j,
            );
        }
    }
    let c1 = base + html_group(s);
    lemma_count_name_concat(base, html_group(s), j);
    let c2 = c1 + rtf_group(s);
    lemma_count_name_concat(c1, rtf_group(s), j);
    let c3 = c2 + url_group(s);
    lemma_count_name_concat(c2, url_group(s), j);
    let c4 = c3 + filelist_group(s);
    lemma_count_name_concat(c3, filelist_group(s), j);
    let c5 = c4 + json_group(s);
    lemma_count_name_concat(c4, json_group(s), j);
    let c6 = c5 + xml_group(s);
    lemma_count_name_concat(c5, xml_group(s), j);
    let c7 = c6 + csv_group(s);
    lemma_count_name_concat(c6, csv_group(s), j);
    let c8 = c7 + email_group(s);
    lemma_count_name_concat(c7, email_group(s), j);
    let c9 = c8 + code_group(s);
    lemma_count_name_concat(c8, code_group(s), j);
    let c10 = c9 + markdown_group(s);
    lemma_count_name_concat(c9, markdown_group(s), j);
    let c11 = c10 + base64_group(s);
    lemma_count_name_concat(c10, base64_group(s), j);
    assert(text_records(s) == c11);
}

/// Reveal the record names the double-gating law compares.
proof fn proof_strlit_facts()
    ensures
        "Plain Text"@ != "JSON"@,
        "Unicode Text (UTF-8)"@ != "JSON"@,
        "Unicode Text (UTF-16LE)"@ != "JSON"@,
        "HTML"@ != "JSON"@,
        "HTML Fragment"@ != "JSON"@,
        "Rich Text Format"@ != "JSON"@,
        "URL"@ != "JSON"@,
        "Internet Shortcut"@ != "JSON"@,
        "File Drop List"@ != "JSON"@,
        "Shell IDList Array"@ != "JSON"@,
        "XML"@ != "JSON"@,
        "CSV"@ != "JSON"@,
        "Email Address"@ != "JSON"@,
        "Source Code"@ != "JSON"@,
        "Markdown"@ != "JSON"@,
        "Base64 Encoded Data"@ != "JSON"@,
{
    reveal_strlit("JSON");
    reveal_strlit("Plain Text");
    reveal_strlit("Unicode Text (UTF-8)");
    reveal_strlit("Unicode Text (UTF-16LE)");
    reveal_strlit("HTML");
    reveal_strlit("HTML Fragment");
    reveal_strlit("Rich Text Format");
    reveal_strlit("URL");
    reveal_strlit("Internet Shortcut");
    reveal_strlit("File Drop List");
    reveal_strlit("Shell IDList Array");
    reveal_strlit("XML");
    reveal_strlit("CSV");
    reveal_strlit("Email Address");
    reveal_strlit("Source Code");
    reveal_strlit("Markdown");
    reveal_strlit("Base64 Encoded Data");
    assert("HTML"@[0] != "JSON"@[0]);
}

} // verus!
