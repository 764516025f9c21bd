//! Trusted declarations for the functions of std and of outside crates that
//! the library calls. Each wrapper's contract states what the called code is
//! documented (or shown by its source) to do; Verus believes the contract and
//! does not look at the body.

use vstd::prelude::*;
use base64::Engine;
use crate::types::opt_view;

verus! {

/// Relies on std's `String::push`: appends one character.
#[verifier::external_body]
pub(crate) fn push_char(s: &mut String, c: char)
    ensures
        final(s)@ == old(s)@.push(c),
{
    s.push(c)
}

/// Whether std considers the character alphanumeric: a property of the
/// character alone, decided by Unicode tables too long to restate here.
pub uninterp spec fn unicode_alnum(c: char) -> bool;

/// Relies on std's `char::is_alphanumeric`.
#[verifier::external_body]
pub(crate) fn char_is_alphanumeric(c: char) -> (r: bool)
    ensures
        r == unicode_alnum(c),
{
    c.is_alphanumeric()
}

/// What base64's standard, padded alphabet encodes the given bytes to.
pub uninterp spec fn base64_of(b: Seq<u8>) -> Seq<char>;

/// Relies on base64's `Engine::encode` with the `STANDARD` engine: the
/// encoding depends on the bytes alone, and with padding its length is
/// `4 * ceil(n / 3)`. The engine panics when that length does not fit in
/// `usize`, so very long inputs are excluded.
#[verifier::external_body]
pub(crate) fn base64_encode(b: &Vec<u8>) -> (r: String)
    requires
        b@.len() <= usize::MAX as int / 2,
    ensures
        r@ == base64_of(b@),
        r@.len() == 4 * ((b@.len() + 2) / 3),
{
    base64::engine::general_purpose::STANDARD.encode(b)
}

/// Whether serde_json's strict parser accepts the text as a JSON document.
pub uninterp spec fn json_ok(s: Seq<char>) -> bool;

/// Relies on serde_json's `from_str::<Value>`: acceptance depends on the
/// text alone.
#[verifier::external_body]
pub(crate) fn json_accepts(s: &str) -> (r: bool)
    ensures
        r == json_ok(s@),
{
    serde_json::from_str::<serde_json::Value>(s).is_ok()
}

/// The PNG encoding the image crate produces for a tightly packed RGBA
/// buffer with the given dimensions.
pub uninterp spec fn png_of(rgba: Seq<u8>, width: u32, height: u32) -> Seq<u8>;

/// Whether the PNG encoder accepts the buffer. Like the encoding itself,
/// acceptance depends on the pixels and dimensions alone.
pub uninterp spec fn png_ok(rgba: Seq<u8>, width: u32, height: u32) -> bool;

/// Relies on image's `RgbaImage::from_raw`, which accepts a buffer of
/// exactly `width * height * 4` bytes, and `ImageBuffer::write_to` with
/// `ImageFormat::Png`: the encoder runs with fixed compression and filter
/// settings, so acceptance and output depend on the pixels and dimensions
/// alone. For nonzero dimensions and an exactly sized buffer every
/// validation in the encoder passes and the in-memory writes cannot fail,
/// so the call succeeds. On success the output starts with the 8-byte PNG
/// signature, and as the contents of a byte `Vec` it is no longer than the
/// `isize::MAX` bytes std allows an allocation. The error text comes from
/// the image crate.
#[verifier::external_body]
pub(crate) fn png_encode(rgba: &Vec<u8>, width: u32, height: u32) -> (r: Result<Vec<u8>, String>)
    requires
        rgba@.len() == width * height * 4,
    ensures
        r is Ok == png_ok(rgba@, width, height),
        0 < width && 0 < height ==> r is Ok,
        r is Ok ==> r.unwrap()@ == png_of(rgba@, width, height),
        r is Ok ==> 0 < r.unwrap()@.len() <= usize::MAX / 2,
{
    let img = match image::RgbaImage::from_raw(width, height, rgba.clone()) {
        Some(i) => i,
        None => {
            return Err("buffer does not match the dimensions".to_string());
        },
    };
    let mut png: Vec<u8> = Vec::new();
    let mut cursor = std::io::Cursor::new(&mut png);
    match img.write_to(&mut cursor, image::ImageFormat::Png) {
        Ok(()) => Ok(png),
        Err(e) => Err(format!("{}", e)),
    }
}

/// The `%Y-%m-%d %H:%M:%S UTC` rendering of a UNIX timestamp.
pub uninterp spec fn utc_label_of(secs: i64) -> Seq<char>;

/// Relies on chrono's `DateTime::<Utc>::from_timestamp` and `format`:
/// `Some` for every second count up to the end of year 9999 (chrono's
/// supported range reaches far beyond), and the rendering depends on the
/// timestamp alone.
#[verifier::external_body]
pub(crate) fn format_utc_timestamp(secs: i64) -> (r: Option<String>)
    ensures
        r is Some ==> r.unwrap()@ == utc_label_of(secs),
        0 <= secs <= 253402300799 ==> r is Some,
{
    chrono::DateTime::<chrono::Utc>::from_timestamp(secs, 0).map(
        |dt| dt.format("%Y-%m-%d %H:%M:%S UTC").to_string(),
    )
}

/// Whether the url crate accepts the text as an absolute URL, and the parts
/// it reports for it. All are functions of the text alone.
pub uninterp spec fn url_ok(s: Seq<char>) -> bool;

pub uninterp spec fn url_scheme_of(s: Seq<char>) -> Seq<char>;

pub uninterp spec fn url_host_of(s: Seq<char>) -> Option<Seq<char>>;

pub uninterp spec fn url_path_of(s: Seq<char>) -> Seq<char>;

pub uninterp spec fn url_query_of(s: Seq<char>) -> Option<Seq<char>>;

/// Relies on url's `Url::parse` and the accessors `scheme`, `host_str`,
/// `path` and `query` of the parsed value. A parsed `Url` is opaque here,
/// so this one wrapper makes the parse and immediately reads the four parts
/// out as plain strings.
#[verifier::external_body]
pub(crate) fn parse_url_parts(s: &str) -> (r: Option<(String, Option<String>, String, Option<String>)>)
    ensures
        r is Some == url_ok(s@),
        r is Some ==> r.unwrap().0@ == url_scheme_of(s@),
        r is Some ==> opt_view(r.unwrap().1) == url_host_of(s@),
        r is Some ==> r.unwrap().2@ == url_path_of(s@),
        r is Some ==> opt_view(r.unwrap().3) == url_query_of(s@),
{
    match url::Url::parse(s) {
        Ok(u) => Some(
            (
                u.scheme().to_string(),
                u.host_str().map(|h| h.to_string()),
                u.path().to_string(),
                u.query().map(|q| q.to_string()),
            ),
        ),
        Err(_) => None,
    }
}

} // verus!
