//! Window-manager helpers that are pure data work: label validation and
//! sanitization, label generation, and the plain window data types.

use vstd::prelude::*;
use vstd::string::{StrSliceExecFns, StringExecFns};
use crate::outside::{unicode_alnum, char_is_alphanumeric};
use crate::text::{trim_while, dash_fn, dec_chars, chars_of, trim_dashes, string_of_chars,
    push_dec};

verus! {

#[derive(Debug, Clone)]
pub struct WindowInfo {
    pub label: String,
    pub title: String,
    pub url: String,
    pub is_visible: bool,
    pub is_focused: bool,
    pub width: u32,
    pub height: u32,
    pub x: i32,
    pub y: i32,
}

#[derive(Debug, Clone)]
pub struct CreateWindowOptions {
    pub label: String,
    pub title: String,
    pub url: String,
    pub width: Option<u32>,
    pub height: Option<u32>,
    pub x: Option<i32>,
    pub y: Option<i32>,
    pub resizable: Option<bool>,
    pub minimizable: Option<bool>,
    pub maximizable: Option<bool>,
    pub closable: Option<bool>,
    pub always_on_top: Option<bool>,
    pub decorations: Option<bool>,
    pub transparent: Option<bool>,
    pub visible: Option<bool>,
    pub center: Option<bool>,
}

impl Default for CreateWindowOptions {
    /// A visible, centered, decorated 800x600 window.
    fn default() -> (r: Self)
        ensures
            r.label@ == "new-window"@,
            r.title@ == "New Window"@,
            r.url@ == "/"@,
            r.width == Some(800u32),
            r.height == Some(600u32),
            r.x is None,
            r.y is None,
            r.resizable == Some(true),
            r.minimizable == Some(true),
            r.maximizable == Some(true),
            r.closable == Some(true),
            r.always_on_top == Some(false),
            r.decorations == Some(true),
            r.transparent == Some(false),
            r.visible == Some(true),
            r.center == Some(true),
    {
        CreateWindowOptions {
            label: String::from_str("new-window"),
            title: String::from_str("New Window"),
            url: String::from_str("/"),
            width: Some(800),
            height: Some(600),
            x: None,
            y: None,
            resizable: Some(true),
            minimizable: Some(true),
            maximizable: Some(true),
            closable: Some(true),
            always_on_top: Some(false),
            decorations: Some(true),
            transparent: Some(false),
            visible: Some(true),
            center: Some(true),
        }
    }
}

#[derive(Debug, Clone, Copy, PartialEq, Eq, Structural)]
pub enum WindowEventType {
    WindowCreated,
    WindowClosed,
    WindowFocused,
    WindowBlurred,
    WindowMoved,
    WindowResized,
    MessageReceived,
    BroadcastMessage,
}

// ---------------------------------------------------------------------------
// Labels
// ---------------------------------------------------------------------------

/// A character a window label may contain.
pub open spec fn label_char_ok(c: char) -> bool {
    unicode_alnum(c) || c == '-' || c == '_' || c == ' '
}

/// A label is valid when it is non-empty, at most 50 bytes, and made of
/// alphanumerics, dashes, underscores and spaces.
pub open spec fn label_valid(s: Seq<char>) -> bool {
    s.len() > 0 && vstd::utf8::encode_utf8(s).len() <= 50 && (forall|k: int|
        0 <= k < s.len() ==> label_char_ok(s[k]))
}

/// Validate a window label, reporting the first failing rule.
pub fn validate_window_label(label: &str) -> (r: Result<(), String>)
    ensures
        r is Ok <==> label_valid(label@),
        r is Err && label@.len() == 0 ==> r.unwrap_err()@ == "Window label cannot be empty"@,
        r is Err && label@.len() > 0 && vstd::utf8::encode_utf8(label@).len() > 50
            ==> r.unwrap_err()@ == "Window label too long (max 50 characters)"@,
        r is Err && label@.len() > 0 && vstd::utf8::encode_utf8(label@).len() <= 50
            ==> r.unwrap_err()@
            == "Window label can only contain alphanumeric characters, dashes, underscores, and spaces"@,
{
    if label.is_empty() {
        return Err(String::from_str("Window label cannot be empty"));
    }
    if label.as_bytes().len() > 50 {
        return Err(String::from_str("Window label too long (max 50 characters)"));
    }
    let v = chars_of(label);
    let mut i: usize = 0;
    while i < v.len()
        invariant
            v@ == label@,
            i <= v@.len(),
            v@.len() > 0,
            vstd::utf8::encode_utf8(label@).len() <= 50,
            forall|k: int| 0 <= k < i ==> label_char_ok(v@[k]),
        decreases v@.len() - i,
    {
        let c = v[i];
        if !(char_is_alphanumeric(c) || c == '-' || c == '_' || c == ' ') {
            return Err(
                String::from_str(
                    "Window label can only contain alphanumeric characters, dashes, underscores, and spaces",
                ),
            );
        }
        i += 1;
    }
    Ok(())
}

/// What sanitization turns one character into: spaces become dashes,
/// alphanumerics, dashes and underscores stay, everything else becomes a
/// dash.
pub open spec fn sanitize_char(c: char) -> char {
    if c == ' ' {
        '-'
    } else if unicode_alnum(c) || c == '-' || c == '_' {
        c
    } else {
        '-'
    }
}

/// The sanitized label: every character mapped, then dashes trimmed from
/// both ends.
pub open spec fn sanitized_label(s: Seq<char>) -> Seq<char> {
    trim_while(s.map(|i: int, c: char| sanitize_char(c)), dash_fn())
}

/// Sanitize a window label: spaces to dashes, invalid characters to
/// dashes, then strip dashes at the ends.
pub fn sanitize_window_label(label: &str) -> (r: String)
    ensures
        r@ == sanitized_label(label@),
{
    let v = chars_of(label);
    let mut mapped: Vec<char> = Vec::new();
    let mut i: usize = 0;
    while i < v.len()
        invariant
            v@ == label@,
            i <= v@.len(),
            mapped@.len() == i,
            forall|k: int| 0 <= k < i ==> mapped@[k] == sanitize_char(v@[k]),
        decreases v@.len() - i,
    {
        let c = v[i];
        let m = if c == ' ' {
            '-'
        } else if char_is_alphanumeric(c) || c == '-' || c == '_' {
            c
        } else {
            '-'
        };
        mapped.push(m);
        i += 1;
    }
    proof {
        assert(mapped@ =~= label@.map(|k: int, c: char| sanitize_char(c)));
    }
    let trimmed_label = trim_dashes(&mapped);
    string_of_chars(&trimmed_label)
}

/// The generated label for a window: the running counter, and the
/// sanitized user label when it is not empty.
pub open spec fn window_label(counter: u64, user_label: Seq<char>) -> Seq<char> {
    let clean = sanitized_label(user_label);
    if clean.len() == 0 {
        "window-cdc-"@ + dec_chars(counter as nat)
    } else {
        "window-cdc-"@ + dec_chars(counter as nat) + "-"@ + clean
    }
}

/// Generate a unique window label from the caller's running counter and
/// the sanitized user label.
pub fn generate_window_label(counter: u64, user_label: &str) -> (r: String)
    ensures
        r@ == window_label(counter, user_label@),
{
    let clean = sanitize_window_label(user_label);
    let mut r = String::from_str("window-cdc-");
    push_dec(counter, &mut r);
    if clean.as_str().is_empty() {
        proof {
            assert(r@ =~= window_label(counter, user_label@));
        }
    } else {
        r.append("-");
        r.append(clean.as_str());
        proof {
            assert(r@ =~= window_label(counter, user_label@));
        }
    }
    r
}

} // verus!
