//! One capture cycle: classify the payloads the backend handed over, fetch
//! the format inventory through the cache, assemble history entries, and
//! commit them to the store with deduplication. Image and text branches are
//! independent; one branch failing never aborts the other.

use vstd::prelude::*;
use vstd::string::StringExecFns;
use crate::cache::FormatCache;
use crate::classifier::{kind_of, html_shape, rtf_shape, classify_chars};
use crate::filelist::{file_list_shape, nonblank_fn, file_list_chars};
use crate::formats::{all_records, opt_text_view, opt_image_view, enumerate_formats};
use crate::history::{HistoryStore, append_result};
use crate::ids::{clip_id, generate_clipboard_id};
use crate::image_pipeline::process_image_data;
use crate::outside::{base64_of, png_of, png_ok, utc_label_of, format_utc_timestamp};
use crate::text::{
    all_blank, line_seqs, keep_if, dec_chars, chars_of, contains_lit, starts_with_lit,
    split_lines, all_blank_chars, string_of_chars, lemma_keep_if_push, dec_string,
};
use crate::types::{
    ClipboardFormat, ClipboardHistoryItem, ContentKind, EntryView, FormatView, RawImage,
};

verus! {

// ---------------------------------------------------------------------------
// What an assembled entry holds
// ---------------------------------------------------------------------------

/// The non-blank lines of the payload, kept for a file-list entry.
pub open spec fn nonblank_lines(s: Seq<char>) -> Seq<Seq<char>> {
    keep_if(line_seqs(s), nonblank_fn())
}

/// The history entry recorded for a text payload.
pub open spec fn text_entry_view(s: Seq<char>, ts: Seq<char>, fmts: Seq<FormatView>) -> EntryView {
    EntryView {
        id: clip_id(s, ts),
        timestamp: ts,
        formats: fmts,
        primary_content: s,
        content_type: kind_of(s),
        plain_text: Some(s),
        html_content: if html_shape(s) {
            Some(s)
        } else {
            None
        },
        rtf_content: if rtf_shape(s) {
            Some(s)
        } else {
            None
        },
        image_data: None,
        image_format: None,
        image_dimensions: None,
        file_paths: if file_list_shape(s) {
            Some(nonblank_lines(s))
        } else {
            None
        },
        file_list: if file_list_shape(s) {
            Some(s)
        } else {
            None
        },
        custom_formats: None,
    }
}

/// The synthesized primary content of an image entry.
pub open spec fn image_primary(width: u32, height: u32) -> Seq<char> {
    "Image "@ + dec_chars(width as nat) + "x"@ + dec_chars(height as nat)
}

/// The history entry recorded for an image payload.
pub open spec fn image_entry_view(
    rgba: Seq<u8>,
    width: u32,
    height: u32,
    ts: Seq<char>,
    fmts: Seq<FormatView>,
) -> EntryView {
    EntryView {
        id: clip_id("image_data"@, ts),
        timestamp: ts,
        formats: fmts,
        primary_content: image_primary(width, height),
        content_type: ContentKind::Image,
        plain_text: None,
        html_content: None,
        rtf_content: None,
        image_data: Some(base64_of(png_of(rgba, width, height))),
        image_format: Some("png"@),
        image_dimensions: Some((width, height)),
        file_paths: None,
        file_list: None,
        custom_formats: None,
    }
}

// ---------------------------------------------------------------------------
// The two capture branches
// ---------------------------------------------------------------------------

/// The non-blank lines of `lines` as fresh strings.
fn nonblank_line_strings(lines: &Vec<Vec<char>>) -> (r: Vec<String>)
    ensures
        r.deep_view() == keep_if(lines.deep_view(), nonblank_fn()),
{
    let ghost ls = lines.deep_view();
    let mut r: Vec<String> = Vec::new();
    let mut i: usize = 0;
    proof {
        assert(ls.take(0) =~= Seq::<Seq<char>>::empty());
        assert(r.deep_view() =~= keep_if(ls.take(0), nonblank_fn()));
    }
    while i < lines.len()
        invariant
            ls == lines.deep_view(),
            i <= lines@.len(),
            r.deep_view() == keep_if(ls.take(i as int), nonblank_fn()),
        decreases lines@.len() - i,
    {
        let ghost before = r.deep_view();
        proof {
            assert(ls.take(i + 1) =~= ls.take(i as int).push(ls[i as int]));
            lemma_keep_if_push(ls.take(i as int), nonblank_fn(), ls[i as int]);
            assert(ls[i as int] == lines@[i as int]@);
            assert(nonblank_fn()(ls[i as int]) == !all_blank(lines@[i as int]@));
        }
        if !all_blank_chars(&lines[i]) {
            r.push(string_of_chars(&lines[i]));
            proof {
                assert(r.deep_view() =~= before.push(ls[i as int]));
                assert(r.deep_view() =~= keep_if(ls.take(i + 1), nonblank_fn()));
            }
        } else {
            proof {
                assert(r.deep_view() =~= keep_if(ls.take(i + 1), nonblank_fn()));
            }
        }
        i += 1;
    }
    proof {
        assert(ls.take(i as int) =~= ls);
    }
    r
}

/// Record a text payload: classify it, populate the optional markup
/// sub-fields by their independent predicates, and commit with
/// deduplication. Empty text is nothing to do, not an error.
pub fn record_text_capture(
    store: &mut HistoryStore,
    formats: Vec<ClipboardFormat>,
    text: &str,
    timestamp: &str,
)
    requires
        old(store).wf(),
    ensures
        final(store).wf(),
        text@.len() == 0 ==> final(store)@ == old(store)@,
        text@.len() > 0 ==> final(store)@ == append_result(
            old(store)@,
            text_entry_view(text@, timestamp@, formats.deep_view()),
        ),
{
    if text.is_empty() {
        return;
    }
    let v = chars_of(text);
    let kind = classify_chars(&v);
    proof {
        assert(kind != ContentKind::Image);
    }
    let html_content = if contains_lit(&v, "<html>") || contains_lit(&v, "<!DOCTYPE")
        || contains_lit(&v, "<div") {
        Some(String::from_str(text))
    } else {
        None
    };
    let rtf_content = if starts_with_lit(&v, "{\\rtf") {
        Some(String::from_str(text))
    } else {
        None
    };
    let (file_paths, file_list) = if file_list_chars(&v) {
        let lines = split_lines(&v);
        (Some(nonblank_line_strings(&lines)), Some(String::from_str(text)))
    } else {
        (None, None)
    };
    let item = ClipboardHistoryItem {
        id: generate_clipboard_id(text, timestamp),
        timestamp: String::from_str(timestamp),
        formats,
        primary_content: String::from_str(text),
        content_type: kind,
        plain_text: Some(String::from_str(text)),
        html_content,
        rtf_content,
        image_data: None,
        image_format: None,
        image_dimensions: None,
        file_paths,
        file_list,
        custom_formats: None,
    };
    proof {
        assert(item@ =~= text_entry_view(text@, timestamp@, item.formats.deep_view()));
    }
    store.append(item);
}

/// Record an image payload: run the pipeline and commit the entry; a
/// pipeline failure only skips the image, leaving the store untouched.
/// Returns whether an entry was committed, which it is exactly when the
/// buffer matches the dimensions and the encoder accepts it.
pub fn record_image_capture(
    store: &mut HistoryStore,
    formats: Vec<ClipboardFormat>,
    image: &RawImage,
    timestamp: &str,
) -> (ok: bool)
    requires
        old(store).wf(),
    ensures
        final(store).wf(),
        ok == (image.rgba@.len() == image.width * image.height * 4 && png_ok(
            image.rgba@,
            image.width,
            image.height,
        )),
        image.rgba@.len() == image.width * image.height * 4 && 0 < image.width && 0 < image.height
            ==> ok,
        ok ==> final(store)@ == append_result(
            old(store)@,
            image_entry_view(
                image.rgba@,
                image.width,
                image.height,
                timestamp@,
                formats.deep_view(),
            ),
        ),
        !ok ==> final(store)@ == old(store)@,
{
    match process_image_data(&image.rgba, image.width, image.height) {
        Ok(out) => {
            let mut primary = String::from_str("Image ");
            primary.append(dec_string(image.width as u64).as_str());
            primary.append("x");
            primary.append(dec_string(image.height as u64).as_str());
            let item = ClipboardHistoryItem {
                id: generate_clipboard_id("image_data", timestamp),
                timestamp: String::from_str(timestamp),
                formats,
                primary_content: primary,
                content_type: ContentKind::Image,
                plain_text: None,
                html_content: None,
                rtf_content: None,
                image_data: Some(out.0),
                image_format: Some(out.1),
                image_dimensions: Some(out.2),
                file_paths: None,
                file_list: None,
                custom_formats: None,
            };
            proof {
                assert(item@ =~= image_entry_view(
                    image.rgba@,
                    image.width,
                    image.height,
                    timestamp@,
                    item.formats.deep_view(),
                ));
            }
            store.append(item);
            true
        },
        Err(_) => false,
    }
}

// ---------------------------------------------------------------------------
// The orchestrated cycle
// ---------------------------------------------------------------------------

/// The format inventory a capture at `now` sees: the cached one while it is
/// fresh, otherwise a fresh enumeration of the payloads.
pub open spec fn cache_formats_out(
    c: FormatCache,
    now: u64,
    text: Option<Seq<char>>,
    image: Option<(Seq<u8>, u32, u32)>,
) -> Seq<FormatView> {
    if c.fresh_at(now) {
        c.entry().unwrap().0
    } else {
        all_records(text, image)
    }
}

/// The image branch commits exactly when there is an image payload whose
/// buffer matches its dimensions and which the PNG encoder accepts.
pub open spec fn image_commits(image: Option<(Seq<u8>, u32, u32)>) -> bool {
    match image {
        Some((b, w, h)) => b.len() == w * h * 4 && png_ok(b, w, h),
        None => false,
    }
}

/// An image payload with nonzero dimensions and a matching buffer; the
/// encoder accepts every such payload, so its capture always commits.
pub open spec fn image_nonzero_valid(image: Option<(Seq<u8>, u32, u32)>) -> bool {
    match image {
        Some((b, w, h)) => b.len() == w * h * 4 && 0 < w && 0 < h,
        None => false,
    }
}

/// What the store holds after one capture cycle.
pub open spec fn capture_result(
    start: Seq<EntryView>,
    fmts: Seq<FormatView>,
    ts: Seq<char>,
    text: Option<Seq<char>>,
    image: Option<(Seq<u8>, u32, u32)>,
) -> Seq<EntryView> {
    let mid = match image {
        Some((b, w, h)) => if image_commits(image) {
            append_result(start, image_entry_view(b, w, h, ts, fmts))
        } else {
            start
        },
        None => start,
    };
    match text {
        Some(s) => if s.len() > 0 {
            append_result(mid, text_entry_view(s, ts, fmts))
        } else {
            mid
        },
        None => mid,
    }
}

/// The shared format inventory for one inspection at `now`: the cached
/// list while fresh, otherwise a fresh enumeration of the payloads, which
/// is stored and stamped.
pub fn get_cached_formats(
    cache: &mut FormatCache,
    now: u64,
    text: Option<&str>,
    image: Option<&RawImage>,
) -> (r: Vec<ClipboardFormat>)
    requires
        match text {
            Some(t) => 8 * t@.len() <= usize::MAX,
            None => true,
        },
        match image {
            Some(im) => im.rgba@.len() <= usize::MAX / 2,
            None => true,
        },
    ensures
        r.deep_view() == cache_formats_out(*old(cache), now, opt_text_view(text), opt_image_view(image)),
        old(cache).fresh_at(now) ==> *final(cache) == *old(cache),
        !old(cache).fresh_at(now) ==> final(cache).entry() == Some((r.deep_view(), now)),
{
    let compute = || -> (out: Vec<ClipboardFormat>)
        requires
            match text {
                Some(t) => 8 * t@.len() <= usize::MAX,
                None => true,
            },
            match image {
                Some(im) => im.rgba@.len() <= usize::MAX / 2,
                None => true,
            },
        ensures
            out.deep_view() == all_records(opt_text_view(text), opt_image_view(image)),
        { enumerate_formats(text, image) };
    cache.get_or_compute(now, compute)
}

/// The timestamp label of a capture at `now`.
pub open spec fn stamp_of(now: u64) -> Seq<char> {
    utc_label_of(now as i64)
}

/// Latest capture second the recorder accepts: the end of year 9999, the
/// range over which the timestamp formatter is known to succeed.
pub const LAST_SUPPORTED_SECOND: u64 = 253402300799;

/// One capture cycle: both branches may fire in the same cycle, as two
/// independent capture events sharing one cached format inventory.
pub fn record_capture(
    store: &mut HistoryStore,
    cache: &mut FormatCache,
    now: u64,
    text: Option<&str>,
    image: Option<&RawImage>,
)
    requires
        old(store).wf(),
        now <= LAST_SUPPORTED_SECOND,
        match text {
            Some(t) => 8 * t@.len() <= usize::MAX,
            None => true,
        },
        match image {
            Some(im) => im.rgba@.len() <= usize::MAX / 2,
            None => true,
        },
    ensures
        final(store).wf(),
        final(store)@ == capture_result(
            old(store)@,
            cache_formats_out(*old(cache), now, opt_text_view(text), opt_image_view(image)),
            stamp_of(now),
            opt_text_view(text),
            opt_image_view(image),
        ),
        image_nonzero_valid(opt_image_view(image)) ==> image_commits(opt_image_view(image)),
        old(cache).fresh_at(now) ==> *final(cache) == *old(cache),
        !old(cache).fresh_at(now) ==> final(cache).entry() == Some(
            (
                cache_formats_out(*old(cache), now, opt_text_view(text), opt_image_view(image)),
                now,
            ),
        ),
{
    let ghost tvw = opt_text_view(text);
    let ghost ivw = opt_image_view(image);
    let formats = get_cached_formats(cache, now, text, image);
    let ghost fmts = cache_formats_out(*old(cache), now, tvw, ivw);
    let ts = match format_utc_timestamp(now as i64) {
        Some(t) => t,
        None => {
            proof {
                assert(false);
            }
            String::new()
        },
    };
    match image {
        Some(im) => {
            let committed = record_image_capture(
                store,
                crate::cache::clone_formats(&formats),
                im,
                ts.as_str(),
            );
            proof {
                assert(committed == image_commits(ivw));
            }
        },
        None => {},
    }
    match text {
        Some(t) => {
            record_text_capture(store, formats, t, ts.as_str());
        },
        None => {},
    }
    proof {
        assert(store@ == capture_result(old(store)@, fmts, stamp_of(now), tvw, ivw));
    }
}

} // verus!
