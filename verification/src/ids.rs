//! Deterministic identifiers: a 64-bit FNV-1a style hash over the content
//! and timestamp for history entries, and plain composed message ids.
//! Collision-resistant for accidental collisions, not cryptographically
//! secure.

use vstd::prelude::*;
use vstd::string::StringExecFns;
use crate::text::{hex_chars, dec_chars, chars_of, push_hex, push_dec};

verus! {

pub const FNV_OFFSET: u64 = 0xcbf29ce484222325;

pub const FNV_PRIME: u64 = 0x100000001b3;

/// A value outside the range of any character, mixed in between the two
/// hashed fields so that their boundary matters.
pub const FIELD_MARK: u64 = 0x110000;

pub open spec fn fnv_step(h: u64, x: u64) -> u64 {
    (h ^ x).wrapping_mul(FNV_PRIME)
}

/// The hash folded over a character sequence.
pub open spec fn fnv_chars(s: Seq<char>, h: u64) -> u64
    decreases s.len(),
{
    if s.len() == 0 {
        h
    } else {
        fnv_chars(s.drop_first(), fnv_step(h, s[0] as u64))
    }
}

pub open spec fn clip_hash(content: Seq<char>, ts: Seq<char>) -> u64 {
    fnv_chars(ts, fnv_step(fnv_chars(content, FNV_OFFSET), FIELD_MARK))
}

/// The identifier of a history entry for the given content and timestamp.
pub open spec fn clip_id(content: Seq<char>, ts: Seq<char>) -> Seq<char> {
    "clip_"@ + hex_chars(clip_hash(content, ts) as nat)
}

/// The identifier of an inter-window message for the given capture time and
/// running counter.
pub open spec fn message_id(timestamp_millis: u64, counter: u64) -> Seq<char> {
    "msg_"@ + dec_chars(timestamp_millis as nat) + "_"@ + dec_chars(counter as nat)
}

fn fnv_fold(v: &Vec<char>, h0: u64) -> (h: u64)
    ensures
        h == fnv_chars(v@, h0),
{
    let mut h = h0;
    let mut i: usize = 0;
    proof {
        assert(v@.skip(0) =~= v@);
    }
    while i < v.len()
        invariant
            i <= v@.len(),
            fnv_chars(v@, h0) == fnv_chars(v@.skip(i as int), h),
        decreases v@.len() - i,
    {
        let ghost before = v@.skip(i as int);
        h = (h ^ (v[i] as u64)).wrapping_mul(FNV_PRIME);
        i += 1;
        proof {
            assert(before[0] == v@[i - 1]);
            assert(before.drop_first() =~= v@.skip(i as int));
        }
    }
    proof {
        assert(v@.skip(i as int) =~= Seq::<char>::empty());
    }
    h
}

/// A stable identifier derived deterministically from the content and the
/// capture timestamp.
pub fn generate_clipboard_id(content: &str, timestamp: &str) -> (r: String)
    ensures
        r@ == clip_id(content@, timestamp@),
{
    let cv = chars_of(content);
    let tv = chars_of(timestamp);
    let h1 = fnv_fold(&cv, FNV_OFFSET);
    let h2 = (h1 ^ FIELD_MARK).wrapping_mul(FNV_PRIME);
    let h = fnv_fold(&tv, h2);
    let mut r = String::from_str("clip_");
    push_hex(h, &mut r);
    r
}

/// A unique message identifier composed from the capture time in
/// milliseconds and a running counter the caller maintains.
pub fn generate_message_id(timestamp_millis: u64, counter: u64) -> (r: String)
    ensures
        r@ == message_id(timestamp_millis, counter),
{
    let mut r = String::from_str("msg_");
    push_dec(timestamp_millis, &mut r);
    r.append("_");
    push_dec(counter, &mut r);
    proof {
        assert(r@ =~= message_id(timestamp_millis, counter));
    }
    r
}

} // verus!
