//! Decoding of raw byte payloads into display-safe text.
//!
//! A payload that is valid UTF-8 is shown as that text; any other payload is
//! shown as its standard base64 encoding, from which the exact bytes can be
//! restored.

use base64::engine::general_purpose;
use base64::Engine;
use vstd::prelude::*;
use vstd::utf8::{decode_utf8, encode_utf8, valid_utf8};

verus! {

/// The standard (padded) base64 text of a byte sequence.
pub uninterp spec fn base64_text(b: Seq<u8>) -> Seq<char>;

/// Relies on `base64::engine::general_purpose::STANDARD.encode`: the result is
/// the standard base64 text of the bytes.
#[verifier::external_body]
fn base64_encode(bytes: &[u8]) -> (r: String)
    ensures
        r@ == base64_text(bytes@),
{
    general_purpose::STANDARD.encode(bytes)
}

/// Relies on `base64::engine::general_purpose::STANDARD.decode`: the standard
/// text of some bytes decodes back to exactly those bytes.
#[verifier::external_body]
fn base64_decode(text: &str) -> (r: Option<Vec<u8>>)
    ensures
        forall|b: Seq<u8>| text@ == base64_text(b) ==> r is Some && r->0@ == b,
{
    general_purpose::STANDARD.decode(text).ok()
}

/// Relies on `String::from_utf8`: it succeeds exactly on valid UTF-8, and
/// otherwise hands the bytes back unchanged.
#[verifier::external_body]
fn utf8_string(bytes: Vec<u8>) -> (r: Result<String, Vec<u8>>)
    ensures
        match r {
            Ok(s) => valid_utf8(bytes@) && s@ == decode_utf8(bytes@),
            Err(v) => !valid_utf8(bytes@) && v@ == bytes@,
        },
{
    String::from_utf8(bytes).map_err(|e| e.into_bytes())
}

/// The display text of a payload: its UTF-8 text, or else its base64 text.
pub open spec fn display_text(b: Seq<u8>) -> Seq<char> {
    if valid_utf8(b) {
        decode_utf8(b)
    } else {
        base64_text(b)
    }
}

/// Whether `text`, shown as plain text (`plain`) or as base64, stands for the
/// bytes `b`.
pub open spec fn restores_to(text: Seq<char>, plain: bool, b: Seq<u8>) -> bool {
    if plain {
        encode_utf8(text) == b
    } else {
        text == base64_text(b)
    }
}

/// Decodes a payload: `(text, true)` when it is valid UTF-8, or
/// `(base64 text, false)` otherwise.
pub fn format_redis_bytes(bytes: Vec<u8>) -> (r: (String, bool))
    ensures
        r.0@ == display_text(bytes@),
        r.1 == valid_utf8(bytes@),
{
    match utf8_string(bytes) {
        Ok(s) => (s, true),
        Err(raw) => (base64_encode(raw.as_slice()), false),
    }
}

/// Restores the bytes that a displayed text stands for: its UTF-8 encoding
/// when `plain`, or else its base64 decoding (`None` if it is not base64).
pub fn restore_bytes(text: &str, plain: bool) -> (r: Option<Vec<u8>>)
    ensures
        plain ==> (r matches Some(v) && v@ == encode_utf8(text@)),
        forall|b: Seq<u8>| !plain && restores_to(text@, plain, b) ==> (r matches Some(v) && v@ == b),
{
    if plain {
        let v = vstd::slice::slice_to_vec(text.as_bytes());
        Some(v)
    } else {
        base64_decode(text)
    }
}

/// Decoding loses nothing: the displayed text of any payload restores exactly
/// that payload, in the plain and in the base64 form alike.
pub proof fn lemma_display_restores(b: Seq<u8>)
    ensures
        restores_to(display_text(b), valid_utf8(b), b),
{
    if valid_utf8(b) {
        vstd::utf8::decode_utf8_encode_utf8(b);
    }
}

} // verus!

verus! {

/// The bytes of each payload of a list.
pub open spec fn bytes_seqs(items: Seq<Vec<u8>>) -> Seq<Seq<u8>> {
    items.map_values(|b: Vec<u8>| b@)
}

/// The bytes of each sorted-set member, with the text of its score.
pub open spec fn scored_seqs(items: Seq<(Vec<u8>, String)>) -> Seq<(Seq<u8>, Seq<char>)> {
    items.map_values(|p: (Vec<u8>, String)| (p.0@, p.1@))
}

/// The text of each hash field, with the bytes of its value.
pub open spec fn field_seqs(items: Seq<(String, Vec<u8>)>) -> Seq<(Seq<char>, Seq<u8>)> {
    items.map_values(|p: (String, Vec<u8>)| (p.0@, p.1@))
}

/// The display texts of a sequence of payloads, element by element.
pub open spec fn display_texts(items: Seq<Seq<u8>>) -> Seq<Seq<char>> {
    items.map_values(|b: Seq<u8>| display_text(b))
}

/// Sorted-set members with their scores: each member decoded, each score kept.
pub open spec fn display_scored(items: Seq<(Seq<u8>, Seq<char>)>) -> Seq<(Seq<char>, Seq<char>)> {
    items.map_values(|p: (Seq<u8>, Seq<char>)| (display_text(p.0), p.1))
}

/// Hash fields with their values: each field kept, each value decoded.
pub open spec fn display_fields(items: Seq<(Seq<char>, Seq<u8>)>) -> Seq<(Seq<char>, Seq<char>)> {
    items.map_values(|p: (Seq<char>, Seq<u8>)| (p.0, display_text(p.1)))
}

/// Decodes every payload of a list, each on its own.
pub fn format_redis_bytes_list(bytes_list: Vec<Vec<u8>>) -> (r: Vec<String>)
    ensures
        r@.map_values(|s: String| s@) == display_texts(bytes_seqs(bytes_list@)),
{
    let mut out: Vec<String> = Vec::new();
    let mut i: usize = 0;
    while i < bytes_list.len()
        invariant
            i <= bytes_list@.len(),
            out@.map_values(|s: String| s@) == display_texts(bytes_seqs(bytes_list@)).subrange(0, i as int),
        decreases bytes_list@.len() - i,
    {
        let b = bytes_list[i].clone();
        assert(b@ =~= bytes_list@[i as int]@);
        let (s, _) = format_redis_bytes(b);
        proof {
            let ghost prev = out@;
            assert(prev.push(s).map_values(|s: String| s@) =~= prev.map_values(|s: String| s@).push(s@));
        }
        out.push(s);
        i += 1;
        assert(display_texts(bytes_seqs(bytes_list@)).subrange(0, i as int) =~= display_texts(bytes_seqs(bytes_list@)).subrange(0, i - 1).push(display_text(bytes_list@[i - 1]@)));
    }
    assert(display_texts(bytes_seqs(bytes_list@)).subrange(0, i as int) =~= display_texts(bytes_seqs(bytes_list@)));
    out
}

/// Decodes every member of a sorted set, keeping each score as sent.
pub fn format_redis_bytes_zset(zset: Vec<(Vec<u8>, String)>) -> (r: Vec<(String, String)>)
    ensures
        r@.map_values(|p: (String, String)| (p.0@, p.1@)) == display_scored(scored_seqs(zset@)),
{
    let mut out: Vec<(String, String)> = Vec::new();
    let mut i: usize = 0;
    while i < zset.len()
        invariant
            i <= zset@.len(),
            out@.map_values(|p: (String, String)| (p.0@, p.1@)) == display_scored(scored_seqs(zset@)).subrange(0, i as int),
        decreases zset@.len() - i,
    {
        let member = zset[i].0.clone();
        assert(member@ =~= zset@[i as int].0@);
        let score = zset[i].1.clone();
        let (s, _) = format_redis_bytes(member);
        let pair = (s, score);
        proof {
            let ghost prev = out@;
            assert(prev.push(pair).map_values(|p: (String, String)| (p.0@, p.1@)) =~= prev.map_values(|p: (String, String)| (p.0@, p.1@)).push((pair.0@, pair.1@)));
        }
        out.push(pair);
        i += 1;
        assert(display_scored(scored_seqs(zset@)).subrange(0, i as int) =~= display_scored(scored_seqs(zset@)).subrange(0, i - 1).push((display_text(zset@[i - 1].0@), zset@[i - 1].1@)));
    }
    assert(display_scored(scored_seqs(zset@)).subrange(0, i as int) =~= display_scored(scored_seqs(zset@)));
    out
}

/// Decodes the value of every hash field, keeping each field name.
pub fn format_redis_bytes_hash(hash: Vec<(String, Vec<u8>)>) -> (r: Vec<(String, String)>)
    ensures
        r@.map_values(|p: (String, String)| (p.0@, p.1@)) == display_fields(field_seqs(hash@)),
{
    let mut out: Vec<(String, String)> = Vec::new();
    let mut i: usize = 0;
    while i < hash.len()
        invariant
            i <= hash@.len(),
            out@.map_values(|p: (String, String)| (p.0@, p.1@)) == display_fields(field_seqs(hash@)).subrange(0, i as int),
        decreases hash@.len() - i,
    {
        let field = hash[i].0.clone();
        let value = hash[i].1.clone();
        assert(value@ =~= hash@[i as int].1@);
        let (s, _) = format_redis_bytes(value);
        let pair = (field, s);
        proof {
            let ghost prev = out@;
            assert(prev.push(pair).map_values(|p: (String, String)| (p.0@, p.1@)) =~= prev.map_values(|p: (String, String)| (p.0@, p.1@)).push((pair.0@, pair.1@)));
        }
        out.push(pair);
        i += 1;
        assert(display_fields(field_seqs(hash@)).subrange(0, i as int) =~= display_fields(field_seqs(hash@)).subrange(0, i - 1).push((hash@[i - 1].0@, display_text(hash@[i - 1].1@))));
    }
    assert(display_fields(field_seqs(hash@)).subrange(0, i as int) =~= display_fields(field_seqs(hash@)));
    out
}

} // verus!
