//! Decoded values of stored keys, and how a fetched payload becomes one.

use crate::codec::{
    bytes_seqs, display_fields, display_scored, display_text, display_texts, field_seqs,
    format_redis_bytes, scored_seqs,
    format_redis_bytes_hash, format_redis_bytes_list, format_redis_bytes_zset,
};
use crate::text::text_eq;
use vstd::prelude::*;
use vstd::utf8::valid_utf8;

verus! {

/// The value of a key, ready for display.
///
/// `Binary` holds the base64 text of a payload that is not valid UTF-8.
/// Sorted-set scores are kept as the text the store sent.
#[derive(Debug, PartialEq, Clone)]
pub enum RedisValue {
    String(String),
    Binary(String),
    List(Vec<String>),
    UnorderedSet(Vec<String>),
    ZSet(Vec<(String, String)>),
    Hash(Vec<(String, String)>),
    Absent,
}

/// The mathematical content of a [`RedisValue`].
pub enum ValueModel {
    Text(Seq<char>),
    Binary(Seq<char>),
    List(Seq<Seq<char>>),
    UnorderedSet(Seq<Seq<char>>),
    ZSet(Seq<(Seq<char>, Seq<char>)>),
    Hash(Seq<(Seq<char>, Seq<char>)>),
    Absent,
}

pub open spec fn texts_view(v: Seq<String>) -> Seq<Seq<char>> {
    v.map_values(|s: String| s@)
}

pub open spec fn pairs_view(v: Seq<(String, String)>) -> Seq<(Seq<char>, Seq<char>)> {
    v.map_values(|p: (String, String)| (p.0@, p.1@))
}

impl View for RedisValue {
    type V = ValueModel;

    open spec fn view(&self) -> ValueModel {
        match self {
            RedisValue::String(s) => ValueModel::Text(s@),
            RedisValue::Binary(s) => ValueModel::Binary(s@),
            RedisValue::List(v) => ValueModel::List(texts_view(v@)),
            RedisValue::UnorderedSet(v) => ValueModel::UnorderedSet(texts_view(v@)),
            RedisValue::ZSet(v) => ValueModel::ZSet(pairs_view(v@)),
            RedisValue::Hash(v) => ValueModel::Hash(pairs_view(v@)),
            RedisValue::Absent => ValueModel::Absent,
        }
    }
}

/// The type of a key, as the store names it.
#[derive(PartialEq, Eq, Structural, Clone, Copy, Debug)]
pub enum KeyKind {
    Text,
    List,
    UnorderedSet,
    SortedSet,
    Hash,
    Other,
}

/// The kind that a type name of the store stands for.
pub open spec fn kind_of(t: Seq<char>) -> KeyKind {
    if t == "string"@ {
        KeyKind::Text
    } else if t == "list"@ {
        KeyKind::List
    } else if t == "set"@ {
        KeyKind::UnorderedSet
    } else if t == "zset"@ {
        KeyKind::SortedSet
    } else if t == "hash"@ {
        KeyKind::Hash
    } else {
        KeyKind::Other
    }
}

/// Classifies a type name of the store.
pub fn key_kind(t: &str) -> (r: KeyKind)
    ensures
        r == kind_of(t@),
{
    if text_eq(t, "string") {
        KeyKind::Text
    } else if text_eq(t, "list") {
        KeyKind::List
    } else if text_eq(t, "set") {
        KeyKind::UnorderedSet
    } else if text_eq(t, "zset") {
        KeyKind::SortedSet
    } else if text_eq(t, "hash") {
        KeyKind::Hash
    } else {
        KeyKind::Other
    }
}

/// A fetched reply, read in the shape that a key kind expects, or
/// `Unreadable` where the reply did not have that shape.
#[derive(Debug, PartialEq, Clone)]
pub enum Payload {
    Bytes(Vec<u8>),
    Items(Vec<Vec<u8>>),
    Scored(Vec<(Vec<u8>, String)>),
    Fields(Vec<(String, Vec<u8>)>),
    Unreadable,
}

/// The mathematical content of a [`Payload`]: the bytes and texts it holds.
pub enum PayloadModel {
    Bytes(Seq<u8>),
    Items(Seq<Seq<u8>>),
    Scored(Seq<(Seq<u8>, Seq<char>)>),
    Fields(Seq<(Seq<char>, Seq<u8>)>),
    Unreadable,
}

impl View for Payload {
    type V = PayloadModel;

    open spec fn view(&self) -> PayloadModel {
        match self {
            Payload::Bytes(b) => PayloadModel::Bytes(b@),
            Payload::Items(v) => PayloadModel::Items(bytes_seqs(v@)),
            Payload::Scored(v) => PayloadModel::Scored(scored_seqs(v@)),
            Payload::Fields(v) => PayloadModel::Fields(field_seqs(v@)),
            Payload::Unreadable => PayloadModel::Unreadable,
        }
    }
}

pub open spec fn payloads_view(v: Seq<Payload>) -> Seq<PayloadModel> {
    v.map_values(|p: Payload| p@)
}

/// Whether no two pairs share a name.
pub open spec fn distinct_names<V>(f: Seq<(Seq<char>, V)>) -> bool {
    forall|i: int, j: int| 0 <= i < j < f.len() ==> f[i].0 != f[j].0
}

/// The value model of a single payload: valid UTF-8 is text, anything else
/// is shown in base64.
pub open spec fn scalar_model(b: Seq<u8>) -> ValueModel {
    if valid_utf8(b) {
        ValueModel::Text(display_text(b))
    } else {
        ValueModel::Binary(display_text(b))
    }
}

/// The value that a payload gives for a key of kind `k`: a payload of
/// another shape, or a key of no known kind, gives `Absent`.
pub open spec fn entry_model(k: KeyKind, p: PayloadModel) -> ValueModel {
    match (k, p) {
        (KeyKind::Text, PayloadModel::Bytes(b)) => scalar_model(b),
        (KeyKind::List, PayloadModel::Items(v)) => ValueModel::List(display_texts(v)),
        (KeyKind::UnorderedSet, PayloadModel::Items(v)) => ValueModel::UnorderedSet(display_texts(v)),
        (KeyKind::SortedSet, PayloadModel::Scored(v)) => ValueModel::ZSet(display_scored(v)),
        (KeyKind::Hash, PayloadModel::Fields(v)) => ValueModel::Hash(display_fields(v)),
        _ => ValueModel::Absent,
    }
}

/// Whether a payload has the shape that kind `k` expects.
pub open spec fn fits(k: KeyKind, p: PayloadModel) -> bool {
    match (k, p) {
        (KeyKind::Text, PayloadModel::Bytes(_)) => true,
        (KeyKind::List, PayloadModel::Items(_)) => true,
        (KeyKind::UnorderedSet, PayloadModel::Items(_)) => true,
        (KeyKind::SortedSet, PayloadModel::Scored(_)) => true,
        (KeyKind::Hash, PayloadModel::Fields(_)) => true,
        _ => false,
    }
}

/// Decodes a single payload into a displayable value.
pub fn string_value(bytes: Vec<u8>) -> (r: RedisValue)
    ensures
        r@ == scalar_model(bytes@),
{
    let (s, is_utf8) = format_redis_bytes(bytes);
    if is_utf8 {
        RedisValue::String(s)
    } else {
        RedisValue::Binary(s)
    }
}

/// Decodes a payload fetched for a key of kind `k`; a payload of the wrong
/// shape gives `Absent` rather than an error.
pub fn entry_value(k: KeyKind, p: Payload) -> (r: RedisValue)
    ensures
        r@ == entry_model(k, p@),
{
    match (k, p) {
        (KeyKind::Text, Payload::Bytes(b)) => string_value(b),
        (KeyKind::List, Payload::Items(v)) => RedisValue::List(format_redis_bytes_list(v)),
        (KeyKind::UnorderedSet, Payload::Items(v)) => RedisValue::UnorderedSet(format_redis_bytes_list(v)),
        (KeyKind::SortedSet, Payload::Scored(v)) => RedisValue::ZSet(format_redis_bytes_zset(v)),
        (KeyKind::Hash, Payload::Fields(v)) => RedisValue::Hash(format_redis_bytes_hash(v)),
        _ => RedisValue::Absent,
    }
}

} // verus!

verus! {

/// The values of a batch: entry `i` comes from the type name `types[i]` and
/// the payload `ps[i]` alone, paired by position.
pub open spec fn batch_model(types: Seq<String>, ps: Seq<PayloadModel>) -> Seq<ValueModel> {
    Seq::new(
        if types.len() < ps.len() { types.len() } else { ps.len() },
        |i: int| entry_model(kind_of(types[i]@), ps[i]),
    )
}

pub open spec fn values_view(v: Seq<RedisValue>) -> Seq<ValueModel> {
    v.map_values(|x: RedisValue| x@)
}

/// Decodes the payloads of a batch, pairing each with the type name at the
/// same position. A payload of the wrong shape gives `Absent` for its own
/// entry and leaves the others untouched.
pub fn decode_batch(types: &Vec<String>, payloads: Vec<Payload>) -> (r: Vec<RedisValue>)
    ensures
        values_view(r@) == batch_model(types@, payloads_view(payloads@)),
{
    let n: usize = if types.len() < payloads.len() { types.len() } else { payloads.len() };
    let ghost model = batch_model(types@, payloads_view(payloads@));
    let mut rest = payloads;
    rest.truncate(n);
    let mut rev: Vec<RedisValue> = Vec::new();
    while rest.len() > 0
        invariant
            n <= types@.len(),
            n <= payloads@.len(),
            model == batch_model(types@, payloads_view(payloads@)),
            model.len() == n,
            rest@ == payloads@.subrange(0, rest@.len() as int),
            rest@.len() + rev@.len() == n,
            forall|j: int| 0 <= j < rev@.len() ==> #[trigger] rev@[j]@ == model[n - 1 - j],
        decreases rest@.len(),
    {
        let k: usize = rest.len() - 1;
        let ghost before = rest@;
        let p = match rest.pop() {
            Some(p) => p,
            None => Payload::Unreadable,
        };
        assert(p == payloads@[k as int]);
        assert(rest@ =~= payloads@.subrange(0, rest@.len() as int));
        let kind = key_kind(types[k].as_str());
        let v = entry_value(kind, p);
        rev.push(v);
    }
    let mut out: Vec<RedisValue> = Vec::new();
    while rev.len() > 0
        invariant
            model.len() == n,
            out@.len() + rev@.len() == n,
            forall|j: int| 0 <= j < rev@.len() ==> #[trigger] rev@[j]@ == model[n - 1 - j],
            forall|j: int| 0 <= j < out@.len() ==> #[trigger] out@[j]@ == model[j],
        decreases rev@.len(),
    {
        let ghost last = rev@.len() - 1;
        assert(rev@[last]@ == model[n - 1 - last]);
        match rev.pop() {
            Some(v) => out.push(v),
            None => {},
        }
    }
    assert(values_view(out@) =~= model);
    out
}

/// One entry of a batch that did not have the expected shape (its key
/// changed type between the two passes, say) becomes `Absent`, and every
/// other entry keeps the value it would have had.
pub proof fn lemma_batch_resilience(types: Seq<String>, ps: Seq<PayloadModel>, i: int, p: PayloadModel)
    requires
        0 <= i < types.len(),
        0 <= i < ps.len(),
        !fits(kind_of(types[i]@), p),
    ensures
        batch_model(types, ps.update(i, p)) == batch_model(types, ps).update(i, ValueModel::Absent),
{
    assert(batch_model(types, ps.update(i, p)) =~= batch_model(types, ps).update(i, ValueModel::Absent));
}

/// A batch of one key gives the value that the single-key path gives for
/// the same type and payload.
pub proof fn lemma_single_entry_batch(t: String, p: PayloadModel)
    ensures
        batch_model(seq![t], seq![p]) == seq![entry_model(kind_of(t@), p)],
{
    assert(batch_model(seq![t], seq![p]) =~= seq![entry_model(kind_of(t@), p)]);
}

} // verus!
