//! Reading raw store replies in the shape that a key kind expects.

use crate::codec::{bytes_seqs, field_seqs, scored_seqs};
use crate::value::{
    batch_model, decode_batch, distinct_names, key_kind, kind_of, payloads_view, values_view,
    KeyKind, Payload, PayloadModel, RedisValue, ValueModel,
};
use std::collections::BTreeMap;
use vstd::prelude::*;

verus! {

#[verifier::external_type_specification]
#[verifier::external_body]
pub struct ExValue(redis::Value);

/// The first item of a reply that is an array or a set, where it has one.
pub uninterp spec fn first_item_of(v: redis::Value) -> Option<redis::Value>;

/// A reply read as one byte string, where it can be.
pub uninterp spec fn bytes_reading(v: redis::Value) -> Option<Seq<u8>>;

/// A reply read as a list of byte strings, where it can be.
pub uninterp spec fn items_reading(v: redis::Value) -> Option<Seq<Seq<u8>>>;

/// A reply read as pairs of a byte string and a text, where it can be.
pub uninterp spec fn scored_reading(v: redis::Value) -> Option<Seq<(Seq<u8>, Seq<char>)>>;

/// A reply read as a map from texts to byte strings, where it can be, in
/// ascending order of the texts.
pub uninterp spec fn fields_reading(v: redis::Value) -> Option<Seq<(Seq<char>, Seq<u8>)>>;

/// Relies on `redis::Value::as_sequence`: a copy of the first item of a
/// reply that is an array or a set, where it has one.
#[verifier::external_body]
fn first_item(v: &redis::Value) -> (r: Option<redis::Value>)
    ensures
        r == first_item_of(*v),
{
    v.as_sequence().and_then(|items| items.first()).cloned()
}

/// Relies on `redis::from_redis_value::<Vec<u8>>`, whose result depends on
/// the reply alone.
#[verifier::external_body]
fn read_bytes(v: redis::Value) -> (r: Option<Vec<u8>>)
    ensures
        match r {
            Some(b) => bytes_reading(v) == Some(b@),
            None => bytes_reading(v) is None,
        },
{
    redis::from_redis_value::<Vec<u8>>(v).ok()
}

/// Relies on `redis::from_redis_value::<Vec<Vec<u8>>>`, whose result
/// depends on the reply alone.
#[verifier::external_body]
fn read_items(v: redis::Value) -> (r: Option<Vec<Vec<u8>>>)
    ensures
        match r {
            Some(x) => items_reading(v) == Some(bytes_seqs(x@)),
            None => items_reading(v) is None,
        },
{
    redis::from_redis_value::<Vec<Vec<u8>>>(v).ok()
}

/// Relies on `redis::from_redis_value::<Vec<(Vec<u8>, String)>>`, whose
/// result depends on the reply alone.
#[verifier::external_body]
fn read_scored(v: redis::Value) -> (r: Option<Vec<(Vec<u8>, String)>>)
    ensures
        match r {
            Some(x) => scored_reading(v) == Some(scored_seqs(x@)),
            None => scored_reading(v) is None,
        },
{
    redis::from_redis_value::<Vec<(Vec<u8>, String)>>(v).ok()
}

/// Relies on `redis::from_redis_value::<BTreeMap<String, Vec<u8>>>`, whose
/// result depends on the reply alone; as a map it holds each field once.
#[verifier::external_body]
fn read_fields(v: redis::Value) -> (r: Option<Vec<(String, Vec<u8>)>>)
    ensures
        match r {
            Some(x) => fields_reading(v) == Some(field_seqs(x@)),
            None => fields_reading(v) is None,
        },
        r matches Some(x) ==> distinct_names(field_seqs(x@)),
{
    redis::from_redis_value::<BTreeMap<String, Vec<u8>>>(v).ok().map(|m| m.into_iter().collect())
}

/// The reply that a string value is read from: a value that came back
/// wrapped in a sequence is read through its first item.
pub open spec fn text_target(reply: redis::Value) -> redis::Value {
    match first_item_of(reply) {
        Some(item) => item,
        None => reply,
    }
}

/// A reply read in the shape that kind `k` expects, or `Unreadable` where
/// it has another shape or the kind is not known.
pub open spec fn reading(k: KeyKind, reply: redis::Value) -> PayloadModel {
    match k {
        KeyKind::Text => match bytes_reading(text_target(reply)) {
            Some(b) => PayloadModel::Bytes(b),
            None => PayloadModel::Unreadable,
        },
        KeyKind::List | KeyKind::UnorderedSet => match items_reading(reply) {
            Some(v) => PayloadModel::Items(v),
            None => PayloadModel::Unreadable,
        },
        KeyKind::SortedSet => match scored_reading(reply) {
            Some(v) => PayloadModel::Scored(v),
            None => PayloadModel::Unreadable,
        },
        KeyKind::Hash => match fields_reading(reply) {
            Some(v) => PayloadModel::Fields(v),
            None => PayloadModel::Unreadable,
        },
        KeyKind::Other => PayloadModel::Unreadable,
    }
}

/// Each reply of a batch read for the type name at the same position.
pub open spec fn readings(types: Seq<String>, replies: Seq<redis::Value>) -> Seq<PayloadModel> {
    Seq::new(
        if types.len() < replies.len() { types.len() } else { replies.len() },
        |i: int| reading(kind_of(types[i]@), replies[i]),
    )
}

/// Reads a reply in the shape that kind `k` expects; a reply of another
/// shape, or a key of no known kind, gives `Unreadable`.
pub fn shape_reply(k: KeyKind, reply: redis::Value) -> (r: Payload)
    ensures
        r@ == reading(k, reply),
        r@ matches PayloadModel::Fields(f) ==> distinct_names(f),
{
    match k {
        KeyKind::Text => {
            let target = match first_item(&reply) {
                Some(item) => item,
                None => reply,
            };
            match read_bytes(target) {
                Some(b) => Payload::Bytes(b),
                None => Payload::Unreadable,
            }
        },
        KeyKind::List | KeyKind::UnorderedSet => match read_items(reply) {
            Some(v) => Payload::Items(v),
            None => Payload::Unreadable,
        },
        KeyKind::SortedSet => match read_scored(reply) {
            Some(v) => Payload::Scored(v),
            None => Payload::Unreadable,
        },
        KeyKind::Hash => match read_fields(reply) {
            Some(v) => Payload::Fields(v),
            None => Payload::Unreadable,
        },
        KeyKind::Other => Payload::Unreadable,
    }
}

/// Decodes the replies of the second pass of a batch fetch, each read for
/// the type name at the same position. A reply of the wrong shape leaves
/// its own entry `Absent`; every other entry decodes from its own reply.
pub fn decode_replies(types: &Vec<String>, replies: Vec<redis::Value>) -> (r: Vec<RedisValue>)
    ensures
        values_view(r@) == batch_model(types@, readings(types@, replies@)),
        forall|i: int|
            0 <= i < r@.len() ==> (#[trigger] r@[i]@ matches ValueModel::Hash(h) ==> distinct_names(h)),
{
    let n: usize = if types.len() < replies.len() { types.len() } else { replies.len() };
    let ghost target = readings(types@, replies@);
    let mut rest = replies;
    rest.truncate(n);
    let mut rev: Vec<Payload> = Vec::new();
    while rest.len() > 0
        invariant
            n <= types@.len(),
            n <= replies@.len(),
            target == readings(types@, replies@),
            target.len() == n,
            rest@ == replies@.subrange(0, rest@.len() as int),
            rest@.len() + rev@.len() == n,
            forall|j: int| 0 <= j < rev@.len() ==> #[trigger] rev@[j]@ == target[n - 1 - j],
            forall|j: int|
                0 <= j < rev@.len() ==> (#[trigger] rev@[j]@ matches PayloadModel::Fields(f)
                    ==> distinct_names(f)),
        decreases rest@.len(),
    {
        let k: usize = rest.len() - 1;
        let p = match rest.pop() {
            Some(reply) => {
                assert(reply == replies@[k as int]);
                shape_reply(key_kind(types[k].as_str()), reply)
            },
            None => Payload::Unreadable,
        };
        assert(rest@ =~= replies@.subrange(0, rest@.len() as int));
        rev.push(p);
    }
    let mut shaped: Vec<Payload> = Vec::new();
    while rev.len() > 0
        invariant
            target.len() == n,
            shaped@.len() + rev@.len() == n,
            forall|j: int| 0 <= j < rev@.len() ==> #[trigger] rev@[j]@ == target[n - 1 - j],
            forall|j: int| 0 <= j < shaped@.len() ==> #[trigger] shaped@[j]@ == target[j],
            forall|j: int|
                0 <= j < rev@.len() ==> (#[trigger] rev@[j]@ matches PayloadModel::Fields(f)
                    ==> distinct_names(f)),
            forall|j: int|
                0 <= j < shaped@.len() ==> (#[trigger] shaped@[j]@ matches PayloadModel::Fields(f)
                    ==> distinct_names(f)),
        decreases rev@.len(),
    {
        let ghost last = rev@.len() - 1;
        assert(rev@[last]@ == target[n - 1 - last]);
        match rev.pop() {
            Some(p) => shaped.push(p),
            None => {},
        }
    }
    assert(payloads_view(shaped@) =~= target);
    let ghost ps = shaped@;
    let r = decode_batch(types, shaped);
    assert forall|i: int|
        0 <= i < r@.len() implies (#[trigger] r@[i]@ matches ValueModel::Hash(h) ==> distinct_names(
        h,
    )) by {
        assert(values_view(r@).len() == r@.len());
        assert(i < ps.len());
        assert(values_view(r@)[i] == r@[i]@);
        assert(payloads_view(ps)[i] == ps[i]@);
        if let PayloadModel::Fields(f) = ps[i]@ {
            let h = crate::codec::display_fields(f);
            assert(distinct_names(f));
            assert forall|a: int, b: int| 0 <= a < b < h.len() implies h[a].0 != h[b].0 by {
                assert(h[a].0 == f[a].0 && h[b].0 == f[b].0);
            }
        }
    }
    r
}

} // verus!
