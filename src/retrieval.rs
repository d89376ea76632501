//! The result of reading one key: its type, value and metadata.

use crate::value::{entry_model, entry_value, fits, KeyKind, Payload, RedisValue};
use vstd::prelude::*;
use vstd::string::StringExecFns;

verus! {

/// Everything shown about one key.
///
/// `ttl` is the store's remaining time to live, with its own sentinels for
/// "no expiry" (-1) and "no such key" (-2). `memory` and `encoding` are
/// informational.
#[derive(Debug, PartialEq, Clone)]
pub struct RedisKeyData {
    pub key_type: String,
    pub value: RedisValue,
    pub ttl: i64,
    pub memory: i64,
    pub encoding: String,
}

/// The value of a single key of kind `k` from its fetched payload: `None`
/// when a key of a known kind came back in another shape, which the caller
/// reports as a failure.
pub fn single_value(k: KeyKind, p: Payload) -> (r: Option<RedisValue>)
    ensures
        r is Some <==> (k == KeyKind::Other || fits(k, p@)),
        r matches Some(v) ==> v@ == entry_model(k, p@),
{
    if k != KeyKind::Other && !payload_fits(k, &p) {
        None
    } else {
        Some(entry_value(k, p))
    }
}

fn payload_fits(k: KeyKind, p: &Payload) -> (r: bool)
    ensures
        r == fits(k, p@),
{
    match (k, p) {
        (KeyKind::Text, Payload::Bytes(_)) => true,
        (KeyKind::List, Payload::Items(_)) => true,
        (KeyKind::UnorderedSet, Payload::Items(_)) => true,
        (KeyKind::SortedSet, Payload::Scored(_)) => true,
        (KeyKind::Hash, Payload::Fields(_)) => true,
        _ => false,
    }
}

/// Assembles what is shown about a key; a missing memory figure counts as
/// 0 and a missing encoding as `none`.
pub fn key_data(
    key_type: String,
    value: RedisValue,
    ttl: i64,
    memory: Option<i64>,
    encoding: Option<String>,
) -> (r: RedisKeyData)
    ensures
        r.key_type == key_type,
        r.value == value,
        r.ttl == ttl,
        r.memory == match memory {
            Some(m) => m,
            None => 0,
        },
        r.encoding@ == match encoding {
            Some(e) => e@,
            None => "none"@,
        },
{
    let memory = match memory {
        Some(m) => m,
        None => 0,
    };
    let encoding = match encoding {
        Some(e) => e,
        None => String::from_str("none"),
    };
    RedisKeyData { key_type, value, ttl, memory, encoding }
}

} // verus!
