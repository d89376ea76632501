//! One step of a cursor-based key scan, with an adaptive batch-size hint.

use crate::command::{lit, word, Arg, ArgModel, args_view};
use crate::text::text_eq;
use vstd::prelude::*;

verus! {

/// The name and store type of one key found by a scan.
#[derive(Debug, PartialEq, Clone)]
pub struct RedisKeyInfo {
    pub name: String,
    pub key_type: String,
}

/// Whether a scan pattern restricts the keys: the empty pattern and `*`
/// both mean every key.
pub open spec fn restricts(pattern: Seq<char>) -> bool {
    pattern.len() > 0 && pattern != "*"@
}

/// The number of entries the store is asked to examine in one step, given
/// how many matches the scan has collected so far.
pub open spec fn batch_hint(restrictive: bool, found: int) -> u64 {
    if !restrictive || found == 0 {
        1000
    } else if found < 10 {
        10000
    } else if found < 50 {
        5000
    } else {
        3000
    }
}

/// Whether `pattern` restricts the keys of a scan.
pub fn has_pattern(pattern: &str) -> (r: bool)
    ensures
        r == restricts(pattern@),
{
    !pattern.is_empty() && !text_eq(pattern, "*")
}

/// The batch-size hint for the next step of a scan over `pattern`, after
/// `current_count` matches.
pub fn scan_count(pattern: &str, current_count: usize) -> (r: u64)
    ensures
        r == batch_hint(restricts(pattern@), current_count as int),
{
    if !has_pattern(pattern) {
        1000
    } else if current_count == 0 {
        1000
    } else if current_count < 10 {
        10000
    } else if current_count < 50 {
        5000
    } else {
        3000
    }
}

/// The match expression sent to the store: `*` for the empty pattern.
pub open spec fn match_expr(pattern: Seq<char>) -> Seq<char> {
    if pattern.len() == 0 {
        "*"@
    } else {
        pattern
    }
}

/// One scan step from `cursor`: `SCAN cursor MATCH expr COUNT hint`.
pub open spec fn scan_args(cursor: u64, pattern: Seq<char>, found: int) -> Seq<ArgModel> {
    seq![
        lit("SCAN"),
        ArgModel::Num(cursor as int),
        lit("MATCH"),
        ArgModel::Text(match_expr(pattern)),
        lit("COUNT"),
        ArgModel::Num(batch_hint(restricts(pattern), found) as int),
    ]
}

/// Builds one scan step from `cursor` over `pattern`, after `current_count`
/// matches.
pub fn scan_command(cursor: u64, pattern: &str, current_count: usize) -> (r: Vec<Arg>)
    ensures
        args_view(r@) == scan_args(cursor, pattern@, current_count as int),
{
    let count = scan_count(pattern, current_count);
    let mut r: Vec<Arg> = Vec::new();
    r.push(word("SCAN"));
    r.push(Arg::Unsigned(cursor));
    r.push(word("MATCH"));
    if pattern.is_empty() {
        r.push(word("*"));
    } else {
        r.push(word(pattern));
    }
    r.push(word("COUNT"));
    r.push(Arg::Unsigned(count));
    assert(args_view(r@) =~= scan_args(cursor, pattern@, current_count as int));
    r
}

pub open spec fn infos_view(v: Seq<RedisKeyInfo>) -> Seq<(Seq<char>, Seq<char>)> {
    v.map_values(|k: RedisKeyInfo| (k.name@, k.key_type@))
}

/// Names paired with the type names at the same positions.
pub open spec fn zipped(names: Seq<String>, types: Seq<String>) -> Seq<(Seq<char>, Seq<char>)> {
    Seq::new(
        if names.len() < types.len() { names.len() } else { types.len() },
        |i: int| (names[i]@, types[i]@),
    )
}

/// Pairs the key names of one scan step with the types that the pipelined
/// lookups returned, by position.
pub fn key_infos(names: Vec<String>, types: Vec<String>) -> (r: Vec<RedisKeyInfo>)
    ensures
        infos_view(r@) == zipped(names@, types@),
{
    let n: usize = if names.len() < types.len() { names.len() } else { types.len() };
    let mut r: Vec<RedisKeyInfo> = Vec::new();
    let mut i: usize = 0;
    while i < n
        invariant
            n <= names@.len(),
            n <= types@.len(),
            n == zipped(names@, types@).len(),
            i <= n,
            infos_view(r@) == zipped(names@, types@).subrange(0, i as int),
        decreases n - i,
    {
        let info = RedisKeyInfo { name: names[i].clone(), key_type: types[i].clone() };
        assert(infos_view(r@.push(info)) =~= infos_view(r@).push((info.name@, info.key_type@)));
        r.push(info);
        i += 1;
        assert(zipped(names@, types@).subrange(0, i as int) =~= zipped(names@, types@).subrange(
            0,
            i - 1,
        ).push((names@[i - 1]@, types@[i - 1]@)));
    }
    assert(zipped(names@, types@).subrange(0, i as int) =~= zipped(names@, types@));
    r
}

/// Listing every key always asks for the same large batch; with a
/// restrictive pattern the hint falls as the matches found so far pass 10
/// and then 50.
pub proof fn lemma_batch_hint_policy(a: int, b: int, c: int, any: int)
    requires
        1 <= a < 10,
        10 <= b < 50,
        50 <= c,
    ensures
        batch_hint(false, any) == 1000,
        batch_hint(true, a) > batch_hint(true, b) > batch_hint(true, c),
{
}

} // verus!
