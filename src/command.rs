//! The commands that the library asks the store to run, as plain values.

use crate::value::{key_kind, kind_of, KeyKind};
use vstd::prelude::*;

verus! {

/// One argument of a store command.
#[derive(Debug, PartialEq, Clone)]
pub enum Arg {
    Text(String),
    Int(i64),
    Unsigned(u64),
}

/// The mathematical content of an [`Arg`]: numbers are sent in decimal, so
/// only their value matters.
pub enum ArgModel {
    Text(Seq<char>),
    Num(int),
}

impl View for Arg {
    type V = ArgModel;

    open spec fn view(&self) -> ArgModel {
        match self {
            Arg::Text(s) => ArgModel::Text(s@),
            Arg::Int(n) => ArgModel::Num(*n as int),
            Arg::Unsigned(n) => ArgModel::Num(*n as int),
        }
    }
}

pub open spec fn args_view(v: Seq<Arg>) -> Seq<ArgModel> {
    v.map_values(|a: Arg| a@)
}

pub open spec fn commands_view(v: Seq<Vec<Arg>>) -> Seq<Seq<ArgModel>> {
    v.map_values(|c: Vec<Arg>| args_view(c@))
}

pub open spec fn lit(s: &str) -> ArgModel {
    ArgModel::Text(s@)
}

/// A text argument.
pub fn word(s: &str) -> (r: Arg)
    ensures
        r@ == ArgModel::Text(s@),
{
    Arg::Text(s.to_owned())
}

/// The command that fetches the whole value of a key of kind `k`; a key of
/// no known kind is probed for existence, so that a batch keeps one reply
/// per key.
pub open spec fn fetch_args(key: Seq<char>, k: KeyKind) -> Seq<ArgModel> {
    match k {
        KeyKind::Text => seq![lit("GET"), ArgModel::Text(key)],
        KeyKind::List => seq![lit("LRANGE"), ArgModel::Text(key), ArgModel::Num(0), ArgModel::Num(-1)],
        KeyKind::UnorderedSet => seq![lit("SMEMBERS"), ArgModel::Text(key)],
        KeyKind::SortedSet => seq![
            lit("ZRANGE"),
            ArgModel::Text(key),
            ArgModel::Num(0),
            ArgModel::Num(-1),
            lit("WITHSCORES"),
        ],
        KeyKind::Hash => seq![lit("HGETALL"), ArgModel::Text(key)],
        KeyKind::Other => seq![lit("EXISTS"), ArgModel::Text(key)],
    }
}

/// Builds the command that fetches the value of `key`, of kind `k`.
pub fn fetch_command(key: &str, k: KeyKind) -> (r: Vec<Arg>)
    ensures
        args_view(r@) == fetch_args(key@, k),
{
    let mut r: Vec<Arg> = Vec::new();
    match k {
        KeyKind::Text => {
            r.push(word("GET"));
            r.push(word(key));
        },
        KeyKind::List => {
            r.push(word("LRANGE"));
            r.push(word(key));
            r.push(Arg::Int(0));
            r.push(Arg::Int(-1));
        },
        KeyKind::UnorderedSet => {
            r.push(word("SMEMBERS"));
            r.push(word(key));
        },
        KeyKind::SortedSet => {
            r.push(word("ZRANGE"));
            r.push(word(key));
            r.push(Arg::Int(0));
            r.push(Arg::Int(-1));
            r.push(word("WITHSCORES"));
        },
        KeyKind::Hash => {
            r.push(word("HGETALL"));
            r.push(word(key));
        },
        KeyKind::Other => {
            r.push(word("EXISTS"));
            r.push(word(key));
        },
    }
    assert(args_view(r@) =~= fetch_args(key@, k));
    r
}

/// The command that fetches the value of a single key: none for a key of
/// no known kind, whose value is `Absent` without a round trip.
pub fn value_command(key: &str, k: KeyKind) -> (r: Option<Vec<Arg>>)
    ensures
        k == KeyKind::Other ==> r is None,
        k != KeyKind::Other ==> (r matches Some(c) && args_view(c@) == fetch_args(key@, k)),
{
    match k {
        KeyKind::Other => None,
        _ => Some(fetch_command(key, k)),
    }
}

/// The type lookup of one key.
pub open spec fn type_args(key: Seq<char>) -> Seq<ArgModel> {
    seq![lit("TYPE"), ArgModel::Text(key)]
}

/// One type lookup per key, in the order of the keys, for one pipelined
/// round trip.
pub fn type_commands(keys: &Vec<String>) -> (r: Vec<Vec<Arg>>)
    ensures
        commands_view(r@) == keys@.map_values(|k: String| type_args(k@)),
{
    let mut r: Vec<Vec<Arg>> = Vec::new();
    let mut i: usize = 0;
    while i < keys.len()
        invariant
            i <= keys@.len(),
            commands_view(r@) == keys@.subrange(0, i as int).map_values(|k: String| type_args(k@)),
        decreases keys@.len() - i,
    {
        let mut c: Vec<Arg> = Vec::new();
        c.push(word("TYPE"));
        c.push(word(keys[i].as_str()));
        assert(args_view(c@) =~= type_args(keys@[i as int]@));
        assert(commands_view(r@.push(c)) =~= commands_view(r@).push(args_view(c@)));
        r.push(c);
        i += 1;
        assert(keys@.subrange(0, i as int).map_values(|k: String| type_args(k@)) =~= keys@.subrange(
            0,
            i - 1,
        ).map_values(|k: String| type_args(k@)).push(type_args(keys@[i - 1]@)));
    }
    assert(keys@.subrange(0, i as int) =~= keys@);
    r
}

/// The three metadata lookups of a key: remaining time to live, memory
/// footprint and storage encoding.
pub open spec fn metadata_args(key: Seq<char>) -> Seq<Seq<ArgModel>> {
    seq![
        seq![lit("TTL"), ArgModel::Text(key)],
        seq![lit("MEMORY"), lit("USAGE"), ArgModel::Text(key)],
        seq![lit("OBJECT"), lit("ENCODING"), ArgModel::Text(key)],
    ]
}

/// Builds the metadata lookups of `key`, for one pipelined round trip.
pub fn metadata_commands(key: &str) -> (r: Vec<Vec<Arg>>)
    ensures
        commands_view(r@) == metadata_args(key@),
{
    let mut ttl: Vec<Arg> = Vec::new();
    ttl.push(word("TTL"));
    ttl.push(word(key));
    let mut memory: Vec<Arg> = Vec::new();
    memory.push(word("MEMORY"));
    memory.push(word("USAGE"));
    memory.push(word(key));
    let mut encoding: Vec<Arg> = Vec::new();
    encoding.push(word("OBJECT"));
    encoding.push(word("ENCODING"));
    encoding.push(word(key));
    let mut r: Vec<Vec<Arg>> = Vec::new();
    r.push(ttl);
    r.push(memory);
    r.push(encoding);
    assert(args_view(r@[0]@) =~= metadata_args(key@)[0]);
    assert(args_view(r@[1]@) =~= metadata_args(key@)[1]);
    assert(args_view(r@[2]@) =~= metadata_args(key@)[2]);
    assert(commands_view(r@) =~= metadata_args(key@));
    r
}

/// The fetch commands of a batch: for each key, the fetch for the kind
/// that the type lookup at the same position reported.
pub open spec fn batch_fetch_args(keys: Seq<String>, types: Seq<String>) -> Seq<Seq<ArgModel>> {
    Seq::new(
        if keys.len() < types.len() { keys.len() } else { types.len() },
        |i: int| fetch_args(keys[i]@, kind_of(types[i]@)),
    )
}

/// Builds the second pass of a batch fetch: one command per key, paired
/// with the type names by position.
pub fn batch_fetch_commands(keys: &Vec<String>, types: &Vec<String>) -> (r: Vec<Vec<Arg>>)
    ensures
        commands_view(r@) == batch_fetch_args(keys@, types@),
{
    let n: usize = if keys.len() < types.len() { keys.len() } else { types.len() };
    let mut r: Vec<Vec<Arg>> = Vec::new();
    let mut i: usize = 0;
    while i < n
        invariant
            n <= keys@.len(),
            n <= types@.len(),
            n == batch_fetch_args(keys@, types@).len(),
            i <= n,
            commands_view(r@) == batch_fetch_args(keys@, types@).subrange(0, i as int),
        decreases n - i,
    {
        let c = fetch_command(keys[i].as_str(), key_kind(types[i].as_str()));
        assert(commands_view(r@.push(c)) =~= commands_view(r@).push(args_view(c@)));
        r.push(c);
        i += 1;
        assert(batch_fetch_args(keys@, types@).subrange(0, i as int) =~= batch_fetch_args(
            keys@,
            types@,
        ).subrange(0, i - 1).push(fetch_args(keys@[i - 1]@, kind_of(types@[i - 1]@))));
    }
    assert(batch_fetch_args(keys@, types@).subrange(0, i as int) =~= batch_fetch_args(keys@, types@));
    r
}

} // verus!
