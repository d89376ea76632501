use redis_browser::command::{
    batch_fetch_commands, fetch_command, metadata_commands, type_commands, value_command, Arg,
};
use redis_browser::retrieval::{key_data, single_value};
use redis_browser::value::{decode_batch, entry_value, key_kind, string_value, KeyKind, Payload};
use redis_browser::RedisValue;

fn t(s: &str) -> Arg {
    Arg::Text(s.to_string())
}

fn strings(v: &[&str]) -> Vec<String> {
    v.iter().map(|s| s.to_string()).collect()
}

#[test]
fn type_names_are_classified() {
    assert_eq!(key_kind("string"), KeyKind::Text);
    assert_eq!(key_kind("list"), KeyKind::List);
    assert_eq!(key_kind("set"), KeyKind::UnorderedSet);
    assert_eq!(key_kind("zset"), KeyKind::SortedSet);
    assert_eq!(key_kind("hash"), KeyKind::Hash);
    assert_eq!(key_kind("none"), KeyKind::Other);
    assert_eq!(key_kind("stream"), KeyKind::Other);
    assert_eq!(key_kind("String"), KeyKind::Other);
}

#[test]
fn fetch_commands_by_kind() {
    assert_eq!(fetch_command("k", KeyKind::Text), vec![t("GET"), t("k")]);
    assert_eq!(fetch_command("k", KeyKind::List), vec![t("LRANGE"), t("k"), Arg::Int(0), Arg::Int(-1)]);
    assert_eq!(fetch_command("k", KeyKind::UnorderedSet), vec![t("SMEMBERS"), t("k")]);
    assert_eq!(
        fetch_command("k", KeyKind::SortedSet),
        vec![t("ZRANGE"), t("k"), Arg::Int(0), Arg::Int(-1), t("WITHSCORES")]
    );
    assert_eq!(fetch_command("k", KeyKind::Hash), vec![t("HGETALL"), t("k")]);
    assert_eq!(fetch_command("k", KeyKind::Other), vec![t("EXISTS"), t("k")]);
}

#[test]
fn single_key_of_unknown_kind_needs_no_fetch() {
    assert_eq!(value_command("k", KeyKind::Other), None);
    assert_eq!(value_command("k", KeyKind::Hash), Some(vec![t("HGETALL"), t("k")]));
}

#[test]
fn batch_commands_pair_keys_with_types() {
    let keys = strings(&["a", "b", "c"]);
    assert_eq!(
        type_commands(&keys),
        vec![vec![t("TYPE"), t("a")], vec![t("TYPE"), t("b")], vec![t("TYPE"), t("c")]]
    );
    let types = strings(&["set", "none", "string"]);
    assert_eq!(
        batch_fetch_commands(&keys, &types),
        vec![vec![t("SMEMBERS"), t("a")], vec![t("EXISTS"), t("b")], vec![t("GET"), t("c")]]
    );
    assert!(type_commands(&Vec::new()).is_empty());
}

#[test]
fn metadata_lookups() {
    assert_eq!(
        metadata_commands("k"),
        vec![
            vec![t("TTL"), t("k")],
            vec![t("MEMORY"), t("USAGE"), t("k")],
            vec![t("OBJECT"), t("ENCODING"), t("k")],
        ]
    );
}

#[test]
fn scalar_values() {
    assert_eq!(string_value(b"hi".to_vec()), RedisValue::String("hi".to_string()));
    assert_eq!(string_value(vec![0xff]), RedisValue::Binary("/w==".to_string()));
}

#[test]
fn payload_of_wrong_shape_is_absent() {
    assert_eq!(entry_value(KeyKind::List, Payload::Bytes(b"x".to_vec())), RedisValue::Absent);
    assert_eq!(entry_value(KeyKind::Text, Payload::Unreadable), RedisValue::Absent);
    assert_eq!(entry_value(KeyKind::Other, Payload::Bytes(b"x".to_vec())), RedisValue::Absent);
}

#[test]
fn batch_with_one_changed_key_keeps_the_others() {
    let types = strings(&["string", "list", "hash", "zset"]);
    let payloads = vec![
        Payload::Bytes(b"v".to_vec()),
        Payload::Unreadable,
        Payload::Fields(vec![("f".to_string(), b"1".to_vec())]),
        Payload::Scored(vec![(b"m".to_vec(), "2".to_string())]),
    ];
    assert_eq!(
        decode_batch(&types, payloads),
        vec![
            RedisValue::String("v".to_string()),
            RedisValue::Absent,
            RedisValue::Hash(vec![("f".to_string(), "1".to_string())]),
            RedisValue::ZSet(vec![("m".to_string(), "2".to_string())]),
        ]
    );
}

#[test]
fn empty_batch_is_empty() {
    assert!(decode_batch(&Vec::new(), Vec::new()).is_empty());
}

#[test]
fn single_and_batch_agree() {
    let payload = Payload::Items(vec![b"x".to_vec(), vec![0xff]]);
    let single = single_value(KeyKind::List, payload.clone()).unwrap();
    let batch = decode_batch(&strings(&["list"]), vec![payload]);
    assert_eq!(batch, vec![single.clone()]);
    assert_eq!(single, RedisValue::List(vec!["x".to_string(), "/w==".to_string()]));
}

#[test]
fn single_value_reports_a_wrong_shape() {
    assert_eq!(single_value(KeyKind::UnorderedSet, Payload::Bytes(vec![])), None);
    assert_eq!(single_value(KeyKind::Other, Payload::Unreadable), Some(RedisValue::Absent));
    assert_eq!(
        single_value(KeyKind::UnorderedSet, Payload::Items(vec![b"a".to_vec()])),
        Some(RedisValue::UnorderedSet(vec!["a".to_string()]))
    );
}

#[test]
fn text_value_with_no_expiry() {
    let value = single_value(KeyKind::Text, Payload::Bytes(b"hello".to_vec())).unwrap();
    let data = key_data("string".to_string(), value, -1, Some(56), Some("embstr".to_string()));
    assert_eq!(data.key_type, "string");
    assert_eq!(data.value, RedisValue::String("hello".to_string()));
    assert_eq!(data.ttl, -1);
    assert_eq!(data.memory, 56);
    assert_eq!(data.encoding, "embstr");
}

#[test]
fn missing_metadata_defaults() {
    let data = key_data("none".to_string(), RedisValue::Absent, -2, None, None);
    assert_eq!(data.memory, 0);
    assert_eq!(data.encoding, "none");
    assert_eq!(data.ttl, -2);
}
