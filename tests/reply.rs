use redis::Value;
use redis_browser::reply::{decode_replies, shape_reply};
use redis_browser::value::{KeyKind, Payload};
use redis_browser::RedisValue;

fn bulk(b: &[u8]) -> Value {
    Value::BulkString(b.to_vec())
}

#[test]
fn string_reply_is_read_as_bytes() {
    assert_eq!(shape_reply(KeyKind::Text, bulk(b"hello")), Payload::Bytes(b"hello".to_vec()));
    assert_eq!(shape_reply(KeyKind::Text, Value::Array(vec![bulk(b"first"), bulk(b"second")])), Payload::Bytes(b"first".to_vec()));
}

#[test]
fn list_reply_is_read_as_items() {
    let reply = Value::Array(vec![bulk(b"a"), bulk(&[0xff])]);
    assert_eq!(shape_reply(KeyKind::List, reply), Payload::Items(vec![b"a".to_vec(), vec![0xff]]));
}

#[test]
fn flat_score_reply_is_read_in_pairs() {
    let reply = Value::Array(vec![bulk(b"m1"), bulk(b"1"), bulk(b"m2"), bulk(b"2.5")]);
    assert_eq!(
        shape_reply(KeyKind::SortedSet, reply),
        Payload::Scored(vec![(b"m1".to_vec(), "1".to_string()), (b"m2".to_vec(), "2.5".to_string())])
    );
}

#[test]
fn flat_hash_reply_is_read_in_pairs() {
    let reply = Value::Array(vec![bulk(b"f"), bulk(&[0xfe])]);
    assert_eq!(shape_reply(KeyKind::Hash, reply), Payload::Fields(vec![("f".to_string(), vec![0xfe])]));
}

#[test]
fn reply_of_another_shape_is_unreadable() {
    assert_eq!(shape_reply(KeyKind::List, Value::Int(3)), Payload::Unreadable);
    assert_eq!(shape_reply(KeyKind::Other, bulk(b"x")), Payload::Unreadable);
}

#[test]
fn batch_replies_degrade_one_entry_only() {
    let types = vec!["string".to_string(), "list".to_string(), "none".to_string(), "set".to_string()];
    let replies = vec![bulk(b"v"), Value::Int(1), Value::Int(0), Value::Array(vec![bulk(b"s")])];
    assert_eq!(
        decode_replies(&types, replies),
        vec![
            RedisValue::String("v".to_string()),
            RedisValue::Absent,
            RedisValue::Absent,
            RedisValue::UnorderedSet(vec!["s".to_string()]),
        ]
    );
}

#[test]
fn missing_string_reads_as_empty_bytes() {
    assert_eq!(shape_reply(KeyKind::Text, Value::Nil), Payload::Bytes(Vec::new()));
}

#[test]
fn hash_reply_keeps_each_field_once() {
    let reply = Value::Array(vec![bulk(b"f"), bulk(b"old"), bulk(b"e"), bulk(b"x"), bulk(b"f"), bulk(b"new")]);
    assert_eq!(
        shape_reply(KeyKind::Hash, reply),
        Payload::Fields(vec![("e".to_string(), b"x".to_vec()), ("f".to_string(), b"new".to_vec())])
    );
}

#[test]
fn hash_reply_of_another_shape_is_unreadable() {
    assert_eq!(shape_reply(KeyKind::Hash, Value::Int(2)), Payload::Unreadable);
    assert_eq!(shape_reply(KeyKind::SortedSet, Value::Int(2)), Payload::Unreadable);
}

#[test]
fn batch_hash_reply_decodes_with_unique_fields() {
    let types = vec!["hash".to_string(), "string".to_string()];
    let replies = vec![
        Value::Array(vec![bulk(b"a"), bulk(b"1"), bulk(b"a"), bulk(&[0xff])]),
        bulk(b"ok"),
    ];
    assert_eq!(
        decode_replies(&types, replies),
        vec![
            RedisValue::Hash(vec![("a".to_string(), "/w==".to_string())]),
            RedisValue::String("ok".to_string()),
        ]
    );
}
