use redis_browser::keyspace::db_sizes;

#[test]
fn summary_counts_by_namespace() {
    let info = "# Keyspace\r\ndb0:keys=1,expires=0,avg_ttl=0\r\ndb5:keys=42,expires=3,avg_ttl=10\r\n";
    let mut expected = vec![0i64; 16];
    expected[0] = 1;
    expected[5] = 42;
    assert_eq!(db_sizes(info), expected);
}

#[test]
fn malformed_line_is_skipped() {
    let info = "db0:keys=1,expires=0,avg_ttl=0\ndbX:keys=oops\ndb5:keys=42,expires=3,avg_ttl=10";
    let mut expected = vec![0i64; 16];
    expected[0] = 1;
    expected[5] = 42;
    assert_eq!(db_sizes(info), expected);
}

#[test]
fn empty_summary_gives_zeros() {
    assert_eq!(db_sizes(""), vec![0i64; 16]);
    assert_eq!(db_sizes("# Keyspace\r\n"), vec![0i64; 16]);
}

#[test]
fn index_past_fifteen_is_skipped() {
    let mut expected = vec![0i64; 16];
    expected[15] = 3;
    assert_eq!(db_sizes("db16:keys=9\ndb15:keys=3\ndb99:keys=1"), expected);
}

#[test]
fn bad_counts_and_shapes_are_skipped() {
    assert_eq!(db_sizes("db1:keys=oops\ndb2:keys=\ndb3\ndb:keys=4\nxdb4:keys=5"), vec![0i64; 16]);
}

#[test]
fn metrics_are_trimmed_and_signed() {
    let mut expected = vec![0i64; 16];
    expected[1] = -7;
    expected[2] = 8;
    expected[3] = 12;
    assert_eq!(db_sizes("db1: keys=-7 ,expires=0\ndb2:keys=+8\ndb+3:keys=12"), expected);
}

#[test]
fn later_keys_metric_wins() {
    let mut expected = vec![0i64; 16];
    expected[4] = 2;
    assert_eq!(db_sizes("db4:keys=1,keys=2\n"), expected);
}

#[test]
fn text_after_second_colon_is_ignored() {
    let mut expected = vec![0i64; 16];
    expected[6] = 5;
    assert_eq!(db_sizes("db6:keys=5:keys=9"), expected);
}

#[test]
fn largest_count_is_read_and_overflow_skipped() {
    let mut expected = vec![0i64; 16];
    expected[0] = i64::MAX;
    expected[1] = i64::MIN;
    assert_eq!(
        db_sizes("db0:keys=9223372036854775807\ndb1:keys=-9223372036854775808\ndb2:keys=9223372036854775808"),
        expected
    );
}
