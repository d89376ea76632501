use redis_browser::command::Arg;
use redis_browser::scan::{has_pattern, key_infos, scan_command, scan_count};
use redis_browser::RedisKeyInfo;

#[test]
fn listing_everything_uses_a_fixed_hint() {
    for n in [0usize, 1, 9, 10, 49, 50, 1000, usize::MAX] {
        assert_eq!(scan_count("", n), 1000);
        assert_eq!(scan_count("*", n), 1000);
    }
}

#[test]
fn restrictive_pattern_hint_falls_as_matches_grow() {
    assert_eq!(scan_count("user:*", 0), 1000);
    assert_eq!(scan_count("user:*", 1), 10000);
    assert_eq!(scan_count("user:*", 9), 10000);
    assert_eq!(scan_count("user:*", 10), 5000);
    assert_eq!(scan_count("user:*", 49), 5000);
    assert_eq!(scan_count("user:*", 50), 3000);
    assert_eq!(scan_count("user:*", 100000), 3000);
    assert!(scan_count("user:*", 9) > scan_count("user:*", 10));
    assert!(scan_count("user:*", 49) > scan_count("user:*", 50));
}

#[test]
fn only_empty_and_star_match_everything() {
    assert!(!has_pattern(""));
    assert!(!has_pattern("*"));
    assert!(has_pattern("**"));
    assert!(has_pattern("a*"));
}

#[test]
fn scan_step_command() {
    assert_eq!(
        scan_command(0, "", 0),
        vec![
            Arg::Text("SCAN".to_string()),
            Arg::Unsigned(0),
            Arg::Text("MATCH".to_string()),
            Arg::Text("*".to_string()),
            Arg::Text("COUNT".to_string()),
            Arg::Unsigned(1000),
        ]
    );
    assert_eq!(
        scan_command(17, "session:*", 12),
        vec![
            Arg::Text("SCAN".to_string()),
            Arg::Unsigned(17),
            Arg::Text("MATCH".to_string()),
            Arg::Text("session:*".to_string()),
            Arg::Text("COUNT".to_string()),
            Arg::Unsigned(5000),
        ]
    );
}

#[test]
fn names_are_paired_with_types_by_position() {
    let infos = key_infos(
        vec!["a".to_string(), "b".to_string()],
        vec!["string".to_string(), "hash".to_string()],
    );
    assert_eq!(
        infos,
        vec![
            RedisKeyInfo { name: "a".to_string(), key_type: "string".to_string() },
            RedisKeyInfo { name: "b".to_string(), key_type: "hash".to_string() },
        ]
    );
    assert!(key_infos(Vec::new(), Vec::new()).is_empty());
}

#[test]
fn following_cursors_collects_every_key() {
    // A store of five keys answering in three steps, the second one empty.
    let steps: Vec<(u64, Vec<&str>)> =
        vec![(7, vec!["k1", "k2"]), (3, vec![]), (0, vec!["k3", "k4", "k5"])];
    let mut cursor = 0u64;
    let mut seen: Vec<String> = Vec::new();
    for (next, names) in steps {
        let cmd = scan_command(cursor, "k*", seen.len());
        assert_eq!(cmd[1], Arg::Unsigned(cursor));
        let types = names.iter().map(|_| "string".to_string()).collect();
        let names = names.iter().map(|n| n.to_string()).collect();
        for info in key_infos(names, types) {
            seen.push(info.name);
        }
        cursor = next;
        if cursor == 0 {
            break;
        }
    }
    assert_eq!(seen, vec!["k1", "k2", "k3", "k4", "k5"]);
}
