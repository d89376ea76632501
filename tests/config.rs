use redis_browser::config::probe_message;
use redis_browser::RedisConfig;

fn config(username: Option<&str>, password: Option<&str>, ssl: bool) -> RedisConfig {
    RedisConfig {
        host: "127.0.0.1".to_string(),
        port: "6379".to_string(),
        username: username.map(|s| s.to_string()),
        password: password.map(|s| s.to_string()),
        enable_ssl: ssl,
    }
}

#[test]
fn url_without_credentials() {
    assert_eq!(config(None, None, false).to_url(), "redis://127.0.0.1:6379");
    assert_eq!(config(None, None, true).to_url(), "rediss://127.0.0.1:6379");
}

#[test]
fn url_with_both_credentials() {
    assert_eq!(config(Some("ann"), Some("pw"), false).to_url(), "redis://ann:pw@127.0.0.1:6379");
}

#[test]
fn url_with_one_credential() {
    assert_eq!(config(None, Some("pw"), true).to_url(), "rediss://:pw@127.0.0.1:6379");
    assert_eq!(config(Some("ann"), None, false).to_url(), "redis://ann@127.0.0.1:6379");
}

#[test]
fn empty_credentials_are_left_out() {
    assert_eq!(config(Some("ann"), Some(""), false).to_url(), "redis://ann@127.0.0.1:6379");
    assert_eq!(config(Some(""), Some("pw"), false).to_url(), "redis://:pw@127.0.0.1:6379");
    assert_eq!(config(Some(""), Some(""), true).to_url(), "rediss://127.0.0.1:6379");
    assert_eq!(config(None, Some(""), false).to_url(), "redis://127.0.0.1:6379");
    assert_eq!(config(Some(""), None, false).to_url(), "redis://127.0.0.1:6379");
}

#[test]
fn parameters_compare_field_by_field() {
    let a = config(Some("ann"), None, false);
    assert!(a.same_as(&a.duplicate()));
    assert!(!a.same_as(&config(Some("ann"), None, true)));
    assert!(!a.same_as(&config(None, None, false)));
    assert!(!a.same_as(&config(Some("ann"), Some(""), false)));
    let mut b = a.duplicate();
    b.port = "6380".to_string();
    assert!(!a.same_as(&b));
}

#[test]
fn probe_reply_messages() {
    assert_eq!(probe_message("PONG"), "Successfully connected to Redis server!");
    assert_eq!(probe_message("LOADING"), "Unexpected response: LOADING");
    assert_eq!(probe_message(""), "Unexpected response: ");
}
