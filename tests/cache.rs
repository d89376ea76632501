use redis_browser::{ConnectionManager, RedisConfig};

fn config(host: &str) -> RedisConfig {
    RedisConfig {
        host: host.to_string(),
        port: "6379".to_string(),
        username: None,
        password: None,
        enable_ssl: false,
    }
}

#[test]
fn same_parameters_give_the_same_handle() {
    let mut cache: ConnectionManager<u32> = ConnectionManager::new();
    let cfg = config("a");
    cache.use_config(&cfg);
    assert_eq!(cache.cached(0), None);
    cache.store(&cfg, 0, 11);
    cache.use_config(&cfg.duplicate());
    assert_eq!(cache.cached(0), Some(&11));
    cache.use_config(&cfg);
    assert_eq!(cache.cached(0), Some(&11));
}

#[test]
fn namespaces_have_their_own_handles() {
    let mut cache: ConnectionManager<u32> = ConnectionManager::new();
    let cfg = config("a");
    cache.store(&cfg, 0, 1);
    cache.store(&cfg, 3, 2);
    cache.use_config(&cfg);
    assert_eq!(cache.cached(0), Some(&1));
    assert_eq!(cache.cached(3), Some(&2));
    assert_eq!(cache.cached(1), None);
}

#[test]
fn changed_parameters_drop_every_namespace() {
    let mut cache: ConnectionManager<u32> = ConnectionManager::new();
    let cfg = config("a");
    cache.store(&cfg, 0, 1);
    cache.store(&cfg, 5, 2);
    let mut other = cfg.duplicate();
    other.enable_ssl = true;
    cache.use_config(&other);
    assert_eq!(cache.cached(0), None);
    assert_eq!(cache.cached(5), None);
    cache.store(&other, 5, 9);
    cache.use_config(&cfg);
    assert_eq!(cache.cached(5), None);
}

#[test]
fn storing_under_new_parameters_clears_old_entries() {
    let mut cache: ConnectionManager<&str> = ConnectionManager::new();
    cache.store(&config("a"), 1, "first");
    cache.store(&config("b"), 2, "second");
    assert_eq!(cache.cached(1), None);
    assert_eq!(cache.cached(2), Some(&"second"));
}
