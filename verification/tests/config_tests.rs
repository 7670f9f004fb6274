use statiq::config::{
    config_key, open_config, reads_encrypted, seal_config, LoggingConfig, PoolConfig, QueryConfig,
    RedisConfig,
};
use statiq::error::SqlError;

const KEY: &str = "000102030405060708090a0b0c0d0e0f101112131415161718191a1b1c1d1e1f";

#[test]
fn defaults() {
    let p = PoolConfig::default();
    assert_eq!((p.max_size, p.min_size, p.idle_timeout_secs, p.max_lifetime_secs), (100, 5, 300, 1800));
    assert_eq!((p.checkout_timeout_ms, p.validation_interval_secs, p.max_deadlock_retries), (5000, 60, 3));
    assert!(!p.reset_connection_on_reuse);
    assert_eq!(PoolConfig::default_max_lifetime_secs(), 1800);
    let q = QueryConfig::default();
    assert_eq!((q.default_command_timeout_secs, q.slow_query_threshold_ms, q.max_text_bytes), (30, 1000, 65536));
    assert_eq!(q.timeout_secs, None);
    assert_eq!(QueryConfig::default_max_text_bytes(), 65536);
    let r = RedisConfig::default();
    assert_eq!(r.url, "redis://127.0.0.1:6379");
    assert_eq!((r.pool_size, r.default_ttl_secs, r.count_ttl_secs, r.enabled), (20, 300, 60, false));
    let l = LoggingConfig::default();
    assert_eq!((l.level.as_str(), l.format.as_str()), ("INFO", "json"));
}

#[test]
fn encrypted_file_choice() {
    assert!(reads_encrypted("config.json.enc", true));
    assert!(!reads_encrypted("config.json.enc", false));
    assert!(!reads_encrypted("config.json", true));
    assert!(!reads_encrypted("enc", true));
}

#[test]
fn key_checks() {
    assert_eq!(config_key(KEY).unwrap().len(), 32);
    assert_eq!(
        config_key("abcd"),
        Err(SqlError::Crypto("Key must be 32 bytes (64 hex chars)".to_string()))
    );
    assert_eq!(
        config_key("abc"),
        Err(SqlError::Crypto("Invalid key hex: Odd number of digits".to_string()))
    );
    assert_eq!(
        config_key("zz"),
        Err(SqlError::Crypto("Invalid key hex: Invalid character 'z' at position 0".to_string()))
    );
}

#[test]
fn seal_then_open_round_trip() {
    let key = config_key(KEY).unwrap();
    let nonce = [7u8; 12];
    let plain = br#"{"a":1}"#;
    let sealed = seal_config(&key, &nonce, plain).unwrap();
    let opened = open_config(&format!("  {sealed}\n"), KEY).unwrap();
    assert_eq!(opened, plain.to_vec());
}

#[test]
fn open_refusals() {
    assert_eq!(open_config("AAAA", KEY), Err(SqlError::Crypto("Encrypted file too short".to_string())));
    assert!(matches!(open_config("!!!", KEY), Err(SqlError::Crypto(_))));
    let key = config_key(KEY).unwrap();
    let sealed = seal_config(&key, &[1u8; 12], b"secret").unwrap();
    let other = "ff0102030405060708090a0b0c0d0e0f101112131415161718191a1b1c1d1e1f";
    assert_eq!(
        open_config(&sealed, other),
        Err(SqlError::Crypto("Decryption failed \u{2014} wrong key or corrupted file".to_string()))
    );
    assert_eq!(
        open_config(&sealed, "00"),
        Err(SqlError::Crypto("Key must be 32 bytes (64 hex chars)".to_string()))
    );
}
