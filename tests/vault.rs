use session_engine::crypto::{decrypt, encrypt, get_encryption_key, EncryptedData};
use session_engine::hosts::{
    decrypt_host, default_port, delete_host, get_host, get_hosts, maybe_decrypt, maybe_encrypt,
    save_host, DecryptedHostConfig, HostConfig, StoredSecret,
};

fn key() -> Vec<u8> {
    (0u8..32).collect()
}

fn stored(id: Option<&str>, name: &str) -> HostConfig {
    HostConfig {
        id: id.map(|s| s.to_string()),
        name: name.to_string(),
        host: "example.org".to_string(),
        port: None,
        username: "me".to_string(),
        auth_type: None,
        password: None,
        private_key: None,
        passphrase: None,
        group_name: None,
        tags: None,
        created_at: None,
        last_connected: None,
        identity_file: None,
        description: None,
    }
}

fn profile(id: &str, password: Option<&str>) -> DecryptedHostConfig {
    DecryptedHostConfig {
        id: id.to_string(),
        name: "n".to_string(),
        host: "h".to_string(),
        port: 2222,
        username: "u".to_string(),
        auth_type: "password".to_string(),
        password: password.map(|s| s.to_string()),
        private_key: None,
        passphrase: None,
        group_name: "g".to_string(),
        tags: vec!["t".to_string()],
        created_at: "2024-01-01T00:00:00+00:00".to_string(),
        last_connected: None,
        identity_file: None,
        description: Some("d".to_string()),
    }
}

#[test]
fn decrypt_inverts_encrypt() {
    let k = key();
    for s in ["a", "hunter2", "pässwörd ✓", "-----BEGIN KEY-----\nabc\n"] {
        let d = encrypt(&k, s).unwrap();
        assert_eq!(decrypt(&k, &d), Some(s.to_string()));
    }
}

#[test]
fn empty_secret_is_never_sealed() {
    assert!(encrypt(&key(), "").is_none());
    assert!(maybe_encrypt(&key(), &Some(String::new())).is_none());
    assert!(maybe_encrypt(&key(), &None).is_none());
}

#[test]
fn sealed_fields_are_hex_of_the_right_sizes() {
    let d = encrypt(&key(), "hello").unwrap();
    assert_eq!(d.iv.len(), 24);
    assert_eq!(d.auth_tag.len(), 32);
    assert_eq!(d.encrypted.len(), 10);
    assert_ne!(d.encrypted, hex_of(b"hello"));
    assert!(d.iv.chars().all(|c| c.is_ascii_hexdigit() && !c.is_ascii_uppercase()));
}

fn hex_of(b: &[u8]) -> String {
    b.iter().map(|x| format!("{:02x}", x)).collect()
}

#[test]
fn decrypt_fails_on_tampering_or_bad_fields() {
    let k = key();
    let d = encrypt(&k, "secret").unwrap();
    let mut other_key = key();
    other_key[0] ^= 1;
    assert_eq!(decrypt(&other_key, &d), None);
    let bad_hex = EncryptedData { encrypted: "zz".to_string(), iv: d.iv.clone(), auth_tag: d.auth_tag.clone() };
    assert_eq!(decrypt(&k, &bad_hex), None);
    let short_iv = EncryptedData { encrypted: d.encrypted.clone(), iv: "00".repeat(16), auth_tag: d.auth_tag.clone() };
    assert_eq!(decrypt(&k, &short_iv), None);
}

#[test]
fn stored_key_is_reused_when_valid() {
    let hex = hex_of(&key());
    let r = get_encryption_key(&Some(hex.clone()));
    assert_eq!(r.key, key());
    assert!(r.to_store.is_none());
    let upper = get_encryption_key(&Some(hex.to_uppercase()));
    assert_eq!(upper.key, key());
}

#[test]
fn new_key_is_made_when_stored_one_is_unusable() {
    for stored in [None, Some("xyz".to_string()), Some("abcd".to_string())] {
        let r = get_encryption_key(&stored);
        assert_eq!(r.key.len(), 32);
        assert_eq!(r.to_store, Some(hex_of(&r.key)));
    }
}

#[test]
fn stored_profile_defaults() {
    let h = decrypt_host(&key(), stored(None, "x"));
    assert_eq!(h.port, 22);
    assert_eq!(default_port(), 22);
    assert_eq!(h.auth_type, "password");
    assert_eq!(h.group_name, "默认分组");
    assert!(h.tags.is_empty());
    assert_eq!(h.id.len(), 36);
    assert!(!h.created_at.is_empty());
    assert_eq!(h.password, None);
}

#[test]
fn legacy_plain_secret_is_read_as_is() {
    let k = key();
    assert_eq!(maybe_decrypt(&k, &Some(StoredSecret::Plain("old".to_string()))), Some("old".to_string()));
    assert_eq!(maybe_decrypt(&k, &Some(StoredSecret::Unreadable)), None);
    let sealed = encrypt(&k, "new").unwrap();
    assert_eq!(maybe_decrypt(&k, &Some(StoredSecret::Sealed(sealed))), Some("new".to_string()));
}

#[test]
fn save_then_read_back() {
    let k = key();
    let mut hosts: Vec<HostConfig> = Vec::new();
    assert_eq!(save_host(&k, &mut hosts, profile("a", Some("pw"))), Ok("a".to_string()));
    assert_eq!(save_host(&k, &mut hosts, profile("b", None)), Ok("b".to_string()));
    assert_eq!(hosts.len(), 2);
    assert!(matches!(hosts[0].password, Some(StoredSecret::Sealed(_))));
    assert!(hosts[1].password.is_none());
    save_host(&k, &mut hosts, profile("a", Some("pw2"))).unwrap();
    assert_eq!(hosts.len(), 2);
    let all = get_hosts(&k, hosts);
    assert_eq!(all[0].id, "a");
    assert_eq!(all[0].password, Some("pw2".to_string()));
    assert_eq!(all[0].port, 2222);
    assert_eq!(all[1].tags, vec!["t".to_string()]);
    let found = get_host(all, "b").unwrap();
    assert_eq!(found.description, Some("d".to_string()));
}

#[test]
fn delete_removes_matching_ids_only() {
    let mut hosts = vec![stored(Some("a"), "1"), stored(None, "2"), stored(Some("b"), "3"), stored(Some("a"), "4")];
    assert_eq!(delete_host(&mut hosts, "a"), Ok(true));
    let names: Vec<&str> = hosts.iter().map(|h| h.name.as_str()).collect();
    assert_eq!(names, vec!["2", "3"]);
    assert_eq!(delete_host(&mut hosts, "zzz"), Ok(true));
    assert_eq!(hosts.len(), 2);
}

#[test]
fn get_host_misses_unknown_id() {
    let all = get_hosts(&key(), vec![stored(Some("a"), "1")]);
    assert!(get_host(all, "b").is_none());
}
