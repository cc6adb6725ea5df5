use tether::signal::turn::{mint_turn_credential, IceConfig};

#[test]
fn credential_format_matches_coturn_rest() {
    // username embeds the absolute expiry; credential is base64 of 20 raw
    // HMAC-SHA1 bytes (28 chars).
    let (username, credential) = mint_turn_credential("north", 3600, 1_000_000, "ipad");
    assert_eq!(username, "1003600:ipad");
    assert_eq!(credential.len(), 28); // base64(20 bytes)
    assert!(credential.ends_with('='));
    // deterministic for the same inputs
    let (_, c2) = mint_turn_credential("north", 3600, 1_000_000, "ipad");
    assert_eq!(credential, c2);
    // a different secret changes it
    let (_, c3) = mint_turn_credential("south", 3600, 1_000_000, "ipad");
    assert_ne!(credential, c3);
}

#[test]
fn stun_only_when_no_turn_secret() {
    let cfg = IceConfig {
        stun_urls: vec!["stun:s:3478".into()],
        turn_urls: vec!["turn:t:3478".into()],
        turn_secret: None,
        turn_ttl: 86400,
    };
    let servers = cfg.ice_servers_for("dev", 0);
    assert_eq!(servers.len(), 1);
    assert!(servers[0].username.is_none());
}

#[test]
fn turn_entry_minted_when_configured() {
    let cfg = IceConfig {
        stun_urls: vec!["stun:s:3478".into()],
        turn_urls: vec!["turn:t:3478?transport=udp".into(), "turns:t:5349?transport=tcp".into()],
        turn_secret: Some("sekret".into()),
        turn_ttl: 600,
    };
    let servers = cfg.ice_servers_for("dev", 100);
    assert_eq!(servers.len(), 2);
    let turn = &servers[1];
    assert_eq!(turn.urls.len(), 2);
    assert_eq!(turn.username.as_deref(), Some("700:dev"));
    assert!(turn.credential.is_some());
}

#[test]
fn credential_is_the_tag_in_base64() {
    let (username, credential) = mint_turn_credential("north", 3600, 1_000_000, "ipad");
    assert_eq!(username, "1003600:ipad");
    assert_eq!(credential, "HRhfwwKpADe2QAIeXnEp0eQ7L4k=");
}

#[test]
fn no_entry_without_urls() {
    let cfg = IceConfig {
        stun_urls: vec![],
        turn_urls: vec![],
        turn_secret: Some("s".into()),
        turn_ttl: 1,
    };
    assert!(cfg.ice_servers_for("dev", 0).is_empty());
}
