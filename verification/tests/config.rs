use tether::config::{ip_allowed, validate_bind_addr, Args, IpAddr};

fn v4(a: u32, b: u32, c: u32, d: u32) -> IpAddr {
    IpAddr::V4((a << 24) | (b << 16) | (c << 8) | d)
}

#[test]
fn bind_validation_accepts_loopback_and_private() {
    for (good, ip) in [
        ("127.0.0.1", v4(127, 0, 0, 1)),
        ("10.0.0.5", v4(10, 0, 0, 5)),
        ("172.16.31.2", v4(172, 16, 31, 2)),
        ("192.168.1.50", v4(192, 168, 1, 50)),
        ("169.254.7.7", v4(169, 254, 7, 7)),
        ("::1", IpAddr::V6(1)),
    ] {
        assert!(validate_bind_addr(ip, good).is_ok(), "{good} should be bindable");
    }
}

#[test]
fn bind_validation_rejects_unspecified_and_public() {
    for (bad, ip) in [
        ("0.0.0.0", v4(0, 0, 0, 0)),
        ("::", IpAddr::V6(0)),
        ("8.8.8.8", v4(8, 8, 8, 8)),
        ("203.0.113.7", v4(203, 0, 113, 7)),
        ("2001:db8::1", IpAddr::V6(0x2001_0db8_0000_0000_0000_0000_0000_0001)),
        ("172.32.0.1", v4(172, 32, 0, 1)),
    ] {
        assert!(validate_bind_addr(ip, bad).is_err(), "{bad} must be refused");
    }
}

#[test]
fn allowlist_is_exact_match() {
    let allow = vec![v4(192, 168, 1, 20), v4(127, 0, 0, 1)];
    assert!(ip_allowed(&allow, v4(192, 168, 1, 20)));
    assert!(ip_allowed(&allow, v4(127, 0, 0, 1)));
    assert!(!ip_allowed(&allow, v4(192, 168, 1, 21)));
    assert!(!ip_allowed(&allow, v4(10, 0, 0, 1)));
}

#[test]
fn edges_of_the_local_networks() {
    for ip in [
        v4(172, 31, 255, 255),
        IpAddr::V6(0xfc00 << 112),
        IpAddr::V6((0xfdff << 112) | 7),
        IpAddr::V6(0xfe80 << 112),
        IpAddr::V6(0xfebf << 112),
    ] {
        assert!(validate_bind_addr(ip, "x").is_ok(), "{ip:?}");
    }
    for ip in [
        v4(172, 15, 255, 255),
        v4(126, 0, 0, 1),
        v4(192, 169, 0, 1),
        v4(169, 253, 0, 1),
        IpAddr::V6(2),
        IpAddr::V6(0xfec0 << 112),
        IpAddr::V6(0xfbff << 112),
    ] {
        assert_eq!(
            validate_bind_addr(ip, "x"),
            Err("refusing to bind x: not a loopback or private LAN address".to_string()),
            "{ip:?}"
        );
    }
    assert_eq!(
        validate_bind_addr(v4(0, 0, 0, 0), "0.0.0.0"),
        Err("refusing to bind 0.0.0.0: binding all interfaces would expose the daemon beyond the LAN".to_string())
    );
}

fn args() -> Args {
    Args {
        bind: None,
        port: 7878,
        allow: vec![],
        signal: None,
        secret: None,
        device_id: None,
        stun: vec![],
    }
}

#[test]
fn transports_must_be_complete() {
    let problem = |a: &Args| a.validate().err().unwrap_or_default();
    assert_eq!(
        problem(&args()),
        "nothing to do: pass --bind/--allow (LAN) and/or --signal/--secret (WebRTC)"
    );
    let mut a = args();
    a.bind = Some(v4(127, 0, 0, 1));
    assert_eq!(problem(&a), "--bind requires at least one --allow");
    a.allow = vec![v4(127, 0, 0, 1)];
    assert_eq!(a.validate(), Ok(()));
    a.secret = Some("s".into());
    assert_eq!(problem(&a), "--signal and --secret go together");
    a.bind = None;
    a.signal = Some("h:1".into());
    assert_eq!(problem(&a), "--allow requires --bind");
    a.allow = vec![];
    assert_eq!(a.validate(), Ok(()));
}

#[test]
fn signal_urls() {
    let mut a = args();
    assert_eq!(a.signal_url(), None);
    for (given, url) in [
        ("192.168.1.5:7879", "ws://192.168.1.5:7879/ws"),
        ("ws://h/ws", "ws://h/ws"),
        ("wss://h:1/x", "wss://h:1/x"),
        ("ws:/h", "ws://ws:/h/ws"),
    ] {
        a.signal = Some(given.into());
        assert_eq!(a.signal_url().as_deref(), Some(url));
    }
}
