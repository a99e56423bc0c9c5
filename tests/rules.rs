use dev_tunnels::allocator::{
    choose_name, pick_tunnel_to_recycle, ports_to_prune, recyclable_indices, NameChoice,
    CONTROL_PORT,
};
use dev_tunnels::backoff::Backoff;
use dev_tunnels::model::{Endpoint, TunnelError, TunnelRecord};
use dev_tunnels::names::{check_is_name_free, is_name_free, is_valid_name, tunnel_tags};
use dev_tunnels::port_uri::{port_uri, u16_to_decimal};
use dev_tunnels::token::{LookupAccessTokenProvider, StaticAccessTokenProvider, TokenSource};
use dev_tunnels::model::{ServiceError, TunnelLocator};

fn record(name: &str, id: &str, connections: u32) -> TunnelRecord {
    TunnelRecord {
        cluster_id: Some("usw2".to_string()),
        tunnel_id: Some(id.to_string()),
        tags: vec![name.to_string(), "vscode-server-launcher".to_string()],
        port_numbers: vec![],
        endpoint_host_ids: vec![],
        host_token: Some(format!("token-{}", id)),
        host_connection_count: connections,
    }
}

#[test]
fn backoff_delays_grow_linearly_to_the_ceiling() {
    let mut b = Backoff::new(5000, 12000);
    assert_eq!(b.next(), 5000);
    assert_eq!(b.next(), 10000);
    assert_eq!(b.next(), 12000);
    assert_eq!(b.next(), 12000);
    assert_eq!(b.failures, 4);
}

#[test]
fn backoff_delays_never_decrease_nor_exceed_max() {
    let mut b = Backoff::new(7, 100);
    let mut last = 0;
    for _ in 0..50 {
        let d = b.next();
        assert!(d >= last);
        assert!(d <= 100);
        last = d;
    }
}

#[test]
fn backoff_reset_restarts_at_base() {
    let mut b = Backoff::new(5000, 120000);
    b.next();
    b.next();
    b.next();
    b.reset();
    assert_eq!(b.failures, 0);
    assert_eq!(b.next(), 5000);
}

#[test]
fn backoff_overflow_caps_at_max() {
    let mut b = Backoff::new(u64::MAX, 120000);
    assert_eq!(b.next(), 120000);
    assert_eq!(b.next(), 120000);
}

#[test]
fn valid_name_with_dash_and_digits() {
    assert!(is_valid_name("abc-123").is_ok());
    assert!(is_valid_name("under_score").is_ok());
    assert!(is_valid_name("abcdefghijklmnopqrst").is_ok());
}

#[test]
fn invalid_names_are_rejected() {
    for name in ["abc def", "a,b", "abcdefghijklmnopqrstu", "", "caf\u{e9}"] {
        assert!(matches!(is_valid_name(name), Err(TunnelError::InvalidName(_))), "{}", name);
    }
}

#[test]
fn name_free_checks_every_tag() {
    let existing = vec![record("box1", "a", 0), record("box2", "b", 1)];
    assert!(!is_name_free(&existing, &"box1".to_string()));
    assert!(!is_name_free(&existing, &"vscode-server-launcher".to_string()));
    assert!(is_name_free(&existing, &"box3".to_string()));
    assert!(is_name_free(&vec![], &"box1".to_string()));
}

#[test]
fn name_search_verdict() {
    let name = "box1".to_string();
    assert!(check_is_name_free(&vec![], &name).is_ok());
    match check_is_name_free(&vec![record("box1", "a", 0)], &name) {
        Err(TunnelError::NameTaken(n)) => assert_eq!(n, "box1"),
        _ => panic!("expected the name to be taken"),
    }
}

#[test]
fn tags_of_a_tunnel() {
    assert_eq!(tunnel_tags(&"box1".to_string()), vec!["box1".to_string(), "vscode-server-launcher".to_string()]);
}

#[test]
fn choose_name_cases() {
    let existing = vec![record("box1", "a", 0)];
    assert!(matches!(choose_name(&existing, Some("box2".to_string()), false), NameChoice::Use(n) if n == "box2"));
    assert!(matches!(choose_name(&existing, Some("box1".to_string()), false), NameChoice::Random));
    assert!(matches!(
        choose_name(&existing, Some("a b".to_string()), true),
        NameChoice::Rejected(TunnelError::InvalidName(_))
    ));
    assert!(matches!(choose_name(&existing, None, true), NameChoice::Random));
    assert!(matches!(choose_name(&existing, None, false), NameChoice::Prompt));
}

#[test]
fn recycling_picks_only_idle_tunnels() {
    let tunnels = vec![record("a", "busy", 2), record("b", "idle", 0), record("c", "busy2", 1)];
    assert_eq!(recyclable_indices(&tunnels), vec![1]);
    for _ in 0..20 {
        let loc = pick_tunnel_to_recycle(&tunnels).expect("one idle tunnel");
        assert_eq!(loc.id, "idle");
        assert_eq!(loc.cluster, "usw2");
    }
    let busy = vec![record("a", "busy", 2)];
    assert!(pick_tunnel_to_recycle(&busy).is_none());
    assert!(pick_tunnel_to_recycle(&vec![]).is_none());
}

#[test]
fn recycling_picks_among_all_idle_tunnels() {
    let tunnels = vec![record("a", "x", 0), record("b", "y", 0), record("c", "z", 3)];
    for _ in 0..20 {
        let loc = pick_tunnel_to_recycle(&tunnels).expect("idle tunnels");
        assert!(loc.id == "x" || loc.id == "y");
    }
}

#[test]
fn pruning_keeps_the_control_port() {
    let mut r = record("a", "x", 0);
    r.port_numbers = vec![8080, CONTROL_PORT, 3000, CONTROL_PORT, 22];
    assert_eq!(ports_to_prune(&r), vec![8080, 3000, 22]);
    r.port_numbers = vec![CONTROL_PORT];
    assert!(ports_to_prune(&r).is_empty());
}

#[test]
fn port_uri_replaces_the_placeholder() {
    let ep = Endpoint {
        host_id: "h".to_string(),
        port_uri_format: Some("https://{port}.relay.example".to_string()),
    };
    assert_eq!(port_uri(&ep, 8080).ok(), Some("https://8080.relay.example".to_string()));
    assert_eq!(port_uri(&ep, 0).ok(), Some("https://0.relay.example".to_string()));
    let twice = Endpoint { host_id: "h".to_string(), port_uri_format: Some("{port}-{port}".to_string()) };
    assert_eq!(port_uri(&twice, 65535).ok(), Some("65535-65535".to_string()));
}

#[test]
fn port_uri_without_template_fails() {
    let ep = Endpoint { host_id: "h".to_string(), port_uri_format: None };
    assert!(matches!(port_uri(&ep, 8080), Err(TunnelError::MissingPortFormat)));
}

#[test]
fn static_token_never_changes() {
    let p = StaticAccessTokenProvider::new("SECRET-REDACTED".to_string());
    assert!(matches!(p.refresh_token(), Ok(t) if t == "SECRET-REDACTED"));
    assert!(matches!(p.refresh_token(), Ok(t) if t == "SECRET-REDACTED"));
}

#[test]
fn lookup_token_uses_initial_token_once() {
    let loc = TunnelLocator { cluster: "usw2".to_string(), id: "abc".to_string() };
    let mut p = LookupAccessTokenProvider::new(loc, Some("first".to_string()));
    assert!(matches!(p.begin_refresh(), TokenSource::Ready(t) if t == "first"));
    assert!(matches!(p.begin_refresh(), TokenSource::Lookup(l) if l.id == "abc" && l.cluster == "usw2"));
    assert!(matches!(p.begin_refresh(), TokenSource::Lookup(_)));
}

#[test]
fn lookup_token_outcomes() {
    let ok = Ok(record("a", "x", 0));
    assert!(matches!(LookupAccessTokenProvider::finish_refresh(ok), Ok(t) if t == "token-x"));
    let mut no_token = record("a", "x", 0);
    no_token.host_token = None;
    assert!(matches!(
        LookupAccessTokenProvider::finish_refresh(Ok(no_token)),
        Err(TunnelError::MissingHostToken)
    ));
    assert!(matches!(
        LookupAccessTokenProvider::finish_refresh(Err(ServiceError::NotFound)),
        Err(TunnelError::Remote(_, ServiceError::NotFound))
    ));
}

#[test]
fn decimal_digits_of_ports() {
    assert_eq!(u16_to_decimal(0), "0");
    assert_eq!(u16_to_decimal(7), "7");
    assert_eq!(u16_to_decimal(8080), "8080");
    assert_eq!(u16_to_decimal(65535), "65535");
}
