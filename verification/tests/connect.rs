use ws_connect::attempt::{Action, Attempt, Stage, TransportKind};
use ws_connect::error::ConnectError;
use ws_connect::request::{normalize_url, RequestDescriptor, Scheme};
use ws_connect::resolve::{dial_address, resolve, DEFAULT_PLAIN_PORT, DEFAULT_SECURE_PORT};

fn plain_descriptor(host: &str, port: Option<u16>) -> RequestDescriptor {
    RequestDescriptor {
        scheme: Scheme::Plain,
        host: host.to_string(),
        port,
        headers: Vec::new(),
    }
}

#[test]
fn secure_scheme_defaults_to_443() {
    let d = RequestDescriptor {
        scheme: Scheme::Secure,
        host: "example.test".to_string(),
        port: None,
        headers: Vec::new(),
    };
    let ep = resolve(&d).unwrap();
    assert_eq!(ep.port, 443);
    assert_eq!(ep.port, DEFAULT_SECURE_PORT);
    assert_eq!(ep.host, "example.test");
}

#[test]
fn plain_scheme_defaults_to_80() {
    let ep = resolve(&plain_descriptor("example.test", None)).unwrap();
    assert_eq!(ep.port, 80);
    assert_eq!(ep.port, DEFAULT_PLAIN_PORT);
}

#[test]
fn explicit_port_overrides_any_scheme() {
    let secure = RequestDescriptor {
        scheme: Scheme::Secure,
        host: "h".to_string(),
        port: Some(7),
        headers: Vec::new(),
    };
    assert_eq!(resolve(&secure).unwrap().port, 7);
    assert_eq!(resolve(&plain_descriptor("h", Some(9001))).unwrap().port, 9001);
    let unknown = RequestDescriptor {
        scheme: Scheme::Unrecognized,
        host: "h".to_string(),
        port: Some(21),
        headers: Vec::new(),
    };
    assert_eq!(resolve(&unknown).unwrap().port, 21);
}

#[test]
fn unrecognized_scheme_without_port_fails_resolution() {
    let d = RequestDescriptor {
        scheme: Scheme::Unrecognized,
        host: "h".to_string(),
        port: None,
        headers: Vec::new(),
    };
    assert_eq!(resolve(&d).unwrap_err(), ConnectError::UnsupportedScheme);
}

#[test]
fn dial_address_joins_host_and_decimal_port() {
    assert_eq!(dial_address("example.test", 80), "example.test:80");
    assert_eq!(dial_address("example.test", 9001), "example.test:9001");
    assert_eq!(dial_address("h", 0), "h:0");
    assert_eq!(dial_address("h", 65535), "h:65535");
    assert_eq!(dial_address("", 443), ":443");
}

#[test]
fn normalize_extracts_scheme_host_and_port() {
    let d = normalize_url("ws://example.test:9001/chat").unwrap();
    assert_eq!(d.scheme, Scheme::Plain);
    assert_eq!(d.host, "example.test");
    assert_eq!(d.port, Some(9001));
    assert!(d.headers.is_empty());

    let d = normalize_url("wss://example.test/chat").unwrap();
    assert_eq!(d.scheme, Scheme::Secure);
    assert_eq!(d.host, "example.test");
    assert_eq!(d.port, None);
}

#[test]
fn normalize_rejects_malformed_input() {
    assert_eq!(normalize_url("not a url").unwrap_err(), ConnectError::RequestConstruction);
    assert_eq!(normalize_url("").unwrap_err(), ConnectError::RequestConstruction);
    // A path alone names no host to dial.
    assert_eq!(normalize_url("/chat").unwrap_err(), ConnectError::RequestConstruction);
}

#[test]
fn normalization_failure_aborts_before_any_dial() {
    let mut a = Attempt::new_networked(false);
    let act = a.on_request(normalize_url("not a url"));
    match act {
        Action::Abort { error } => assert_eq!(error, ConnectError::RequestConstruction),
        other => panic!("expected an abort, got {:?}", other),
    }
    assert_eq!(a.stage, Stage::Failed);
    assert_eq!(a.failure, Some(ConnectError::RequestConstruction));
}

#[test]
fn successful_attempt_orders_its_stages() {
    // The attempt must ask for exactly: dial, then handshake, then finish.
    let mut a = Attempt::new_networked(false);
    assert_eq!(a.stage, Stage::Start);

    let act = a.on_request(normalize_url("ws://example.test/chat"));
    assert_eq!(a.stage, Stage::Resolved);
    let addr = match act {
        Action::DialNet { addr } => addr,
        other => panic!("expected a dial, got {:?}", other),
    };
    assert_eq!(addr, "example.test:80");

    let act = a.on_dialed(true);
    assert_eq!(a.stage, Stage::Dialed);
    match act {
        Action::Handshake { ref host, secure } => {
            assert_eq!(host, "example.test");
            assert!(!secure);
        },
        other => panic!("expected a handshake, got {:?}", other),
    }

    let act = a.on_handshake(Ok(()));
    assert_eq!(a.stage, Stage::Complete);
    assert!(matches!(act, Action::Finish));
}

#[test]
fn dial_failure_prevents_handshake() {
    let mut a = Attempt::new_networked(false);
    let _ = a.on_request(normalize_url("ws://example.test/chat"));
    let act = a.on_dialed(false);
    match act {
        Action::Abort { error } => assert_eq!(error, ConnectError::Transport),
        other => panic!("expected an abort, got {:?}", other),
    }
    assert_eq!(a.stage, Stage::Failed);
    assert_eq!(a.failure, Some(ConnectError::Transport));
}

#[test]
fn tuning_is_asked_for_exactly_when_requested() {
    let mut a = Attempt::new_networked(true);
    let _ = a.on_request(normalize_url("ws://example.test/chat"));
    let act = a.on_dialed(true);
    assert!(matches!(act, Action::Tune));
    let act = a.on_tuned(true);
    assert_eq!(a.stage, Stage::Tuned);
    assert!(matches!(act, Action::Handshake { .. }));
    let act = a.on_handshake(Ok(()));
    assert_eq!(a.stage, Stage::Complete);
    assert!(matches!(act, Action::Finish));
}

#[test]
fn tuning_failure_fails_the_attempt_before_any_handshake() {
    let mut a = Attempt::new_networked(true);
    let _ = a.on_request(normalize_url("ws://example.test/chat"));
    let _ = a.on_dialed(true);
    let act = a.on_tuned(false);
    match act {
        Action::Abort { error } => assert_eq!(error, ConnectError::Transport),
        other => panic!("expected an abort, got {:?}", other),
    }
    assert_eq!(a.stage, Stage::Failed);
    assert_eq!(a.failure, Some(ConnectError::Transport));
}

#[test]
fn handshake_failures_carry_their_stage() {
    let mut a = Attempt::new_networked(false);
    let _ = a.on_request(normalize_url("wss://example.test/chat"));
    let _ = a.on_dialed(true);
    let act = a.on_handshake(Err(ConnectError::SecureChannel));
    assert!(matches!(act, Action::Abort { error: ConnectError::SecureChannel }));
    assert_eq!(a.failure, Some(ConnectError::SecureChannel));

    let mut b = Attempt::new_networked(false);
    let _ = b.on_request(normalize_url("ws://example.test/chat"));
    let _ = b.on_dialed(true);
    let act = b.on_handshake(Err(ConnectError::Handshake));
    assert!(matches!(act, Action::Abort { error: ConnectError::Handshake }));
    assert_eq!(b.failure, Some(ConnectError::Handshake));
}

#[test]
fn scenario_plain_url_no_port() {
    // "ws://example.test/chat": endpoint (example.test, 80), plain path,
    // the handshake is asked for without encryption.
    let mut a = Attempt::new_networked(false);
    let act = a.on_request(normalize_url("ws://example.test/chat"));
    let ep = a.endpoint.as_ref().unwrap();
    assert_eq!(ep.host, "example.test");
    assert_eq!(ep.port, 80);
    assert!(matches!(act, Action::DialNet { .. }));
    let act = a.on_dialed(true);
    match act {
        Action::Handshake { ref host, secure } => {
            assert_eq!(host, "example.test");
            assert!(!secure);
        },
        other => panic!("expected a handshake, got {:?}", other),
    }
}

#[test]
fn scenario_secure_url() {
    // "wss://example.test/chat": endpoint (example.test, 443), encryption
    // asked for with the host name to validate.
    let mut a = Attempt::new_networked(false);
    let _ = a.on_request(normalize_url("wss://example.test/chat"));
    let ep = a.endpoint.as_ref().unwrap();
    assert_eq!(ep.host, "example.test");
    assert_eq!(ep.port, 443);
    let act = a.on_dialed(true);
    match act {
        Action::Handshake { ref host, secure } => {
            assert_eq!(host, "example.test");
            assert!(secure);
        },
        other => panic!("expected a handshake, got {:?}", other),
    }
}

#[test]
fn scenario_explicit_port_wins() {
    // "ws://example.test:9001/": endpoint (example.test, 9001).
    let mut a = Attempt::new_networked(false);
    let act = a.on_request(normalize_url("ws://example.test:9001/"));
    let ep = a.endpoint.as_ref().unwrap();
    assert_eq!(ep.host, "example.test");
    assert_eq!(ep.port, 9001);
    match act {
        Action::DialNet { addr } => assert_eq!(addr, "example.test:9001"),
        other => panic!("expected a dial, got {:?}", other),
    }
}

#[test]
fn scenario_unrecognized_scheme_never_dials() {
    // "ftp://example.test/": unsupported scheme, and the one action the
    // attempt ever asks for is the abort — zero dials.
    let mut a = Attempt::new_networked(false);
    let d = normalize_url("ftp://example.test/").unwrap();
    assert_eq!(d.scheme, Scheme::Unrecognized);
    let act = a.on_request(Ok(d));
    match act {
        Action::Abort { error } => assert_eq!(error, ConnectError::UnsupportedScheme),
        other => panic!("expected an abort, got {:?}", other),
    }
    assert_eq!(a.stage, Stage::Failed);
    assert_eq!(a.failure, Some(ConnectError::UnsupportedScheme));
    assert!(a.endpoint.is_none());
}

#[test]
fn scenario_local_path_dials_that_path_and_never_tunes() {
    // The local variant dials exactly the given path; the coalescing flag
    // does not apply to it; the handshake proceeds over the channel.
    let mut a = Attempt::new_local("/tmp/sock".to_string());
    assert_eq!(a.kind, TransportKind::Local);
    let act = a.on_request(normalize_url("ws://example.test/chat"));
    match act {
        Action::DialLocal { path } => assert_eq!(path, "/tmp/sock"),
        other => panic!("expected a local dial, got {:?}", other),
    }
    let act = a.on_dialed(true);
    match act {
        Action::Handshake { ref host, secure } => {
            assert_eq!(host, "example.test");
            assert!(!secure);
        },
        other => panic!("expected a handshake, not a tune: {:?}", other),
    }
    let act = a.on_handshake(Ok(()));
    assert_eq!(a.stage, Stage::Complete);
    assert!(matches!(act, Action::Finish));
}
