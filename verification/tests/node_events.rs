use fiber_ffi::events::{event_report, EventValue, FiberEvent};

fn keys(report: &[(String, EventValue)]) -> Vec<&str> {
    report.iter().map(|(key, _)| key.as_str()).collect()
}

fn text<'a>(report: &'a [(String, EventValue)], key: &str) -> Option<&'a str> {
    report.iter().find(|(k, _)| k == key).and_then(|(_, value)| match value {
        EventValue::Text(t) => Some(t.as_str()),
        _ => None,
    })
}

#[test]
fn secret_bearing_events_are_reported_as_redacted() {
    let report = event_report(FiberEvent::PreimageCreated { payment_hash: "0x11".to_string() });
    assert_eq!(keys(&report), vec!["kind", "payment_hash", "redacted"]);
    assert_eq!(text(&report, "kind"), Some("PreimageCreated"));
    assert!(matches!(report[2].1, EventValue::Bool(true)));

    let report = event_report(FiberEvent::LocalCommitmentSigned { channel_id: "0x22".to_string() });
    assert_eq!(keys(&report), vec!["kind", "channel_id", "redacted"]);

    let report = event_report(FiberEvent::RemoteTxComplete {
        pubkey: "02aa".to_string(),
        channel_id: "0x33".to_string(),
    });
    assert_eq!(keys(&report), vec!["kind", "pubkey", "channel_id", "redacted"]);
}

#[test]
fn ordinary_events_carry_their_identifiers() {
    let report = event_report(FiberEvent::ChannelReady {
        pubkey: "02aa".to_string(),
        channel_id: "0x33".to_string(),
        out_point: "OutPoint".to_string(),
    });
    assert_eq!(keys(&report), vec!["kind", "pubkey", "channel_id", "out_point"]);
    assert_eq!(text(&report, "out_point"), Some("OutPoint"));

    let report = event_report(FiberEvent::NetworkStarted {
        pubkey: "02aa".to_string(),
        listening_addrs: vec!["/ip4/127.0.0.1/tcp/8228".to_string()],
        announced_addrs: vec![],
    });
    assert_eq!(keys(&report), vec!["kind", "pubkey", "listening_addrs", "announced_addrs"]);
    match &report[2].1 {
        EventValue::Texts(addrs) => assert_eq!(addrs, &vec!["/ip4/127.0.0.1/tcp/8228".to_string()]),
        _ => panic!("listening addresses are a list"),
    }

    let report = event_report(FiberEvent::ChannelAbandon { channel_id: "0x44".to_string() });
    assert_eq!(keys(&report), vec!["kind", "channel_id"]);
    assert_eq!(text(&report, "channel_id"), Some("0x44"));
}
