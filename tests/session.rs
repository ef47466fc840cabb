use yas_relic::lock::{LockAction, LockActionType};
use yas_relic::packet::{LockReqData, LockRspData, Packet, ScanReqData, ScanRspData};
use yas_relic::decimal::Decimal;
use yas_relic::packet::{ConfigNotifyData, YasScannerConfig};
use yas_relic::session::{greeting, step, Action, ConnState, Event};

fn scan_req(args: &[&str]) -> Packet {
    Packet::ScanReq(ScanReqData { argv: args.iter().map(|s| s.to_string()).collect() })
}

#[test]
fn refused_arguments_answered_and_connection_kept() {
    let (s1, a1) = step(ConnState::Idle, Event::Received(scan_req(&["--speed", "fast"])));
    assert_eq!(s1, ConnState::Scanning);
    assert!(matches!(a1, Action::RunScan(ref v) if v == &vec!["--speed".to_string(), "fast".to_string()]));
    let (s2, a2) = step(s1, Event::ArgvRejected("error: invalid value 'fast'".to_string()));
    assert_eq!(s2, ConnState::Idle);
    match a2 {
        Action::Send(Packet::ScanRsp(r)) => {
            assert!(!r.success);
            assert_eq!(r.message, "error: invalid value 'fast'");
            assert!(r.json.is_empty());
        }
        _ => panic!("expected a scan response"),
    }
    let (s3, a3) = step(s2, Event::Received(scan_req(&["--speed", "3"])));
    assert_eq!(s3, ConnState::Scanning);
    assert!(matches!(a3, Action::RunScan(_)));
}

#[test]
fn empty_refusal_message_gets_a_text() {
    let (_, a) = step(ConnState::Scanning, Event::ArgvRejected(String::new()));
    match a {
        Action::Send(Packet::ScanRsp(r)) => {
            assert!(!r.success);
            assert!(!r.message.is_empty());
        }
        _ => panic!("expected a scan response"),
    }
}

#[test]
fn scan_outcomes_are_reported() {
    let (s, a) = step(ConnState::Scanning, Event::ScanDone(Ok("{\"relics\":[]}".to_string())));
    assert_eq!(s, ConnState::Idle);
    match a {
        Action::Send(Packet::ScanRsp(r)) => {
            assert!(r.success);
            assert_eq!(r.json, "{\"relics\":[]}");
            assert!(r.message.is_empty());
        }
        _ => panic!("expected a scan response"),
    }
    let (_, a) = step(ConnState::Scanning, Event::ScanDone(Err("window not found".to_string())));
    match a {
        Action::Send(Packet::ScanRsp(r)) => {
            assert!(!r.success);
            assert_eq!(r.message, "window not found");
        }
        _ => panic!("expected a scan response"),
    }
}

#[test]
fn unexpected_packets_are_ignored() {
    let p = Packet::ScanRsp(ScanRspData::new(Ok(String::new())));
    let (s, a) = step(ConnState::Idle, Event::Received(p));
    assert_eq!(s, ConnState::Idle);
    assert!(matches!(a, Action::Ignore));
    let (s, a) = step(ConnState::Scanning, Event::Received(scan_req(&[])));
    assert_eq!(s, ConnState::Scanning);
    assert!(matches!(a, Action::Ignore));
}

#[test]
fn lost_connection_closes() {
    let (s, a) = step(ConnState::Idle, Event::ConnectionLost);
    assert_eq!(s, ConnState::Closed);
    assert!(matches!(a, Action::Close));
    let (s, a) = step(ConnState::Closed, Event::Received(scan_req(&[])));
    assert_eq!(s, ConnState::Closed);
    assert!(matches!(a, Action::Close));
}

fn lock_req(indices: Option<Vec<u32>>, lock_json: Option<&str>) -> Packet {
    Packet::LockReq(LockReqData {
        argv: vec!["--lock-stop".to_string(), "50".to_string()],
        indices,
        lock_json: lock_json.map(|s| s.to_string()),
    })
}

#[test]
fn lock_requests_choose_their_actions() {
    let (s, a) = step(
        ConnState::Idle,
        Event::Received(lock_req(Some(vec![9]), Some("[{\"index\":2,\"action\":\"lock\"}]"))),
    );
    assert_eq!(s, ConnState::Locking);
    match a {
        Action::RunLock(argv, acts) => {
            assert_eq!(argv.len(), 2);
            assert_eq!(acts, vec![LockAction { target: 2, kind: LockActionType::Lock }]);
        }
        _ => panic!("expected a lock run"),
    }
    let (_, a) = step(ConnState::Idle, Event::Received(lock_req(Some(vec![9, 4]), None)));
    match a {
        Action::RunLock(_, acts) => assert_eq!(
            acts,
            vec![
                LockAction { target: 9, kind: LockActionType::Flip },
                LockAction { target: 4, kind: LockActionType::Flip }
            ]
        ),
        _ => panic!("expected a lock run"),
    }
    let (_, a) = step(ConnState::Idle, Event::Received(lock_req(None, None)));
    match a {
        Action::RunLock(_, acts) => assert!(acts.is_empty()),
        _ => panic!("expected a lock run"),
    }
}

#[test]
fn unreadable_lock_spec_is_answered() {
    let (s, a) = step(ConnState::Idle, Event::Received(lock_req(None, Some("[1,2]"))));
    assert_eq!(s, ConnState::Idle);
    match a {
        Action::Send(Packet::LockRsp(r)) => {
            assert!(!r.success);
            assert_eq!(r.message, "invalid lock specification");
        }
        _ => panic!("expected a lock response"),
    }
}

#[test]
fn lock_outcomes_are_reported() {
    let (s, a) = step(ConnState::Locking, Event::LockDone(Ok(())));
    assert_eq!(s, ConnState::Idle);
    assert!(matches!(a, Action::Send(Packet::LockRsp(LockRspData { success: true, .. }))));
    let (_, a) = step(ConnState::Locking, Event::ArgvRejected("bad".to_string()));
    match a {
        Action::Send(Packet::LockRsp(r)) => {
            assert!(!r.success);
            assert_eq!(r.message, "bad");
        }
        _ => panic!("expected a lock response"),
    }
    let r = LockRspData::new(Err(String::new()));
    assert!(!r.success && !r.message.is_empty());
}

#[test]
fn packet_names() {
    assert_eq!(scan_req(&[]).name(), "ScanReq");
    assert_eq!(Packet::LockRsp(LockRspData::new(Ok(()))).name(), "LockRsp");
}

#[test]
fn connection_opens_with_configuration() {
    let config = YasScannerConfig {
        max_row: 1000,
        capture_only: false,
        min_star: 5,
        min_level: 0,
        max_wait_switch_artifact: 800,
        scroll_stop: 100,
        number: 0,
        dump_mode: false,
        speed: 5,
        no_check: false,
        max_wait_scroll: 0,
        mark: false,
        dxgcap: false,
        default_stop: 500,
        yun: true,
        scroll_speed: Decimal { mantissa: 150, scale: 1 },
        lock_stop: 100,
        max_wait_lock: 0,
    };
    let (s, a) = greeting(ConfigNotifyData { config });
    assert_eq!(s, ConnState::Idle);
    match a {
        Action::Send(Packet::ConfigNotify(d)) => {
            assert_eq!(d.config.max_row, 1000);
            assert_eq!(d.config.scroll_speed.mantissa, 150);
        }
        _ => panic!("expected the configuration notice"),
    }
}

#[test]
fn malformed_text_is_answered_and_connection_kept() {
    let (s, a) = step(ConnState::Idle, Event::Malformed("malformed message: expected value".to_string()));
    assert_eq!(s, ConnState::Idle);
    match a {
        Action::Send(Packet::ScanRsp(r)) => {
            assert!(!r.success);
            assert_eq!(r.message, "malformed message: expected value");
        }
        _ => panic!("expected a failure response"),
    }
    let (s, a) = step(s, Event::Received(scan_req(&[])));
    assert_eq!(s, ConnState::Scanning);
    assert!(matches!(a, Action::RunScan(_)));
    let (s, a) = step(ConnState::Idle, Event::Malformed(String::new()));
    assert_eq!(s, ConnState::Idle);
    match a {
        Action::Send(Packet::ScanRsp(r)) => assert!(!r.success && !r.message.is_empty()),
        _ => panic!("expected a failure response"),
    }
}
