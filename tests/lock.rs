use yas_relic::lock::{LockAction, LockActionType};

fn act(target: u32, kind: LockActionType) -> LockAction {
    LockAction { target, kind }
}

#[test]
fn lock_spec_round_trips() {
    let actions = vec![
        act(3, LockActionType::Lock),
        act(0, LockActionType::Flip),
        act(4_294_967_295, LockActionType::Unlock),
        act(120, LockActionType::Lock),
    ];
    let text = LockAction::to_lock_json(&actions);
    assert_eq!(
        text,
        "[{\"index\":3,\"action\":\"lock\"},{\"index\":0,\"action\":\"flip\"},{\"index\":4294967295,\"action\":\"unlock\"},{\"index\":120,\"action\":\"lock\"}]"
    );
    assert_eq!(LockAction::from_lock_json(&text), Some(actions));
}

#[test]
fn empty_lock_spec_round_trips() {
    let text = LockAction::to_lock_json(&Vec::new());
    assert_eq!(text, "[]");
    assert_eq!(LockAction::from_lock_json(&text), Some(Vec::new()));
}

#[test]
fn single_action_round_trips() {
    let actions = vec![act(7, LockActionType::Unlock)];
    let text = LockAction::to_lock_json(&actions);
    assert_eq!(text, "[{\"index\":7,\"action\":\"unlock\"}]");
    assert_eq!(LockAction::from_lock_json(&text), Some(actions));
}

#[test]
fn malformed_lock_specs_are_refused() {
    for t in [
        "",
        "[",
        "]",
        "[,]",
        "[{\"index\":03,\"action\":\"lock\"}]",
        "[{\"index\":3,\"action\":\"open\"}]",
        "[{\"index\":3,\"action\":\"lock\"},]",
        "[{\"index\":3, \"action\":\"lock\"}]",
        "[{\"index\":4294967296,\"action\":\"lock\"}]",
        "[{\"index\":,\"action\":\"lock\"}]",
        "[{\"index\":3,\"action\":\"lock\"}]x",
        "{\"index\":3,\"action\":\"lock\"}",
    ] {
        assert_eq!(LockAction::from_lock_json(t), None, "{}", t);
    }
}

#[test]
fn legacy_indices_toggle() {
    let v = LockAction::from_v1(&vec![5, 1, 5]);
    assert_eq!(
        v,
        vec![act(5, LockActionType::Flip), act(1, LockActionType::Flip), act(5, LockActionType::Flip)]
    );
    assert!(LockAction::from_v1(&Vec::new()).is_empty());
}
