use vibetree::pty::{exit_code, exited_event, PtyError, PtyEvent, SessionTable};

#[test]
fn ids_count_up_from_one() {
    let mut t: SessionTable<String> = SessionTable::new();
    let a = t.allocate_id();
    let b = t.allocate_id();
    let c = t.allocate_id();
    assert_eq!((a, b, c), (1, 2, 3));
}

#[test]
fn insert_then_get_finds_session() {
    let mut t: SessionTable<String> = SessionTable::new();
    let id = t.allocate_id();
    t.insert(id, "shell".to_string());
    t.insert(9, "other".to_string());
    assert_eq!(t.get(id).unwrap(), "shell");
    assert!(t.contains(id));
    assert_eq!(t.session_count(), 2);
}

#[test]
fn missing_session_is_not_found() {
    let t: SessionTable<String> = SessionTable::new();
    assert!(matches!(t.get(7), Err(PtyError::NotFound(7))));
    assert!(!t.contains(7));
}

#[test]
fn get_mut_updates_session() {
    let mut t: SessionTable<Vec<u8>> = SessionTable::new();
    t.insert(1, vec![1]);
    t.get_mut(1).unwrap().push(2);
    assert_eq!(t.get(1).unwrap(), &vec![1, 2]);
    assert!(matches!(t.get_mut(2), Err(PtyError::NotFound(2))));
}

#[test]
fn remove_then_not_found() {
    let mut t: SessionTable<String> = SessionTable::new();
    t.insert(1, "a".to_string());
    t.insert(2, "b".to_string());
    assert_eq!(t.remove(1).unwrap(), "a");
    assert!(matches!(t.get(1), Err(PtyError::NotFound(1))));
    assert!(matches!(t.remove(1), Err(PtyError::NotFound(1))));
    assert_eq!(t.get(2).unwrap(), "b");
    assert_eq!(t.session_count(), 1);
}

#[test]
fn take_all_empties_table() {
    let mut t: SessionTable<u32> = SessionTable::new();
    t.insert(1, 10);
    t.insert(2, 20);
    let all = t.take_all();
    assert_eq!(all.len(), 2);
    assert_eq!(all[&2], 20);
    assert_eq!(t.session_count(), 0);
    assert_eq!(t.allocate_id(), 1);
}

#[test]
fn exit_codes() {
    assert_eq!(exit_code(Some(3)), 3);
    assert_eq!(exit_code(None), -1);
    assert_eq!(exit_code(Some(u32::MAX)), -1);
    assert_eq!(exit_code(Some(0x8000_0000)), i32::MIN);
}

#[test]
fn exited_event_carries_code() {
    match exited_event(5, Some(2)) {
        PtyEvent::Exited { session_id, code } => assert_eq!((session_id, code), (5, 2)),
        other => panic!("unexpected {:?}", other),
    }
    match exited_event(6, None) {
        PtyEvent::Exited { session_id, code } => assert_eq!((session_id, code), (6, -1)),
        other => panic!("unexpected {:?}", other),
    }
}

#[test]
fn each_spawn_adds_one_fresh_session() {
    let mut t: SessionTable<String> = SessionTable::new();
    for k in 0..5u64 {
        let id = t.allocate_id();
        assert_eq!(id, k + 1);
        assert!(!t.contains(id));
        let before = t.session_count();
        t.insert(id, format!("s{}", id));
        assert_eq!(t.session_count(), before + 1);
    }
    // A failed spawn uses its identifier up: it is never handed out again.
    let lost = t.allocate_id();
    assert_eq!(t.allocate_id(), lost + 1);
    assert_eq!(t.session_count(), 5);
}
