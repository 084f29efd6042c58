use unicom::error::UnicomErrorKind;
use unicom::pending::PendingController;

#[test]
fn created_ids_are_pairwise_distinct() {
    let mut table = PendingController::new();
    let mut seen: Vec<u64> = Vec::new();
    for _ in 0..100 {
        let id = table.create();
        assert!(!seen.contains(&id));
        assert_ne!(id, 0);
        seen.push(id);
    }
}

#[test]
fn get_before_update_is_still_pending() {
    let mut table = PendingController::new();
    let id = table.create();
    let e = table.get(id).expect_err("entry is still waiting");
    assert!(matches!(e.kind, UnicomErrorKind::Internal));
    assert_eq!(e.description, "still pending");
    // The failed get left the entry in place: settling and consuming works.
    table.update(id, Ok(vec![1, 2, 3])).expect("entry exists");
    let v = table.get(id).expect("entry was settled");
    assert_eq!(v, vec![1, 2, 3]);
    // Consumption is destructive: a second get no longer finds the entry.
    let e = table.get(id).expect_err("entry was consumed");
    assert!(matches!(e.kind, UnicomErrorKind::Internal));
    assert_eq!(e.description, "pending unknown");
}

#[test]
fn get_returns_the_settled_error() {
    let mut table = PendingController::new();
    let id = table.create();
    let failure = unicom::error::UnicomError::new(UnicomErrorKind::Timeout, "remote timed out");
    table.update(id, Err(failure)).expect("entry exists");
    let e = table.get(id).expect_err("entry settled with an error");
    assert!(matches!(e.kind, UnicomErrorKind::Timeout));
    assert_eq!(e.description, "remote timed out");
}

#[test]
fn update_unknown_id_fails_without_side_effect() {
    let mut table = PendingController::new();
    let a = table.create();
    let b = table.create();
    let e = table.update(999, Ok(vec![1])).expect_err("id never created");
    assert!(matches!(e.kind, UnicomErrorKind::InputInvalid));
    assert_eq!(e.description, "pending unknown");
    // Other entries are untouched: both still waiting, then resolvable.
    let e = table.get(a).expect_err("a still waiting");
    assert_eq!(e.description, "still pending");
    table.update(a, Ok(vec![10])).expect("a exists");
    table.update(b, Ok(vec![20])).expect("b exists");
    assert_eq!(table.get(a).expect("a settled"), vec![10]);
    assert_eq!(table.get(b).expect("b settled"), vec![20]);
}

#[test]
fn update_consumed_id_fails() {
    let mut table = PendingController::new();
    let id = table.create();
    table.update(id, Ok(Vec::new())).expect("entry exists");
    table.get(id).expect("settled");
    let e = table.update(id, Ok(Vec::new())).expect_err("already consumed");
    assert!(matches!(e.kind, UnicomErrorKind::InputInvalid));
}
