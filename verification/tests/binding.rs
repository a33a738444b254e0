use drawing_diff::AsyncBinding;
use drawing_diff::BindState;

#[test]
fn new_binding_is_idle() {
    let b: AsyncBinding<u32, String> = AsyncBinding::new();
    assert!(b.is_idle());
    assert!(!b.is_pending());
    assert!(matches!(b.state(), BindState::Idle));
    assert!(b.ok_ref().is_none());
    assert!(b.err_ref().is_none());
}

#[test]
fn default_binding_is_idle() {
    let b: AsyncBinding<u32, String> = AsyncBinding::default();
    assert!(b.is_idle());
}

#[test]
fn refresh_turns_pending() {
    let mut b: AsyncBinding<u32, String> = AsyncBinding::new();
    let t = b.refresh();
    assert!(b.is_pending());
    assert!(matches!(b.state(), BindState::Pending));
    assert!(b.ok_ref().is_none());
    assert!(b.err_ref().is_none());
    assert_eq!(t, 1);
}

#[test]
fn current_ok_outcome_finishes() {
    let mut b: AsyncBinding<u32, String> = AsyncBinding::new();
    let t = b.refresh();
    b.resolve(t, Ok(42));
    assert!(matches!(b.state(), BindState::Finished(42)));
    assert_eq!(b.ok_ref(), Some(&42));
    assert!(b.err_ref().is_none());
    assert!(!b.is_idle());
    assert!(!b.is_pending());
}

#[test]
fn current_err_outcome_fails() {
    let mut b: AsyncBinding<u32, String> = AsyncBinding::new();
    let t = b.refresh();
    b.resolve(t, Err("no file chosen".to_owned()));
    assert!(matches!(b.state(), BindState::Failed(_)));
    assert!(b.ok_ref().is_none());
    assert_eq!(b.err_ref(), Some(&"no file chosen".to_owned()));
}

#[test]
fn latest_refresh_wins() {
    let mut b: AsyncBinding<&'static str, &'static str> = AsyncBinding::new();
    let ticket_a = b.refresh();
    let ticket_b = b.refresh();
    b.resolve(ticket_b, Ok("from B"));
    b.resolve(ticket_a, Ok("from A"));
    assert_eq!(b.ok_ref(), Some(&"from B"));
    b.resolve(ticket_a, Err("A failed late"));
    assert_eq!(b.ok_ref(), Some(&"from B"));
}

#[test]
fn stale_outcome_leaves_pending() {
    let mut b: AsyncBinding<u32, String> = AsyncBinding::new();
    let old_ticket = b.refresh();
    let _new_ticket = b.refresh();
    b.resolve(old_ticket, Ok(1));
    assert!(b.is_pending());
    assert!(b.ok_ref().is_none());
}

#[test]
fn refresh_supersedes_every_state() {
    let mut b: AsyncBinding<u32, String> = AsyncBinding::new();
    let t = b.refresh();
    b.resolve(t, Ok(1));
    assert!(b.ok_ref().is_some());
    let t2 = b.refresh();
    assert!(b.is_pending());
    assert!(b.ok_ref().is_none());
    b.resolve(t2, Err("second run failed".to_owned()));
    assert!(b.err_ref().is_some());
    b.refresh();
    assert!(b.is_pending());
    assert!(b.err_ref().is_none());
}

#[test]
fn duplicate_outcome_for_same_ticket_is_ignored() {
    let mut b: AsyncBinding<u32, String> = AsyncBinding::new();
    let t = b.refresh();
    b.resolve(t, Ok(1));
    b.resolve(t, Ok(2));
    assert_eq!(b.ok_ref(), Some(&1));
}

#[test]
fn state_is_always_one_of_four() {
    let mut b: AsyncBinding<u32, String> = AsyncBinding::new();
    let mut seen = Vec::new();
    let record = |b: &AsyncBinding<u32, String>, seen: &mut Vec<&'static str>| {
        match b.state() {
            BindState::Idle => seen.push("idle"),
            BindState::Pending => seen.push("pending"),
            BindState::Finished(_) => seen.push("finished"),
            BindState::Failed(_) => seen.push("failed"),
        }
    };
    record(&b, &mut seen);
    let t = b.refresh();
    record(&b, &mut seen);
    b.resolve(t, Ok(7));
    record(&b, &mut seen);
    let t2 = b.refresh();
    b.resolve(t2, Err("boom".to_owned()));
    record(&b, &mut seen);
    assert_eq!(seen, vec!["idle", "pending", "finished", "failed"]);
}
