use bacchus::claims::{
    minutes_between, select_stale, stale_at, Claim, ClaimStore, StoreError, MILLIS_PER_MINUTE,
};

fn claim(bead: &str, agent: &str, at: i64) -> Claim {
    Claim {
        bead_id: bead.to_string(),
        agent_id: agent.to_string(),
        worktree_path: format!("/w/{}", bead),
        branch_name: format!("bacchus/{}", bead),
        start_commit: "c0".to_string(),
        claimed_at: at,
    }
}

#[test]
fn store_holds_one_claim_for_each_bead() {
    let mut store = ClaimStore::new();
    assert_eq!(store.len(), 0);
    assert!(!store.contains("a"));
    assert_eq!(store.find("a"), None);
    assert_eq!(store.insert(claim("a", "x", 1)), Ok(()));
    assert_eq!(store.insert(claim("b", "y", 2)), Ok(()));
    assert!(store.contains("a"));
    assert_eq!(store.find("b"), Some(claim("b", "y", 2)));
    assert_eq!(store.insert(claim("a", "z", 3)), Err(StoreError::Conflict("x".to_string())));
    assert_eq!(store.len(), 2);
    assert_eq!(store.find("a"), Some(claim("a", "x", 1)));
    assert_eq!(store.list_all(), vec![claim("a", "x", 1), claim("b", "y", 2)]);
}

#[test]
fn delete_is_idempotent() {
    let mut store = ClaimStore::new();
    store.insert(claim("a", "x", 1)).unwrap();
    store.insert(claim("b", "y", 2)).unwrap();
    store.insert(claim("c", "z", 3)).unwrap();
    store.delete("b");
    assert_eq!(store.list_all(), vec![claim("a", "x", 1), claim("c", "z", 3)]);
    store.delete("b");
    store.delete("never");
    assert_eq!(store.len(), 2);
    store.delete("a");
    store.delete("c");
    assert_eq!(store.len(), 0);
    assert_eq!(store.insert(claim("a", "w", 9)), Ok(()));
}

#[test]
fn older_than_is_strict() {
    let mut store = ClaimStore::new();
    store.insert(claim("a", "x", 99)).unwrap();
    store.insert(claim("b", "y", 100)).unwrap();
    store.insert(claim("c", "z", 101)).unwrap();
    store.insert(claim("d", "z", -5)).unwrap();
    let old = store.list_older_than(100);
    assert_eq!(old, vec![claim("a", "x", 99), claim("d", "z", -5)]);
    assert!(store.list_older_than(i64::MIN).is_empty());
    assert_eq!(store.list_older_than(i64::MAX).len(), 4);
}

#[test]
fn staleness_has_a_sharp_boundary() {
    let now: i64 = 1_700_000_000_000;
    let minutes: i64 = 15;
    let cutoff = now - minutes * 60_000;
    assert!(stale_at(cutoff - 1, now, minutes));
    assert!(!stale_at(cutoff, now, minutes));
    assert!(!stale_at(cutoff + 1, now, minutes));
    let claims = vec![claim("in", "a", cutoff - 1), claim("out", "b", cutoff + 1)];
    assert_eq!(select_stale(&claims, now, minutes), vec![claim("in", "a", cutoff - 1)]);
}

#[test]
fn staleness_never_overflows() {
    assert!(!stale_at(0, i64::MIN, i64::MAX));
    assert!(stale_at(0, i64::MAX, i64::MIN));
    assert!(stale_at(i64::MIN, i64::MAX, i64::MAX / 60_000 - 1));
    assert!(!stale_at(i64::MAX, i64::MAX, 0));
    assert!(stale_at(i64::MAX - 1, i64::MAX, 0));
    assert!(stale_at(5, 0, -1));
}

#[test]
fn minutes_round_toward_zero() {
    assert_eq!(MILLIS_PER_MINUTE, 60_000);
    assert_eq!(minutes_between(0, 59_999), 0);
    assert_eq!(minutes_between(0, 60_000), 1);
    assert_eq!(minutes_between(0, 119_999), 1);
    assert_eq!(minutes_between(60_000, 0), -1);
    assert_eq!(minutes_between(59_999, 0), 0);
    assert_eq!(minutes_between(i64::MIN, i64::MAX), 307_445_734_561_825);
    assert_eq!(minutes_between(i64::MAX, i64::MIN), -307_445_734_561_825);
}
