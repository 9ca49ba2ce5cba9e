use node_monitor::block::{hash_hex, hashes_equal, BlockRecord};
use node_monitor::health::{block_is_stale, Health, UnhealthyReason};
use node_monitor::reconcile::{reconcile, ProviderError, Reconciliation};
use node_monitor::schedule::next_tick;
use node_monitor::state::AppState;

fn hash_of(tail: &[u8]) -> [u8; 32] {
    let mut h = [0u8; 32];
    let start = 32 - tail.len();
    h[start..].copy_from_slice(tail);
    h
}

fn block(number: u64, tail: &[u8], timestamp: u64) -> BlockRecord {
    BlockRecord { number, hash: hash_of(tail), timestamp }
}

fn failure() -> ProviderError {
    ProviderError { message: String::from("connection refused") }
}

#[test]
fn new_state_is_empty() {
    let s = AppState::new(12);
    assert_eq!(s.last_block(), None);
    assert!(!s.fail_intentional());
    assert_eq!(s.block_frequency(), 12);
}

#[test]
fn forced_is_unhealthy_even_with_fresh_block() {
    let mut s = AppState::new(12);
    s.update(block(1, &[0x01], 1000));
    assert!(s.toggle_fail_intentional());
    assert_eq!(s.evaluate_health(1000), Health::Unhealthy(UnhealthyReason::Forced));
    assert!(!s.is_healthy(1000));
    assert!(!s.is_healthy(1005));
}

#[test]
fn forced_without_block_reports_forced() {
    let mut s = AppState::new(12);
    s.toggle_fail_intentional();
    assert_eq!(s.evaluate_health(0), Health::Unhealthy(UnhealthyReason::Forced));
}

#[test]
fn no_block_is_unhealthy() {
    let s = AppState::new(12);
    let h = s.evaluate_health(1000);
    assert_eq!(h, Health::Unhealthy(UnhealthyReason::NoBlock));
    assert_eq!(UnhealthyReason::NoBlock.as_text(), "no block observed");
    assert!(!s.is_healthy(1000));
}

#[test]
fn stale_boundary_is_inclusive() {
    let t: u64 = 1_700_000_000;
    let mut s = AppState::new(12);
    s.update(block(7, &[0x07], t));
    assert!(s.is_healthy(t + 12));
    assert_eq!(s.evaluate_health(t + 12), Health::Healthy);
    assert!(!s.is_healthy(t + 13));
    assert_eq!(s.evaluate_health(t + 13), Health::Unhealthy(UnhealthyReason::StaleBlock));
    assert_eq!(UnhealthyReason::StaleBlock.as_text(), "stale block");
}

#[test]
fn block_from_the_future_is_fresh() {
    let b = block(3, &[0x03], 2000);
    assert!(!block_is_stale(&b, 1000, 12));
    assert!(!block_is_stale(&b, 2012, 12));
    assert!(block_is_stale(&b, 2013, 12));
    assert!(block_is_stale(&b, u64::MAX, 12));
}

#[test]
fn toggle_twice_restores_flag() {
    let mut s = AppState::new(12);
    assert!(s.toggle_fail_intentional());
    assert!(s.fail_intentional());
    assert!(!s.toggle_fail_intentional());
    assert!(!s.fail_intentional());
    assert_eq!(UnhealthyReason::Forced.as_text(), "forced");
}

#[test]
fn mismatched_hash_is_still_accepted() {
    let mut s = AppState::new(12);
    let primary = block(100, &[0x11], 1000);
    let other = block(100, &[0x22], 1000);
    let r = s.poll_and_update_block(primary, &Ok(Some(other)));
    assert_eq!(r, Reconciliation::HashMismatch);
    assert!(r.is_discrepancy());
    assert_eq!(r.discrepancy_text(), Some("hash mismatch between sources"));
    assert_eq!(s.last_block(), Some(primary));
    assert_eq!(s.last_block().unwrap().hash, hash_of(&[0x11]));
}

#[test]
fn missing_secondary_is_still_accepted() {
    let mut s = AppState::new(12);
    let primary = block(101, &[0x33], 1012);
    let r = s.poll_and_update_block(primary, &Ok(None));
    assert_eq!(r, Reconciliation::MissingInSecondary);
    assert_eq!(r.discrepancy_text(), Some("block not found in secondary source"));
    assert_eq!(s.last_block(), Some(primary));
}

#[test]
fn failed_secondary_is_still_accepted() {
    let mut s = AppState::new(12);
    let primary = block(102, &[0x44], 1024);
    let r = s.poll_and_update_block(primary, &Err(failure()));
    assert_eq!(r, Reconciliation::MissingInSecondary);
    assert_eq!(s.last_block(), Some(primary));
}

#[test]
fn matching_hash_is_confirmed() {
    let mut s = AppState::new(12);
    let primary = block(103, &[0x55, 0x66], 1036);
    let r = s.poll_and_update_block(primary, &Ok(Some(primary)));
    assert_eq!(r, Reconciliation::Confirmed);
    assert!(!r.is_discrepancy());
    assert_eq!(r.discrepancy_text(), None);
    assert_eq!(s.last_block(), Some(primary));
}

#[test]
fn reconcile_compares_hashes_only() {
    let a = block(5, &[0xab], 10);
    let b = block(6, &[0xab], 99);
    let c = block(5, &[0xac], 10);
    assert_eq!(reconcile(&a, &Ok(Some(b))), Reconciliation::Confirmed);
    assert_eq!(reconcile(&a, &Ok(Some(c))), Reconciliation::HashMismatch);
    assert_eq!(reconcile(&a, &Err(failure())), Reconciliation::MissingInSecondary);
}

#[test]
fn hashes_equal_sees_every_byte() {
    let a = hash_of(&[0x01]);
    let mut b = a;
    assert!(hashes_equal(&a, &b));
    b[0] = 0xff;
    assert!(!hashes_equal(&a, &b));
    let mut c = a;
    c[31] = 0x02;
    assert!(!hashes_equal(&a, &c));
}

#[test]
fn later_block_with_lower_number_replaces() {
    let mut s = AppState::new(12);
    s.update(block(10, &[0x0a], 120));
    s.update(block(9, &[0x09], 108));
    assert_eq!(s.last_block(), Some(block(9, &[0x09], 108)));
}

#[test]
fn poll_failure_leaves_state() {
    let mut s = AppState::new(12);
    let first = block(1, &[0x01], 12);
    assert!(s.ingest_polled(Ok(Some(first))));
    assert!(!s.ingest_polled(Err(failure())));
    assert_eq!(s.last_block(), Some(first));
    assert!(!s.ingest_polled(Ok(None)));
    assert_eq!(s.last_block(), Some(first));
    let second = block(2, &[0x02], 24);
    assert!(s.ingest_polled(Ok(Some(second))));
    assert_eq!(s.last_block(), Some(second));
}

#[test]
fn snapshot_is_independent() {
    let mut s = AppState::new(12);
    s.update(block(1, &[0x01], 12));
    let snap = s.snapshot();
    s.update(block(2, &[0x02], 24));
    s.toggle_fail_intentional();
    assert_eq!(snap.last_block(), Some(block(1, &[0x01], 12)));
    assert!(!snap.fail_intentional());
    assert_eq!(snap.block_frequency(), 12);
}

#[test]
fn first_tick_is_next_boundary_plus_grace() {
    assert_eq!(next_tick(100, 12), 109);
    assert_eq!(next_tick(1_700_000_005, 12), 1_700_000_005 - (1_700_000_005 % 12) + 13);
    assert_eq!(next_tick(108, 12), 109);
    assert_eq!(next_tick(109, 12), 121);
    assert_eq!(next_tick(0, 12), 1);
}

#[test]
fn hundred_ticks_do_not_drift() {
    let start: u64 = 1_700_000_003;
    let first = next_tick(start, 12);
    assert_eq!((first - 1) % 12, 0);
    assert!(first > start && first <= start + 12);
    let mut t = first;
    for k in 1..=100u64 {
        let n = next_tick(t, 12);
        assert_eq!(n, t + 12);
        assert_eq!(n, first + 12 * k);
        t = n;
    }
}

#[test]
fn ticks_with_one_second_frequency() {
    assert_eq!(next_tick(5, 1), 6);
    assert_eq!(next_tick(6, 1), 7);
}

#[test]
fn last_block_before_and_after_ingestion() {
    let mut s = AppState::new(12);
    assert_eq!(s.last_block(), None);
    let b = BlockRecord { number: 5, hash: hash_of(&[0x0a, 0xbc]), timestamp: 1000 };
    let r = s.poll_and_update_block(b, &Ok(Some(b)));
    assert_eq!(r, Reconciliation::Confirmed);
    let got = s.last_block().unwrap();
    assert_eq!(got.number, 5);
    assert_eq!(got.hash, hash_of(&[0x0a, 0xbc]));
    assert_eq!(got.timestamp, 1000);
}

#[test]
fn status_codes_follow_health() {
    assert_eq!(Health::Healthy.status_code(), 200);
    assert_eq!(Health::Unhealthy(UnhealthyReason::Forced).status_code(), 503);
    assert_eq!(Health::Unhealthy(UnhealthyReason::NoBlock).status_code(), 503);
    assert_eq!(Health::Unhealthy(UnhealthyReason::StaleBlock).status_code(), 503);
}

#[test]
fn hash_hex_renders_all_bytes() {
    let h = hash_of(&[0x0a, 0xbc]);
    let expected = format!("0x{}0abc", "0".repeat(60));
    assert_eq!(hash_hex(&h), expected);
    let mut g = [0u8; 32];
    g[0] = 0xff;
    g[1] = 0x10;
    let text = hash_hex(&g);
    assert_eq!(text.len(), 66);
    assert!(text.starts_with("0xff10"));
    assert!(text.ends_with("00"));
}
