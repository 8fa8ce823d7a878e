use endpoint_core::credential::ApiKey;

fn fresh_at(start: u64) -> ApiKey {
    ApiKey {
        key: "k".to_string(),
        user: None,
        limited: false,
        request_count: 0,
        last_request_time: start,
    }
}

#[test]
fn admits_until_limit_then_denies() {
    let mut k = fresh_at(100);
    for _ in 0..5 {
        assert!(k.can_request_at(5, 110));
    }
    assert!(!k.can_request_at(5, 110));
    assert!(k.limited);
    assert_eq!(k.request_count, 5);
}

#[test]
fn rollover_resets_count_and_flag() {
    let mut k = fresh_at(0);
    assert!(k.can_request_at(1, 10));
    assert!(!k.can_request_at(1, 20));
    assert!(k.limited);
    assert!(k.can_request_at(1, 61));
    assert_eq!(k.request_count, 1);
    assert!(!k.limited);
    assert_eq!(k.last_request_time, 61);
}

#[test]
fn scenario_three_quick_then_wait() {
    let mut k = fresh_at(0);
    let r1 = k.can_request_at(2, 1);
    let r2 = k.can_request_at(2, 1);
    let r3 = k.can_request_at(2, 1);
    assert_eq!((r1, r2, r3), (true, true, false));
    assert!(k.limited);
    let r4 = k.can_request_at(2, 62);
    assert!(r4);
    assert_eq!(k.request_count, 1);
    assert!(!k.limited);
}

#[test]
fn sixty_units_elapsed_is_still_the_same_window() {
    let mut k = fresh_at(0);
    assert!(k.can_request_at(1, 60));
    assert!(!k.can_request_at(1, 60));
    assert_eq!(k.last_request_time, 0);
}

#[test]
fn n_evaluations_yield_exactly_limit_admits() {
    let mut k = fresh_at(0);
    let mut results: Vec<bool> = Vec::new();
    for _ in 0..4 {
        results.push(k.can_request_at(3, 1));
    }
    assert_eq!(results, vec![true, true, true, false]);
    assert_eq!(k.request_count, 3);
    assert!(k.limited);
}

#[test]
fn zero_limit_denies_everything() {
    let mut k = fresh_at(0);
    assert!(!k.can_request_at(0, 1));
    assert!(k.limited);
    assert_eq!(k.request_count, 0);
}

#[test]
fn clock_moving_backwards_stays_in_window() {
    let mut k = fresh_at(100);
    assert!(k.can_request_at(2, 5));
    assert_eq!(k.request_count, 1);
    assert_eq!(k.last_request_time, 100);
}

#[test]
fn new_key_has_default_state() {
    let k = ApiKey::new();
    assert_eq!(k.key.len(), 36);
    assert!(k.user.is_none());
    assert!(!k.limited);
    assert_eq!(k.request_count, 0);
}

#[test]
fn new_keys_are_distinct() {
    let a = ApiKey::new();
    let b = ApiKey::new();
    assert_ne!(a.key, b.key);
}

#[test]
fn wall_clock_evaluation_counts() {
    let mut k = ApiKey::new();
    assert!(k.can_request(1000));
    assert_eq!(k.request_count, 1);
}
