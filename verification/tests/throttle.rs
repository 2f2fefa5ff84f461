use fiducia_backend::throttle::{
    check, check_in, client_key, prune_expired, Bucket, Decision, Windows, MAX_TRACKED_KEYS,
    NANOS_PER_SEC,
};
use std::time::Instant;

fn state() -> Windows {
    Windows::new()
}

#[test]
fn allows_up_to_the_budget_then_denies() {
    let mut s = state();
    let now = 7 * NANOS_PER_SEC;
    for attempt in 1..=3 {
        assert!(
            check_in(&mut s, Bucket::OtpDispatchPerIdentifier, "u@x.com", now).allowed,
            "attempt {attempt} should be admitted"
        );
    }
    let denied = check_in(&mut s, Bucket::OtpDispatchPerIdentifier, "u@x.com", now);
    assert!(!denied.allowed, "the 4th dispatch must be refused");
    assert!(denied.retry_after_secs > 0, "a denial must advertise a retry delay");
}

#[test]
fn the_window_slides_so_a_real_user_recovers() {
    let mut s = state();
    let start = 7 * NANOS_PER_SEC;
    for _ in 0..3 {
        assert!(check_in(&mut s, Bucket::OtpDispatchPerIdentifier, "u@x.com", start).allowed);
    }
    assert!(!check_in(&mut s, Bucket::OtpDispatchPerIdentifier, "u@x.com", start).allowed);
    let later = start + (15 * 60 + 1) * NANOS_PER_SEC;
    assert!(
        check_in(&mut s, Bucket::OtpDispatchPerIdentifier, "u@x.com", later).allowed,
        "events older than the window must age out"
    );
}

#[test]
fn identifiers_are_case_and_space_insensitive() {
    let mut s = state();
    let now = 7 * NANOS_PER_SEC;
    for _ in 0..3 {
        assert!(check_in(&mut s, Bucket::OtpDispatchPerIdentifier, "u@x.com", now).allowed);
    }
    assert!(!check_in(&mut s, Bucket::OtpDispatchPerIdentifier, " U@X.com ", now).allowed);
}

#[test]
fn buckets_are_independent() {
    let mut s = state();
    let now = 7 * NANOS_PER_SEC;
    for _ in 0..3 {
        check_in(&mut s, Bucket::OtpDispatchPerIdentifier, "u@x.com", now);
    }
    assert!(!check_in(&mut s, Bucket::OtpDispatchPerIdentifier, "u@x.com", now).allowed);
    assert!(
        check_in(&mut s, Bucket::OtpVerifyPerIdentifier, "u@x.com", now).allowed,
        "a spent dispatch budget must not consume the verify budget"
    );
}

#[test]
fn distinct_keys_do_not_share_a_budget() {
    let mut s = state();
    let now = 7 * NANOS_PER_SEC;
    for _ in 0..3 {
        check_in(&mut s, Bucket::OtpDispatchPerIdentifier, "a@x.com", now);
    }
    assert!(!check_in(&mut s, Bucket::OtpDispatchPerIdentifier, "a@x.com", now).allowed);
    assert!(check_in(&mut s, Bucket::OtpDispatchPerIdentifier, "b@x.com", now).allowed);
}

#[test]
fn brute_force_budgets_are_tight_enough_to_matter() {
    let (limit, window) = Bucket::OtpVerifyPerIdentifier.budget();
    assert_eq!(limit, 5);
    assert_eq!(window, 600);
    let (mfa_limit, _) = Bucket::MfaVerifyPerClient.budget();
    assert_eq!(mfa_limit, 5);
}

#[test]
fn client_key_takes_the_last_forwarded_hop() {
    assert_eq!(client_key(Some("1.2.3.4")), "1.2.3.4");
    assert_eq!(client_key(Some("evil-spoof, 203.0.113.9")), "203.0.113.9");
    assert_eq!(client_key(Some(" 10.0.0.1 , 198.51.100.7 ")), "198.51.100.7");
}

#[test]
fn unattributable_clients_share_one_bucket_not_unlimited_ones() {
    assert_eq!(client_key(None), "unattributed");
    assert_eq!(client_key(Some("   ")), "unattributed");
    assert_eq!(client_key(Some("")), "unattributed");
}

#[test]
fn a_spoofed_forwarded_prefix_cannot_reset_the_bucket() {
    let mut s = state();
    let now = 7 * NANOS_PER_SEC;
    for spoof in ["a", "b", "c"] {
        let key = client_key(Some(&format!("{spoof}, 203.0.113.9")));
        check_in(&mut s, Bucket::MfaVerifyPerClient, &key, now);
    }
    for spoof in ["d", "e"] {
        let key = client_key(Some(&format!("{spoof}, 203.0.113.9")));
        check_in(&mut s, Bucket::MfaVerifyPerClient, &key, now);
    }
    let key = client_key(Some("f, 203.0.113.9"));
    assert!(
        !check_in(&mut s, Bucket::MfaVerifyPerClient, &key, now).allowed,
        "rotating the spoofable prefix must not mint a fresh budget"
    );
}

#[test]
fn every_budget_has_its_size_and_window() {
    assert_eq!(Bucket::OtpDispatchPerIdentifier.budget(), (3, 900));
    assert_eq!(Bucket::OtpDispatchPerClient.budget(), (10, 3600));
    assert_eq!(Bucket::OtpVerifyPerIdentifier.budget(), (5, 600));
    assert_eq!(Bucket::MfaVerifyPerClient.budget(), (5, 600));
    assert_eq!(Bucket::PasswordPerIdentifier.budget(), (10, 900));
}

#[test]
fn a_denial_tells_how_long_the_oldest_attempt_still_counts() {
    let mut s = state();
    for at in [0, 100, 200] {
        let now = at * NANOS_PER_SEC;
        let decision = check_in(&mut s, Bucket::OtpDispatchPerIdentifier, "u@x.com", now);
        assert_eq!(decision, Decision { allowed: true, retry_after_secs: 0 });
    }
    let now = 300 * NANOS_PER_SEC;
    assert_eq!(
        check_in(&mut s, Bucket::OtpDispatchPerIdentifier, "u@x.com", now),
        Decision { allowed: false, retry_after_secs: 600 }
    );
    // One nanosecond before the oldest ages out the delay is still a whole second.
    let now = 900 * NANOS_PER_SEC - 1;
    assert_eq!(
        check_in(&mut s, Bucket::OtpDispatchPerIdentifier, "u@x.com", now),
        Decision { allowed: false, retry_after_secs: 1 }
    );
    assert!(
        check_in(&mut s, Bucket::OtpDispatchPerIdentifier, "u@x.com", 900 * NANOS_PER_SEC).allowed
    );
}

#[test]
fn a_full_table_refuses_new_keys_and_keeps_the_old() {
    let mut s = state();
    let now = 5 * NANOS_PER_SEC;
    for i in 0..MAX_TRACKED_KEYS {
        assert!(check_in(&mut s, Bucket::PasswordPerIdentifier, &format!("u{i}"), now).allowed);
    }
    assert_eq!(s.len(), MAX_TRACKED_KEYS);
    let refused = check_in(&mut s, Bucket::PasswordPerIdentifier, "newcomer", now);
    assert!(!refused.allowed);
    assert!(refused.retry_after_secs > 0);
    assert!(check_in(&mut s, Bucket::PasswordPerIdentifier, "u7", now).allowed);
    // Once the old keys have aged out there is room again.
    let later = now + 901 * NANOS_PER_SEC;
    assert!(check_in(&mut s, Bucket::PasswordPerIdentifier, "newcomer", later).allowed);
    assert_eq!(s.len(), 1);
}

#[test]
fn pruning_drops_only_what_has_aged_out() {
    let mut s = state();
    check_in(&mut s, Bucket::OtpVerifyPerIdentifier, "old", 0);
    check_in(&mut s, Bucket::OtpVerifyPerIdentifier, "young", 500 * NANOS_PER_SEC);
    prune_expired(&mut s, 700 * NANOS_PER_SEC);
    assert_eq!(s.len(), 1);
    prune_expired(&mut s, 2000 * NANOS_PER_SEC);
    assert_eq!(s.len(), 0);
}

#[test]
fn the_clock_of_the_process_moves_on() {
    let mut s = state();
    let origin = Instant::now();
    for _ in 0..3 {
        assert!(check(&mut s, &origin, Bucket::OtpDispatchPerIdentifier, "u@x.com").allowed);
    }
    let denied = check(&mut s, &origin, Bucket::OtpDispatchPerIdentifier, "u@x.com");
    assert!(!denied.allowed);
    assert!(denied.retry_after_secs >= 1 && denied.retry_after_secs <= 900);
}
