use notion_quick_notes::rate_limit::{
    extract_rate_limit_headers, get_rate_limit_message, jittered_backoff_ms, RateLimitManager,
    RateLimitState,
};

const J: u64 = 1000; // a neutral jitter factor: exactly the base backoff

#[test]
fn unseen_credential_is_allowed_with_zero_delay() {
    let m = RateLimitManager::new();
    assert!(m.should_allow_request("tok-a", 5_000, J));
    assert_eq!(m.get_recommended_delay("tok-a", 5_000, J), 0);
    assert_eq!(m.time_until_reset("tok-a", 5_000), None);
    assert!(m.get_state("tok-a").is_none());
}

#[test]
fn fresh_state_allows_requests() {
    let s = RateLimitState::new(1_000);
    assert!(s.should_allow_request(1_000, J));
    assert_eq!(s.get_recommended_delay(1_000, J), 0);
    assert_eq!(s.time_until_reset(1_000), None);
}

#[test]
fn rate_limit_blocks_until_reset_then_allows() {
    let now = 1_000_000u64;
    let mut s = RateLimitState::new(now);
    s.record_rate_limit(now, Some(30), Some(0), Some(90));
    assert_eq!(s.time_until_reset(now), Some(30));
    assert!(s.time_until_reset(now + 10_000).unwrap() <= 30);
    assert!(!s.should_allow_request(now, J));
    assert!(!s.should_allow_request(now + 29_999, J));
    assert!(!s.should_allow_request(now + 30_000, J));
    assert!(s.should_allow_request(now + 30_001, J));
}

#[test]
fn record_success_resets_counter_and_flag() {
    let now = 2_000_000u64;
    let mut s = RateLimitState::new(now);
    s.record_rate_limit(now, Some(30), Some(0), Some(90));
    s.record_rate_limit(now + 10, None, None, None);
    assert!(s.is_rate_limited);
    assert_eq!(s.consecutive_rate_limits, 2);
    s.record_success(now + 20);
    assert_eq!(s.consecutive_rate_limits, 0);
    assert!(!s.is_rate_limited);
    assert!(s.should_allow_request(now + 21, J));
    assert_eq!(s.get_recommended_delay(now + 21, J), 0);
}

#[test]
fn success_after_limit_restores_admission_from_any_state() {
    let now = 3_000_000u64;
    let mut s = RateLimitState::new(now);
    for i in 0..5 {
        s.record_rate_limit(now + i, Some(3_600), Some(0), None);
    }
    assert!(!s.should_allow_request(now + 10, J));
    s.record_success(now + 11);
    assert_eq!(s.consecutive_rate_limits, 0);
    assert!(!s.is_rate_limited);
    assert!(s.should_allow_request(now + 12, J));
}

#[test]
fn recent_requests_capped_at_twenty_oldest_evicted() {
    let mut s = RateLimitState::new(0);
    for i in 0..25u64 {
        s.record_success(i);
    }
    assert_eq!(s.recent_requests.len(), 20);
    assert_eq!(s.recent_requests[0], 5);
    assert_eq!(s.recent_requests[19], 24);
}

#[test]
fn backoff_matches_doubling_formula_up_to_cap() {
    // with the neutral jitter factor the backoff is exactly
    // min(1000 * 2^n, 300000) milliseconds
    let expected = [
        1_000u64, 2_000, 4_000, 8_000, 16_000, 32_000, 64_000, 128_000, 256_000, 300_000, 300_000,
    ];
    for (n, want) in expected.iter().enumerate() {
        assert_eq!(jittered_backoff_ms(n as u32, 1000), *want);
    }
    // far past the exponent cap it stays at the ceiling
    assert_eq!(jittered_backoff_ms(40, 1000), 300_000);
}

#[test]
fn backoff_non_decreasing_and_within_jitter_band() {
    for &j in &[750u64, 1000, 1249] {
        let mut prev = 0u64;
        for n in 0..=12u32 {
            let b = jittered_backoff_ms(n, j);
            assert!(b >= prev, "backoff shrank at n={n} j={j}");
            prev = b;
            let base = 1_000u64 * (1u64 << n.min(10));
            let base = base.min(300_000);
            assert!(4 * b >= 3 * base, "below band at n={n} j={j}");
            assert!(4 * b <= 5 * base, "above band at n={n} j={j}");
        }
    }
}

#[test]
fn backoff_gates_admission_when_nothing_else_known() {
    let now = 4_000_000u64;
    let mut s = RateLimitState::new(now);
    // no reset header, no remaining: the backoff decides
    s.record_rate_limit(now, None, None, None);
    assert!(!s.should_allow_request(now, 1000));
    assert!(!s.should_allow_request(now + 1_999, 1000));
    assert!(s.should_allow_request(now + 2_000, 1000));
}

#[test]
fn known_remaining_budget_decides_admission() {
    let now = 5_000_000u64;
    let mut s = RateLimitState::new(now);
    s.record_rate_limit(now, None, Some(3), None);
    // still limited, reset unknown, but budget left
    assert!(s.should_allow_request(now + 1, J));
    s.record_rate_limit(now + 2, None, Some(0), None);
    assert!(!s.should_allow_request(now + 3, J));
}

#[test]
fn manager_tracks_credentials_independently() {
    let now = 6_000_000u64;
    let mut m = RateLimitManager::new();
    m.record_rate_limit("tok-a", now, Some(60), Some(0), Some(90));
    m.record_success("tok-b", now);
    assert!(!m.should_allow_request("tok-a", now + 1, J));
    assert!(m.should_allow_request("tok-b", now + 1, J));
    assert!(m.should_allow_request("tok-c", now + 1, J));
    let a = m.get_state("tok-a").unwrap();
    assert!(a.is_rate_limited);
    assert_eq!(a.remaining, Some(0));
    assert_eq!(a.limit, Some(90));
    assert_eq!(m.time_until_reset("tok-a", now), Some(60));
    assert_eq!(m.time_until_reset("tok-b", now), None);
}

#[test]
fn manager_delay_tracks_reset_distance() {
    let now = 7_000_000u64;
    let mut m = RateLimitManager::new();
    m.record_rate_limit("tok", now, Some(45), Some(0), None);
    assert_eq!(m.get_recommended_delay("tok", now, J), 45_000);
    assert_eq!(m.get_recommended_delay("tok", now + 20_000, J), 25_000);
}

#[test]
fn headers_parsed_and_reset_converted_to_seconds_from_now() {
    let now_s = 1_700_000_000u64;
    let reset = (now_s + 60).to_string();
    let (r, rem, lim) = extract_rate_limit_headers(
        Some("90"),
        Some("0"),
        Some(reset.as_str()),
        now_s,
    );
    assert_eq!(r, Some(60));
    assert_eq!(rem, Some(0));
    assert_eq!(lim, Some(90));
}

#[test]
fn headers_absent_or_unreadable_yield_nothing_and_past_reset_clamps() {
    let now_s = 1_700_000_000u64;
    let past = (now_s - 10).to_string();
    let (r, rem, lim) = extract_rate_limit_headers(None, Some("abc"), Some(past.as_str()), now_s);
    assert_eq!(r, Some(0));
    assert_eq!(rem, None);
    assert_eq!(lim, None);
    let (r2, _, _) = extract_rate_limit_headers(None, None, Some(""), now_s);
    assert_eq!(r2, None);
}

#[test]
fn rate_limit_message_counts_seconds_minutes_hours() {
    let now = 8_000_000u64;
    let mut s = RateLimitState::new(now);
    s.record_rate_limit(now, Some(45), Some(0), None);
    assert_eq!(
        get_rate_limit_message(&s, now, J),
        "You've reached Notion's API rate limit. Please try again in 45 seconds."
    );
    s.record_rate_limit(now, Some(90), Some(0), None);
    assert_eq!(
        get_rate_limit_message(&s, now, J),
        "You've reached Notion's API rate limit. Please try again in 2 minutes."
    );
    s.record_rate_limit(now, Some(60), Some(0), None);
    assert_eq!(
        get_rate_limit_message(&s, now, J),
        "You've reached Notion's API rate limit. Please try again in 1 minute."
    );
    s.record_rate_limit(now, Some(3_601), Some(0), None);
    assert_eq!(
        get_rate_limit_message(&s, now, J),
        "You've reached Notion's API rate limit. Please try again in 2 hours."
    );
    s.record_rate_limit(now, Some(3_600), Some(0), None);
    assert_eq!(
        get_rate_limit_message(&s, now, J),
        "You've reached Notion's API rate limit. Please try again in 1 hour."
    );
}

#[test]
fn rate_limit_message_without_reset_uses_backoff_estimate() {
    let now = 9_000_000u64;
    let mut s = RateLimitState::new(now);
    s.record_rate_limit(now, None, None, None);
    // one consecutive limit: two seconds of backoff
    assert_eq!(
        get_rate_limit_message(&s, now, J),
        "You've reached Notion's API rate limit. Please wait a few seconds before trying again."
    );
    for _ in 0..6 {
        s.record_rate_limit(now, None, None, None);
    }
    // seven consecutive limits: 128 seconds
    assert_eq!(
        get_rate_limit_message(&s, now, J),
        "You've reached Notion's API rate limit. Please wait a few minutes before trying again."
    );
    for _ in 0..3 {
        s.record_rate_limit(now, None, None, None);
    }
    // at the cap: 300 seconds
    assert_eq!(
        get_rate_limit_message(&s, now, J),
        "You've reached Notion's API rate limit. Please try again later."
    );
}

#[test]
fn info_projection_reports_limits_and_retry() {
    let now_ms = 1_700_000_000_000u64;
    let mut m = RateLimitManager::new();
    m.record_rate_limit("tok", now_ms, Some(60), Some(0), Some(90));
    let info = m.fetch_rate_limit_info("tok", now_ms, J);
    assert!(info.is_limited);
    assert_eq!(info.limit, Some(90));
    assert_eq!(info.remaining, Some(0));
    assert_eq!(info.reset_at, Some(now_ms / 1000 + 60));
    assert_eq!(info.retry_after, Some(60));
}

#[test]
fn info_projection_for_unseen_credential_is_clear() {
    let m = RateLimitManager::new();
    let info = m.fetch_rate_limit_info("tok", 1_000, J);
    assert!(!info.is_limited);
    assert_eq!(info.limit, None);
    assert_eq!(info.remaining, None);
    assert_eq!(info.reset_at, None);
    assert_eq!(info.retry_after, None);
}
