use notion_quick_notes::cache::ResponseCache;
use notion_quick_notes::config::AppConfig;
use notion_quick_notes::error::AppError;
use notion_quick_notes::notion::{
    append_preflight, apply_credential_change, build_note_text, check_admission, extract_pages,
    extract_title, format_timestamp, handle_append_response, handle_search_response,
    handle_verify_response, search_preflight, validate_note_request, AppendPlan, ClockParts,
    NotionPage, PageProperty, RawPage, ResponseHeaders, RichTextFragment, SearchPlan,
};
use notion_quick_notes::rate_limit::RateLimitManager;

const J: u64 = 1000;

fn no_headers() -> ResponseHeaders<'static> {
    ResponseHeaders { limit: None, remaining: None, reset: None }
}

fn page_with_property_title(id: &str, title: &str) -> RawPage {
    RawPage {
        id: id.to_string(),
        url: format!("https://example.org/{id}"),
        icon_emoji: None,
        properties: vec![PageProperty {
            title: Some(vec![RichTextFragment { content: Some(title.to_string()) }]),
        }],
        parent_page_title: None,
    }
}

fn fixed_clock() -> ClockParts {
    ClockParts { year: 2024, month: 3, day: 5, hour: 14, minute: 3, second: 9 }
}

#[test]
fn timestamp_has_fixed_two_digit_layout() {
    assert_eq!(format_timestamp(&fixed_clock()), "[05 Mar 24, 14:03:09]");
}

#[test]
fn note_text_starts_with_timestamp_literal() {
    let s = build_note_text(&fixed_clock(), "Buy milk");
    assert_eq!(s, "[05 Mar 24, 14:03:09] Buy milk");
    assert!(s.starts_with("[05 Mar 24, 14:03:09]"));
}

#[test]
fn timestamp_pads_and_wraps_year() {
    let c = ClockParts { year: 2107, month: 12, day: 31, hour: 0, minute: 0, second: 0 };
    assert_eq!(format_timestamp(&c), "[31 Dec 07, 00:00:00]");
}

#[test]
fn title_comes_from_first_property_with_title() {
    let p = RawPage {
        id: "a".to_string(),
        url: "u".to_string(),
        icon_emoji: None,
        properties: vec![
            PageProperty { title: None },
            PageProperty { title: Some(vec![]) },
            PageProperty {
                title: Some(vec![RichTextFragment { content: None }]),
            },
            PageProperty {
                title: Some(vec![
                    RichTextFragment { content: Some("Found".to_string()) },
                    RichTextFragment { content: Some("Ignored".to_string()) },
                ]),
            },
        ],
        parent_page_title: Some("Parent".to_string()),
    };
    assert_eq!(extract_title(&p), Some("Found".to_string()));
}

#[test]
fn title_falls_back_to_parent_then_drops() {
    let mut p = RawPage {
        id: "a".to_string(),
        url: "u".to_string(),
        icon_emoji: None,
        properties: vec![PageProperty { title: Some(vec![]) }],
        parent_page_title: Some("Parent".to_string()),
    };
    assert_eq!(extract_title(&p), Some("Parent".to_string()));
    p.parent_page_title = None;
    assert_eq!(extract_title(&p), None);
}

#[test]
fn extraction_keeps_order_and_drops_untitled() {
    let raw = vec![
        page_with_property_title("one", "First"),
        RawPage {
            id: "two".to_string(),
            url: "u2".to_string(),
            icon_emoji: Some("✨".to_string()),
            properties: vec![],
            parent_page_title: None,
        },
        page_with_property_title("three", "Third"),
    ];
    let pages = extract_pages(&raw);
    assert_eq!(pages.len(), 2);
    assert_eq!(pages[0].id, "one");
    assert_eq!(pages[0].title, "First");
    assert_eq!(pages[1].id, "three");
    assert_eq!(pages[1].title, "Third");
}

#[test]
fn extraction_carries_icon_and_url() {
    let mut raw = page_with_property_title("p", "T");
    raw.icon_emoji = Some("🙂".to_string());
    let pages = extract_pages(&vec![raw]);
    assert_eq!(pages[0].icon, Some("🙂".to_string()));
    assert_eq!(pages[0].url, "https://example.org/p");
}

#[test]
fn two_listing_calls_within_ttl_fetch_once() {
    let now = 1_000_000u64;
    let mut m = RateLimitManager::new();
    let mut cache: ResponseCache<Vec<NotionPage>> = ResponseCache::new();
    let mut fetches = 0u32;

    // first call: cache empty, admission open
    let first = match search_preflight(&cache, &m, "tok", now, J) {
        SearchPlan::Fetch => {
            fetches += 1;
            let raw = vec![page_with_property_title("one", "First")];
            handle_search_response(&mut m, &mut cache, "tok", 200, no_headers(), Some(raw), now, J)
                .unwrap()
        },
        _ => panic!("first call must fetch"),
    };

    // second call, within the time-to-live, no credential change
    let second = match search_preflight(&cache, &m, "tok", now + 200_000, J) {
        SearchPlan::Cached(v) => v,
        _ => panic!("second call must be served from cache"),
    };
    assert_eq!(fetches, 1);
    assert_eq!(second.len(), first.len());
    assert_eq!(second[0].id, first[0].id);
    assert_eq!(second[0].title, first[0].title);
    assert_eq!(second[0].url, first[0].url);
}

#[test]
fn rate_limited_response_blocks_subsequent_admission() {
    let now_ms = 1_700_000_000_000u64;
    let now_s = now_ms / 1000;
    let mut m = RateLimitManager::new();
    let reset = (now_s + 60).to_string();
    let headers = ResponseHeaders {
        limit: Some("90"),
        remaining: Some("0"),
        reset: Some(reset.as_str()),
    };
    let r = handle_verify_response(&mut m, "tok", 429, headers, now_ms, J);
    match r {
        Err(AppError::RateLimitError { retry_after, remaining, limit, .. }) => {
            assert_eq!(retry_after, Some(60));
            assert_eq!(remaining, Some(0));
            assert_eq!(limit, Some(90));
        },
        other => panic!("expected a rate-limited failure, got {other:?}"),
    }
    assert!(!m.should_allow_request("tok", now_ms + 1, J));
    assert!(check_admission(&m, "tok", now_ms + 1, J).is_some());
}

#[test]
fn verify_success_and_plain_failure() {
    let now = 2_000_000u64;
    let mut m = RateLimitManager::new();
    assert_eq!(
        handle_verify_response(&mut m, "tok", 200, no_headers(), now, J).unwrap(),
        true
    );
    match handle_verify_response(&mut m, "tok", 404, no_headers(), now, J) {
        Err(AppError::NotionApiError { message, status_code, error_code }) => {
            assert_eq!(message, "API error: 404");
            assert_eq!(status_code, Some(404));
            assert_eq!(error_code, None);
        },
        other => panic!("expected an API failure, got {other:?}"),
    }
    // a non-rate-limit failure still clears the backoff state
    assert!(m.should_allow_request("tok", now + 1, J));
}

#[test]
fn malformed_listing_body_is_an_api_error_not_a_crash() {
    let now = 3_000_000u64;
    let mut m = RateLimitManager::new();
    let mut cache: ResponseCache<Vec<NotionPage>> = ResponseCache::new();
    match handle_search_response(&mut m, &mut cache, "tok", 200, no_headers(), None, now, J) {
        Err(AppError::NotionApiError { message, status_code, .. }) => {
            assert_eq!(message, "Invalid response format");
            assert_eq!(status_code, Some(200));
        },
        other => panic!("expected an API failure, got {other:?}"),
    }
    // nothing was cached
    assert!(cache.get(now).is_none());
}

#[test]
fn empty_inputs_are_rejected_before_any_interaction() {
    let now = 4_000_000u64;
    let m = RateLimitManager::new();
    match append_preflight(&m, "tok", "page-1", "", &fixed_clock(), now, J) {
        AppendPlan::Invalid(AppError::ValidationError(msg)) => {
            assert_eq!(msg, "Note text is empty");
        },
        other => panic!("expected a validation failure, got {other:?}"),
    }
    match append_preflight(&m, "tok", "", "Buy milk", &fixed_clock(), now, J) {
        AppendPlan::Invalid(AppError::ValidationError(msg)) => {
            assert_eq!(msg, "Page id is empty");
        },
        other => panic!("expected a validation failure, got {other:?}"),
    }
    // no rate-limit state was created or touched
    assert!(m.get_state("tok").is_none());
    assert!(validate_note_request("p", "text").is_none());
}

#[test]
fn append_preflight_builds_timestamped_paragraph() {
    let now = 5_000_000u64;
    let m = RateLimitManager::new();
    match append_preflight(&m, "tok", "page-1", "Buy milk", &fixed_clock(), now, J) {
        AppendPlan::Send(s) => assert_eq!(s, "[05 Mar 24, 14:03:09] Buy milk"),
        other => panic!("expected a send plan, got {other:?}"),
    }
}

#[test]
fn append_response_carries_body_error_detail() {
    let now = 6_000_000u64;
    let mut m = RateLimitManager::new();
    assert!(handle_append_response(&mut m, "tok", 200, no_headers(), None, None, now, J).is_ok());
    match handle_append_response(
        &mut m,
        "tok",
        403,
        no_headers(),
        Some("page is not shared".to_string()),
        Some("restricted".to_string()),
        now,
        J,
    ) {
        Err(AppError::NotionApiError { message, status_code, error_code }) => {
            assert_eq!(message, "page is not shared");
            assert_eq!(status_code, Some(403));
            assert_eq!(error_code, Some("restricted".to_string()));
        },
        other => panic!("expected an API failure, got {other:?}"),
    }
    match handle_append_response(&mut m, "tok", 500, no_headers(), None, None, now, J) {
        Err(AppError::NotionApiError { message, .. }) => {
            assert_eq!(message, "Unknown error");
        },
        other => panic!("expected an API failure, got {other:?}"),
    }
}

#[test]
fn credential_change_clears_cache_and_next_listing_misses() {
    let now = 7_000_000u64;
    let m = RateLimitManager::new();
    let mut cache: ResponseCache<Vec<NotionPage>> = ResponseCache::new();
    let mut config = AppConfig::default();
    cache.put(
        extract_pages(&vec![page_with_property_title("one", "First")]),
        now,
    );
    assert!(cache.get(now + 1).is_some());

    apply_credential_change(&mut config, &mut cache, "new-secret".to_string());
    assert_eq!(config.notion_api_token, "new-secret");
    assert!(cache.get(now + 2).is_none());
    match search_preflight(&cache, &m, "new-secret", now + 2, J) {
        SearchPlan::Fetch => {},
        _ => panic!("the listing after a credential change must fetch"),
    }
}

#[test]
fn plan_enum_matches_admission_state() {
    let now = 8_000_000u64;
    let mut m = RateLimitManager::new();
    let cache: ResponseCache<Vec<NotionPage>> = ResponseCache::new();
    m.record_rate_limit("tok", now, Some(60), Some(0), None);
    match search_preflight(&cache, &m, "tok", now + 1, J) {
        SearchPlan::Denied(AppError::RateLimitError { .. }) => {},
        other => panic!("expected denial, got {other:?}"),
    }
    match append_preflight(&m, "tok", "page", "note", &fixed_clock(), now + 1, J) {
        AppendPlan::Denied(AppError::RateLimitError { .. }) => {},
        other => panic!("expected denial, got {other:?}"),
    }
}
