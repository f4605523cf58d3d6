use notion_quick_notes::clock::{jitter_permille, local_clock_parts, now_millis};
use notion_quick_notes::config::{init_app_state, AppConfig};
use notion_quick_notes::strutil::{contains_substr, dec_string, parse_u32, parse_u64, str_eq};

#[test]
fn str_eq_compares_by_characters() {
    assert!(str_eq("", ""));
    assert!(str_eq("abc", "abc"));
    assert!(!str_eq("abc", "abd"));
    assert!(!str_eq("abc", "abcd"));
}

#[test]
fn parse_accepts_digits_only() {
    assert_eq!(parse_u64("0"), Some(0));
    assert_eq!(parse_u64("123"), Some(123));
    assert_eq!(parse_u64(""), None);
    assert_eq!(parse_u64("12a"), None);
    assert_eq!(parse_u64("-5"), None);
    assert_eq!(parse_u64(" 5"), None);
}

#[test]
fn parse_handles_type_bounds() {
    assert_eq!(parse_u64("18446744073709551615"), Some(u64::MAX));
    assert_eq!(parse_u64("18446744073709551616"), None);
    assert_eq!(parse_u32("4294967295"), Some(u32::MAX));
    assert_eq!(parse_u32("4294967296"), None);
}

#[test]
fn dec_string_renders_decimal() {
    assert_eq!(dec_string(0), "0");
    assert_eq!(dec_string(7), "7");
    assert_eq!(dec_string(42), "42");
    assert_eq!(dec_string(300000), "300000");
    assert_eq!(dec_string(u64::MAX), "18446744073709551615");
}

#[test]
fn dec_string_round_trips_through_parse() {
    for n in [0u64, 1, 9, 10, 99, 100, 12345, u64::MAX] {
        assert_eq!(parse_u64(dec_string(n).as_str()), Some(n));
    }
}

#[test]
fn substring_search_finds_patterns() {
    assert!(contains_substr("status code: 404 returned", "status code: 404"));
    assert!(contains_substr("anything", ""));
    assert!(contains_substr("abc", "c"));
    assert!(!contains_substr("abc", "abcd"));
    assert!(!contains_substr("status code: 403", "status code: 404"));
}

#[test]
fn clock_reading_is_well_formed() {
    let c = local_clock_parts();
    assert!((1..=12).contains(&c.month));
    assert!((1..=31).contains(&c.day));
    assert!(c.hour <= 23);
    assert!(c.minute <= 59);
    assert!(c.second <= 59);
}

#[test]
fn wall_clock_is_past_the_epoch() {
    let a = now_millis();
    let b = now_millis();
    assert!(a > 0);
    assert!(b >= a);
}

#[test]
fn jitter_draws_stay_in_band() {
    for _ in 0..200 {
        let j = jitter_permille();
        assert!((750..1250).contains(&j));
    }
}

#[test]
fn default_config_is_unconfigured() {
    let c = AppConfig::default();
    assert!(!c.is_configured());
    let mut c2 = AppConfig::default();
    c2.notion_api_token = "secret".to_string();
    assert!(!c2.is_configured());
    c2.set_selected_page("page-1".to_string(), "Inbox".to_string());
    assert!(c2.is_configured());
    assert_eq!(c2.selected_page_title, "Inbox");
    let state = init_app_state(c2);
    assert_eq!(state.config.selected_page_id, "page-1");
}
