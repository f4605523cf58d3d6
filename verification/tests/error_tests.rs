use notion_quick_notes::error::{
    map_error, navigator_online, AppError, ErrorSeverity, RecoveryAction,
};

#[test]
fn config_error_user_message_by_detail() {
    let e = AppError::ConfigError("file not found".to_string());
    assert_eq!(
        e.user_message(),
        "The configuration file could not be found. The app will use default settings."
    );
    let e = AppError::ConfigError("permission denied".to_string());
    assert_eq!(
        e.user_message(),
        "Cannot access the configuration file due to permission issues."
    );
    let e = AppError::ConfigError("corrupt".to_string());
    assert_eq!(e.user_message(), "There's an issue with your app configuration.");
}

#[test]
fn api_error_user_message_by_status() {
    let mk = |status: Option<u16>| AppError::NotionApiError {
        message: "boom".to_string(),
        status_code: status,
        error_code: None,
    };
    assert!(mk(Some(401)).user_message().contains("invalid or expired"));
    assert!(mk(Some(403)).user_message().contains("don't have permission"));
    assert!(mk(Some(404)).user_message().contains("could not be found"));
    assert!(mk(Some(429)).user_message().contains("rate limit"));
    assert!(mk(Some(503)).user_message().contains("servers are having issues"));
    assert_eq!(
        mk(None).user_message(),
        "There was a problem communicating with Notion."
    );
    let e = AppError::NotionApiError {
        message: "bad token".to_string(),
        status_code: Some(418),
        error_code: None,
    };
    assert_eq!(e.user_message(), "There's an issue with your Notion API token.");
    let e = AppError::NotionApiError {
        message: "missing page".to_string(),
        status_code: None,
        error_code: None,
    };
    assert_eq!(e.user_message(), "There's an issue with the selected Notion page.");
}

#[test]
fn rate_limit_user_message_rounds_up() {
    let mk = |secs: Option<u64>| AppError::RateLimitError {
        message: "slow down".to_string(),
        retry_after: secs,
        limit: None,
        remaining: None,
    };
    assert_eq!(
        mk(Some(30)).user_message(),
        "You've reached Notion's rate limit. Please try again in 30 seconds."
    );
    assert_eq!(
        mk(Some(61)).user_message(),
        "You've reached Notion's rate limit. Please try again in 2 minutes."
    );
    assert_eq!(
        mk(Some(60)).user_message(),
        "You've reached Notion's rate limit. Please try again in 1 minute."
    );
    assert_eq!(
        mk(Some(7200)).user_message(),
        "You've reached Notion's rate limit. Please try again in 2 hours."
    );
    assert_eq!(mk(None).user_message(), "slow down");
}

#[test]
fn validation_and_other_user_messages() {
    let e = AppError::ValidationError("note is empty".to_string());
    assert_eq!(
        e.user_message(),
        "The note is empty. Please enter some text before saving."
    );
    let e = AppError::ValidationError("too long".to_string());
    assert_eq!(e.user_message(), "There was a problem with the data you entered.");
    let e = AppError::HotkeyError("already registered".to_string());
    assert_eq!(
        e.user_message(),
        "The keyboard shortcut is already in use by another application."
    );
    let e = AppError::NetworkError { message: "timeout".to_string(), is_offline: true };
    assert_eq!(
        e.user_message(),
        "You're currently offline. Connect to the internet and try again."
    );
    let e = AppError::FsError("not found".to_string());
    assert_eq!(e.user_message(), "A required file could not be found.");
}

#[test]
fn recovery_action_by_kind_and_status() {
    let api = |status: Option<u16>| AppError::NotionApiError {
        message: String::new(),
        status_code: status,
        error_code: None,
    };
    assert_eq!(api(Some(401)).recovery_action(), RecoveryAction::OpenSettings);
    assert_eq!(api(Some(403)).recovery_action(), RecoveryAction::OpenSettings);
    assert_eq!(api(Some(404)).recovery_action(), RecoveryAction::OpenSettings);
    assert_eq!(api(Some(429)).recovery_action(), RecoveryAction::RetryLater);
    assert_eq!(api(Some(500)).recovery_action(), RecoveryAction::RetryLater);
    assert_eq!(
        AppError::RateLimitError {
            message: String::new(),
            retry_after: None,
            limit: None,
            remaining: None
        }
        .recovery_action(),
        RecoveryAction::RetryLater
    );
    assert_eq!(
        AppError::NetworkError { message: String::new(), is_offline: true }.recovery_action(),
        RecoveryAction::CheckConnection
    );
    assert_eq!(
        AppError::NetworkError { message: String::new(), is_offline: false }.recovery_action(),
        RecoveryAction::Retry
    );
    assert_eq!(
        AppError::ValidationError(String::new()).recovery_action(),
        RecoveryAction::NoAction
    );
    assert_eq!(
        AppError::UnknownError(String::new()).recovery_action(),
        RecoveryAction::Restart
    );
}

#[test]
fn severity_by_kind_and_status() {
    let api = |status: Option<u16>| AppError::NotionApiError {
        message: String::new(),
        status_code: status,
        error_code: None,
    };
    assert_eq!(api(Some(401)).severity(), ErrorSeverity::Error);
    assert_eq!(api(Some(429)).severity(), ErrorSeverity::Warning);
    assert_eq!(api(Some(502)).severity(), ErrorSeverity::Warning);
    assert_eq!(
        AppError::ValidationError(String::new()).severity(),
        ErrorSeverity::Info
    );
    assert_eq!(
        AppError::UnknownError(String::new()).severity(),
        ErrorSeverity::Critical
    );
    assert_eq!(AppError::FsError(String::new()).severity(), ErrorSeverity::Error);
}

#[test]
fn error_codes_follow_status() {
    let api = |status: Option<u16>, code: Option<&str>| AppError::NotionApiError {
        message: String::new(),
        status_code: status,
        error_code: code.map(|c| c.to_string()),
    };
    assert_eq!(api(Some(401), None).code(), "NOTION_AUTH_ERROR");
    assert_eq!(api(Some(403), None).code(), "NOTION_PERMISSION_ERROR");
    assert_eq!(api(Some(404), None).code(), "NOTION_NOT_FOUND");
    assert_eq!(api(Some(429), None).code(), "NOTION_RATE_LIMIT");
    assert_eq!(api(Some(500), None).code(), "NOTION_SERVER_ERROR");
    assert_eq!(api(Some(418), Some("teapot")).code(), "teapot");
    assert_eq!(api(Some(418), None).code(), "NOTION_API_ERROR");
    assert_eq!(api(None, Some("ignored")).code(), "NOTION_API_ERROR");
    assert_eq!(AppError::ConfigError(String::new()).code(), "CONFIG_ERROR");
    assert_eq!(
        AppError::NetworkError { message: String::new(), is_offline: true }.code(),
        "OFFLINE_ERROR"
    );
}

#[test]
fn response_packs_all_projections() {
    let e = AppError::RateLimitError {
        message: "hit the limit".to_string(),
        retry_after: Some(30),
        limit: Some(90),
        remaining: Some(0),
    };
    let r = e.to_response();
    assert_eq!(r.code, "RATE_LIMIT_ERROR");
    assert_eq!(r.message, "Rate limit exceeded: hit the limit");
    assert_eq!(
        r.user_message,
        "You've reached Notion's rate limit. Please try again in 30 seconds."
    );
    assert!(r.details.is_none());
    assert_eq!(r.recovery_action, RecoveryAction::RetryLater);
    assert_eq!(r.severity, ErrorSeverity::Warning);
}

#[test]
fn map_error_picks_variant_by_kind() {
    match map_error("oops".to_string(), "config") {
        AppError::ConfigError(m) => assert_eq!(m, "oops"),
        other => panic!("wrong variant: {other:?}"),
    }
    match map_error("request failed with status code: 429".to_string(), "notion") {
        AppError::NotionApiError { status_code, error_code, .. } => {
            assert_eq!(status_code, Some(429));
            assert_eq!(error_code, None);
        },
        other => panic!("wrong variant: {other:?}"),
    }
    match map_error("server said status code: 503".to_string(), "notion") {
        AppError::NotionApiError { status_code, .. } => assert_eq!(status_code, Some(500)),
        other => panic!("wrong variant: {other:?}"),
    }
    match map_error("no code here".to_string(), "notion") {
        AppError::NotionApiError { status_code, .. } => assert_eq!(status_code, None),
        other => panic!("wrong variant: {other:?}"),
    }
    match map_error("x".to_string(), "network") {
        AppError::NetworkError { is_offline, .. } => assert!(!is_offline),
        other => panic!("wrong variant: {other:?}"),
    }
    match map_error("x".to_string(), "hotkey") {
        AppError::HotkeyError(_) => {},
        other => panic!("wrong variant: {other:?}"),
    }
    match map_error("x".to_string(), "fs") {
        AppError::FsError(_) => {},
        other => panic!("wrong variant: {other:?}"),
    }
    match map_error("x".to_string(), "validation") {
        AppError::ValidationError(_) => {},
        other => panic!("wrong variant: {other:?}"),
    }
    match map_error("x".to_string(), "offline") {
        AppError::OfflineError(_) => {},
        other => panic!("wrong variant: {other:?}"),
    }
    match map_error("x".to_string(), "something else") {
        AppError::UnknownError(m) => assert_eq!(m, "x"),
        other => panic!("wrong variant: {other:?}"),
    }
}

#[test]
fn offline_messages_are_fixed() {
    let e = AppError::OfflineError("queued".to_string());
    assert_eq!(
        e.user_message(),
        "This action can't be completed while offline. Your note will be saved and synced when you're back online."
    );
    assert_eq!(e.recovery_action(), RecoveryAction::NoAction);
    assert_eq!(e.severity(), ErrorSeverity::Info);
    assert_eq!(e.code(), "OFFLINE_OPERATION_ERROR");
}

#[test]
fn technical_messages_name_the_kind() {
    assert_eq!(
        AppError::ConfigError("no file".to_string()).message(),
        "Configuration error: no file"
    );
    assert_eq!(
        AppError::ValidationError("note is empty".to_string()).message(),
        "Validation error: note is empty"
    );
    assert_eq!(
        AppError::UnknownError("?".to_string()).message(),
        "Unknown error: ?"
    );
}

#[test]
fn recovery_action_labels() {
    assert_eq!(RecoveryAction::Retry.to_text(), "Try again");
    assert_eq!(RecoveryAction::RetryLater.to_text(), "Try again later");
    assert_eq!(RecoveryAction::OpenSettings.to_text(), "Open settings");
    assert_eq!(RecoveryAction::NoAction.to_text(), "");
}

#[test]
fn runtime_reports_online() {
    assert!(navigator_online());
}
