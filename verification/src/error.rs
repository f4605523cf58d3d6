//! The error taxonomy, with user-facing messages, recovery actions and
//! severities chosen by error kind and, for API errors, by status code.

use crate::strutil::{
    contains_substr, dec_string, spec_contains_substr, spec_dec_seq, str_eq,
};
use vstd::arithmetic::div_mod::{
    lemma_fundamental_div_mod, lemma_fundamental_div_mod_converse, lemma_mod_bound,
};
use vstd::prelude::*;
use vstd::string::StringExecFns;

verus! {

/// Everything that can go wrong, as a value.
#[derive(Debug)]
pub enum AppError {
    /// The configuration store could not be read or written.
    ConfigError(String),
    /// The API answered with a status other than success or rate limiting.
    NotionApiError { message: String, status_code: Option<u16>, error_code: Option<String> },
    /// Admission was denied or the API answered with a rate-limit status.
    RateLimitError { message: String, retry_after: Option<u64>, limit: Option<u32>, remaining: Option<u32> },
    /// The global shortcut could not be registered.
    HotkeyError(String),
    /// A file could not be read or written.
    FsError(String),
    /// The request never produced a response.
    NetworkError { message: String, is_offline: bool },
    /// The operation needs a connection and none is available.
    OfflineError(String),
    /// The input was rejected before any network or rate-limit interaction.
    ValidationError(String),
    /// Anything else.
    UnknownError(String),
}

/// What the user can do about an error.
#[derive(Clone, Copy, Debug, PartialEq, Eq, Structural)]
pub enum RecoveryAction {
    /// Try the operation again.
    Retry,
    /// Try again after some time.
    RetryLater,
    /// Open the settings panel.
    OpenSettings,
    /// Check the network connection.
    CheckConnection,
    /// Verify page permissions.
    CheckPageAccess,
    /// Restart the application.
    Restart,
    /// No recovery action available.
    NoAction,
}

/// How serious an error is.
#[derive(Clone, Copy, Debug, PartialEq, Eq, Structural)]
pub enum ErrorSeverity {
    Info,
    Warning,
    Error,
    Critical,
}

/// The label shown on a recovery-action button.
pub open spec fn spec_action_text(a: RecoveryAction) -> Seq<char> {
    match a {
        RecoveryAction::Retry => "Try again"@,
        RecoveryAction::RetryLater => "Try again later"@,
        RecoveryAction::OpenSettings => "Open settings"@,
        RecoveryAction::CheckConnection => "Check your connection"@,
        RecoveryAction::CheckPageAccess => "Check page permissions"@,
        RecoveryAction::Restart => "Restart the application"@,
        RecoveryAction::NoAction => ""@,
    }
}

impl RecoveryAction {
    /// The label shown on the recovery-action button, empty for none.
    pub fn to_text(&self) -> (r: String)
        ensures
            r@ == spec_action_text(*self),
    {
        let s: &str = match self {
            RecoveryAction::Retry => "Try again",
            RecoveryAction::RetryLater => "Try again later",
            RecoveryAction::OpenSettings => "Open settings",
            RecoveryAction::CheckConnection => "Check your connection",
            RecoveryAction::CheckPageAccess => "Check page permissions",
            RecoveryAction::Restart => "Restart the application",
            RecoveryAction::NoAction => "",
        };
        s.to_owned()
    }
}

/// The recovery action for each error kind: configuration, hotkey and
/// client-side API failures point at the settings; rate limits and server
/// failures ask for patience; network trouble asks for a connection check
/// or a retry; validation needs nothing; the unknown needs a restart.
pub open spec fn spec_recovery_action(e: AppError) -> RecoveryAction {
    match e {
        AppError::ConfigError(_) => RecoveryAction::OpenSettings,
        AppError::NotionApiError { status_code, .. } => match status_code {
            Some(401) | Some(403) => RecoveryAction::OpenSettings,
            Some(404) => RecoveryAction::OpenSettings,
            Some(429) => RecoveryAction::RetryLater,
            Some(s) => if 500 <= s <= 599 {
                RecoveryAction::RetryLater
            } else {
                RecoveryAction::OpenSettings
            },
            None => RecoveryAction::OpenSettings,
        },
        AppError::RateLimitError { .. } => RecoveryAction::RetryLater,
        AppError::HotkeyError(_) => RecoveryAction::OpenSettings,
        AppError::FsError(_) => RecoveryAction::Restart,
        AppError::NetworkError { is_offline, .. } => if is_offline {
            RecoveryAction::CheckConnection
        } else {
            RecoveryAction::Retry
        },
        AppError::OfflineError(_) => RecoveryAction::NoAction,
        AppError::ValidationError(_) => RecoveryAction::NoAction,
        AppError::UnknownError(_) => RecoveryAction::Restart,
    }
}

/// The severity of each error kind.
pub open spec fn spec_severity(e: AppError) -> ErrorSeverity {
    match e {
        AppError::ConfigError(_) => ErrorSeverity::Warning,
        AppError::NotionApiError { status_code, .. } => match status_code {
            Some(401) | Some(403) | Some(404) => ErrorSeverity::Error,
            Some(429) => ErrorSeverity::Warning,
            Some(s) => if 500 <= s <= 599 {
                ErrorSeverity::Warning
            } else {
                ErrorSeverity::Error
            },
            None => ErrorSeverity::Error,
        },
        AppError::RateLimitError { .. } => ErrorSeverity::Warning,
        AppError::HotkeyError(_) => ErrorSeverity::Warning,
        AppError::FsError(_) => ErrorSeverity::Error,
        AppError::NetworkError { is_offline, .. } => if is_offline {
            ErrorSeverity::Info
        } else {
            ErrorSeverity::Warning
        },
        AppError::OfflineError(_) => ErrorSeverity::Info,
        AppError::ValidationError(_) => ErrorSeverity::Info,
        AppError::UnknownError(_) => ErrorSeverity::Critical,
    }
}

/// The machine-readable code for each error kind, refined for API errors
/// by the status code, falling back to a server-supplied code when the
/// status is unrecognised.
pub open spec fn spec_error_code(e: AppError) -> Seq<char> {
    match e {
        AppError::ConfigError(_) => "CONFIG_ERROR"@,
        AppError::NotionApiError { status_code, error_code, .. } => match status_code {
            Some(401) => "NOTION_AUTH_ERROR"@,
            Some(403) => "NOTION_PERMISSION_ERROR"@,
            Some(404) => "NOTION_NOT_FOUND"@,
            Some(429) => "NOTION_RATE_LIMIT"@,
            Some(s) => if 500 <= s <= 599 {
                "NOTION_SERVER_ERROR"@
            } else {
                match error_code {
                    Some(c) => c@,
                    None => "NOTION_API_ERROR"@,
                }
            },
            None => "NOTION_API_ERROR"@,
        },
        AppError::RateLimitError { .. } => "RATE_LIMIT_ERROR"@,
        AppError::HotkeyError(_) => "HOTKEY_ERROR"@,
        AppError::FsError(_) => "FILESYSTEM_ERROR"@,
        AppError::NetworkError { is_offline, .. } => if is_offline {
            "OFFLINE_ERROR"@
        } else {
            "NETWORK_ERROR"@
        },
        AppError::OfflineError(_) => "OFFLINE_OPERATION_ERROR"@,
        AppError::ValidationError(_) => "VALIDATION_ERROR"@,
        AppError::UnknownError(_) => "UNKNOWN_ERROR"@,
    }
}

/// The technical message for each error kind: a fixed prefix naming the
/// kind, followed by the carried detail.
pub open spec fn spec_error_message(e: AppError) -> Seq<char> {
    match e {
        AppError::ConfigError(m) => "Configuration error: "@ + m@,
        AppError::NotionApiError { message, .. } => "Notion API error: "@ + message@,
        AppError::RateLimitError { message, .. } => "Rate limit exceeded: "@ + message@,
        AppError::HotkeyError(m) => "Hotkey registration error: "@ + m@,
        AppError::FsError(m) => "Filesystem error: "@ + m@,
        AppError::NetworkError { message, .. } => "Network error: "@ + message@,
        AppError::OfflineError(m) => "Offline operation error: "@ + m@,
        AppError::ValidationError(m) => "Validation error: "@ + m@,
        AppError::UnknownError(m) => "Unknown error: "@ + m@,
    }
}

impl AppError {
    /// The recommended recovery action for this error.
    pub fn recovery_action(&self) -> (r: RecoveryAction)
        ensures
            r == spec_recovery_action(*self),
    {
        match self {
            AppError::ConfigError(_) => RecoveryAction::OpenSettings,
            AppError::NotionApiError { status_code, .. } => match status_code {
                Some(s) => {
                    let s = *s;
                    if s == 401 || s == 403 || s == 404 {
                        RecoveryAction::OpenSettings
                    } else if s == 429 {
                        RecoveryAction::RetryLater
                    } else if 500 <= s && s <= 599 {
                        RecoveryAction::RetryLater
                    } else {
                        RecoveryAction::OpenSettings
                    }
                },
                None => RecoveryAction::OpenSettings,
            },
            AppError::RateLimitError { .. } => RecoveryAction::RetryLater,
            AppError::HotkeyError(_) => RecoveryAction::OpenSettings,
            AppError::FsError(_) => RecoveryAction::Restart,
            AppError::NetworkError { is_offline, .. } => {
                if *is_offline {
                    RecoveryAction::CheckConnection
                } else {
                    RecoveryAction::Retry
                }
            },
            AppError::OfflineError(_) => RecoveryAction::NoAction,
            AppError::ValidationError(_) => RecoveryAction::NoAction,
            AppError::UnknownError(_) => RecoveryAction::Restart,
        }
    }

    /// The severity level of this error.
    pub fn severity(&self) -> (r: ErrorSeverity)
        ensures
            r == spec_severity(*self),
    {
        match self {
            AppError::ConfigError(_) => ErrorSeverity::Warning,
            AppError::NotionApiError { status_code, .. } => match status_code {
                Some(s) => {
                    let s = *s;
                    if s == 401 || s == 403 || s == 404 {
                        ErrorSeverity::Error
                    } else if s == 429 {
                        ErrorSeverity::Warning
                    } else if 500 <= s && s <= 599 {
                        ErrorSeverity::Warning
                    } else {
                        ErrorSeverity::Error
                    }
                },
                None => ErrorSeverity::Error,
            },
            AppError::RateLimitError { .. } => ErrorSeverity::Warning,
            AppError::HotkeyError(_) => ErrorSeverity::Warning,
            AppError::FsError(_) => ErrorSeverity::Error,
            AppError::NetworkError { is_offline, .. } => {
                if *is_offline {
                    ErrorSeverity::Info
                } else {
                    ErrorSeverity::Warning
                }
            },
            AppError::OfflineError(_) => ErrorSeverity::Info,
            AppError::ValidationError(_) => ErrorSeverity::Info,
            AppError::UnknownError(_) => ErrorSeverity::Critical,
        }
    }

    /// The machine-readable code for this error.
    pub fn code(&self) -> (r: String)
        ensures
            r@ == spec_error_code(*self),
    {
        match self {
            AppError::ConfigError(_) => "CONFIG_ERROR".to_owned(),
            AppError::NotionApiError { status_code, error_code, .. } => match status_code {
                Some(s) => {
                    let s = *s;
                    if s == 401 {
                        "NOTION_AUTH_ERROR".to_owned()
                    } else if s == 403 {
                        "NOTION_PERMISSION_ERROR".to_owned()
                    } else if s == 404 {
                        "NOTION_NOT_FOUND".to_owned()
                    } else if s == 429 {
                        "NOTION_RATE_LIMIT".to_owned()
                    } else if 500 <= s && s <= 599 {
                        "NOTION_SERVER_ERROR".to_owned()
                    } else {
                        match error_code {
                            Some(c) => c.clone(),
                            None => "NOTION_API_ERROR".to_owned(),
                        }
                    }
                },
                None => "NOTION_API_ERROR".to_owned(),
            },
            AppError::RateLimitError { .. } => "RATE_LIMIT_ERROR".to_owned(),
            AppError::HotkeyError(_) => "HOTKEY_ERROR".to_owned(),
            AppError::FsError(_) => "FILESYSTEM_ERROR".to_owned(),
            AppError::NetworkError { is_offline, .. } => {
                if *is_offline {
                    "OFFLINE_ERROR".to_owned()
                } else {
                    "NETWORK_ERROR".to_owned()
                }
            },
            AppError::OfflineError(_) => "OFFLINE_OPERATION_ERROR".to_owned(),
            AppError::ValidationError(_) => "VALIDATION_ERROR".to_owned(),
            AppError::UnknownError(_) => "UNKNOWN_ERROR".to_owned(),
        }
    }

    /// The technical message for this error: a prefix naming the kind,
    /// followed by the carried detail.
    pub fn message(&self) -> (r: String)
        ensures
            r@ == spec_error_message(*self),
    {
        let (prefix, detail): (&str, &String) = match self {
            AppError::ConfigError(m) => ("Configuration error: ", m),
            AppError::NotionApiError { message, .. } => ("Notion API error: ", message),
            AppError::RateLimitError { message, .. } => ("Rate limit exceeded: ", message),
            AppError::HotkeyError(m) => ("Hotkey registration error: ", m),
            AppError::FsError(m) => ("Filesystem error: ", m),
            AppError::NetworkError { message, .. } => ("Network error: ", message),
            AppError::OfflineError(m) => ("Offline operation error: ", m),
            AppError::ValidationError(m) => ("Validation error: ", m),
            AppError::UnknownError(m) => ("Unknown error: ", m),
        };
        let mut r = prefix.to_owned();
        r.append(detail.as_str());
        r
    }

    /// A user-friendly message for this error.
    pub fn user_message(&self) -> (r: String)
        ensures
            r@ == spec_user_message(*self),
    {
        match self {
            AppError::ConfigError(msg) => {
                if contains_substr(msg.as_str(), "not found") {
                    "The configuration file could not be found. The app will use default settings.".to_owned()
                } else if contains_substr(msg.as_str(), "permission") {
                    "Cannot access the configuration file due to permission issues.".to_owned()
                } else {
                    "There's an issue with your app configuration.".to_owned()
                }
            },
            AppError::NotionApiError { message, status_code, .. } => match status_code {
                Some(s) => {
                    let s = *s;
                    if s == 401 {
                        "Your Notion API token appears to be invalid or expired. Please update it in Settings.".to_owned()
                    } else if s == 403 {
                        "You don't have permission to access this Notion page. Make sure you've shared it with your integration.".to_owned()
                    } else if s == 404 {
                        "The Notion page could not be found. It may have been deleted or moved.".to_owned()
                    } else if s == 429 {
                        "You've hit Notion's rate limit. Please wait a moment before trying again.".to_owned()
                    } else if 500 <= s && s <= 599 {
                        "Notion's servers are having issues. Please try again later.".to_owned()
                    } else {
                        notion_fallback_message(message.as_str())
                    }
                },
                None => notion_fallback_message(message.as_str()),
            },
            AppError::RateLimitError { message, retry_after, .. } => match retry_after {
                Some(seconds) => retry_message(*seconds),
                None => message.clone(),
            },
            AppError::HotkeyError(msg) => {
                if contains_substr(msg.as_str(), "already registered") {
                    "The keyboard shortcut is already in use by another application.".to_owned()
                } else {
                    "Could not register the keyboard shortcut. It may be in use by another application.".to_owned()
                }
            },
            AppError::FsError(msg) => {
                if contains_substr(msg.as_str(), "permission") {
                    "The app doesn't have permission to access a required file.".to_owned()
                } else if contains_substr(msg.as_str(), "not found") {
                    "A required file could not be found.".to_owned()
                } else {
                    "There was a problem accessing a file on your system.".to_owned()
                }
            },
            AppError::NetworkError { is_offline, .. } => {
                if *is_offline {
                    "You're currently offline. Connect to the internet and try again.".to_owned()
                } else {
                    "There's a problem with your internet connection. Check your connection and try again.".to_owned()
                }
            },
            AppError::OfflineError(_) => {
                "This action can't be completed while offline. Your note will be saved and synced when you're back online.".to_owned()
            },
            AppError::ValidationError(msg) => {
                if contains_substr(msg.as_str(), "empty") {
                    "The note is empty. Please enter some text before saving.".to_owned()
                } else {
                    "There was a problem with the data you entered.".to_owned()
                }
            },
            AppError::UnknownError(_) => {
                "An unexpected error occurred. If this persists, please restart the application.".to_owned()
            },
        }
    }

    /// This error packaged for the presentation layer, with its code, both
    /// messages, recovery action and severity.
    pub fn to_response(&self) -> (r: ErrorResponse)
        ensures
            r.code@ == spec_error_code(*self),
            r.message@ == spec_error_message(*self),
            r.user_message@ == spec_user_message(*self),
            r.details is None,
            r.recovery_action == spec_recovery_action(*self),
            r.severity == spec_severity(*self),
    {
        ErrorResponse {
            code: self.code(),
            message: self.message(),
            user_message: self.user_message(),
            details: None,
            recovery_action: self.recovery_action(),
            severity: self.severity(),
        }
    }
}

/// The fallback user message for an API error with an unrecognised status.
pub open spec fn spec_notion_fallback(m: Seq<char>) -> Seq<char> {
    if spec_contains_substr(m, "token"@) {
        "There's an issue with your Notion API token."@
    } else if spec_contains_substr(m, "page"@) {
        "There's an issue with the selected Notion page."@
    } else {
        "There was a problem communicating with Notion."@
    }
}

fn notion_fallback_message(msg: &str) -> (r: String)
    ensures
        r@ == spec_notion_fallback(msg@),
{
    if contains_substr(msg, "token") {
        "There's an issue with your Notion API token.".to_owned()
    } else if contains_substr(msg, "page") {
        "There's an issue with the selected Notion page.".to_owned()
    } else {
        "There was a problem communicating with Notion.".to_owned()
    }
}

/// The retry advice when the rate-limit error knows a wait: seconds below a
/// minute, else minutes below an hour, else hours, both rounded up.
pub open spec fn spec_retry_message(seconds: u64) -> Seq<char> {
    if seconds < 60 {
        "You've reached Notion's rate limit. Please try again in "@ + spec_dec_seq(seconds as int)
            + " seconds."@
    } else if seconds < 3600 {
        let minutes = (seconds + 59) / 60;
        "You've reached Notion's rate limit. Please try again in "@ + spec_dec_seq(minutes) + (
        if minutes == 1 {
            " minute."@
        } else {
            " minutes."@
        })
    } else {
        let hours = (seconds + 3599) / 3600;
        "You've reached Notion's rate limit. Please try again in "@ + spec_dec_seq(hours) + (
        if hours == 1 {
            " hour."@
        } else {
            " hours."@
        })
    }
}

/// Rounding up a non-negative division can be computed, without the sum
/// that could exceed the machine's range, from the quotient and remainder.
proof fn lemma_ceil_div(a: int, d: int)
    requires
        a >= 0,
        1 < d,
    ensures
        (a + d - 1) / d == (if a % d == 0 {
            a / d
        } else {
            a / d + 1
        }),
{
    lemma_fundamental_div_mod(a, d);
    lemma_mod_bound(a, d);
    let q = a / d;
    let r = a % d;
    assert(q * d == d * q) by (nonlinear_arith);
    assert((q + 1) * d == q * d + d) by (nonlinear_arith);
    if r == 0 {
        lemma_fundamental_div_mod_converse(a + d - 1, d, q, d - 1);
    } else {
        lemma_fundamental_div_mod_converse(a + d - 1, d, q + 1, r - 1);
    }
}

fn retry_message(seconds: u64) -> (r: String)
    ensures
        r@ == spec_retry_message(seconds),
{
    let mut r = "You've reached Notion's rate limit. Please try again in ".to_owned();
    if seconds < 60 {
        r.append(dec_string(seconds).as_str());
        r.append(" seconds.");
    } else if seconds < 3600 {
        let minutes = (seconds + 59) / 60;
        r.append(dec_string(minutes).as_str());
        if minutes == 1 {
            r.append(" minute.");
        } else {
            r.append(" minutes.");
        }
    } else {
        let q = seconds / 3600;
        let rem = seconds % 3600;
        proof {
            lemma_ceil_div(seconds as int, 3600);
        }
        let hours = if rem == 0 {
            q
        } else {
            q + 1
        };
        r.append(dec_string(hours).as_str());
        if hours == 1 {
            r.append(" hour.");
        } else {
            r.append(" hours.");
        }
    }
    proof {
        assert(r@ =~= spec_retry_message(seconds));
    }
    r
}

/// A user-friendly account of each error: what happened, in words chosen
/// by the kind, the carried detail, and for API errors the status code.
pub open spec fn spec_user_message(e: AppError) -> Seq<char> {
    match e {
        AppError::ConfigError(m) => if spec_contains_substr(m@, "not found"@) {
            "The configuration file could not be found. The app will use default settings."@
        } else if spec_contains_substr(m@, "permission"@) {
            "Cannot access the configuration file due to permission issues."@
        } else {
            "There's an issue with your app configuration."@
        },
        AppError::NotionApiError { message, status_code, .. } => match status_code {
            Some(401) => "Your Notion API token appears to be invalid or expired. Please update it in Settings."@,
            Some(403) => "You don't have permission to access this Notion page. Make sure you've shared it with your integration."@,
            Some(404) => "The Notion page could not be found. It may have been deleted or moved."@,
            Some(429) => "You've hit Notion's rate limit. Please wait a moment before trying again."@,
            Some(s) => if 500 <= s <= 599 {
                "Notion's servers are having issues. Please try again later."@
            } else {
                spec_notion_fallback(message@)
            },
            None => spec_notion_fallback(message@),
        },
        AppError::RateLimitError { message, retry_after, .. } => match retry_after {
            Some(seconds) => spec_retry_message(seconds),
            None => message@,
        },
        AppError::HotkeyError(m) => if spec_contains_substr(m@, "already registered"@) {
            "The keyboard shortcut is already in use by another application."@
        } else {
            "Could not register the keyboard shortcut. It may be in use by another application."@
        },
        AppError::FsError(m) => if spec_contains_substr(m@, "permission"@) {
            "The app doesn't have permission to access a required file."@
        } else if spec_contains_substr(m@, "not found"@) {
            "A required file could not be found."@
        } else {
            "There was a problem accessing a file on your system."@
        },
        AppError::NetworkError { is_offline, .. } => if is_offline {
            "You're currently offline. Connect to the internet and try again."@
        } else {
            "There's a problem with your internet connection. Check your connection and try again."@
        },
        AppError::OfflineError(_) => "This action can't be completed while offline. Your note will be saved and synced when you're back online."@,
        AppError::ValidationError(m) => if spec_contains_substr(m@, "empty"@) {
            "The note is empty. Please enter some text before saving."@
        } else {
            "There was a problem with the data you entered."@
        },
        AppError::UnknownError(_) => "An unexpected error occurred. If this persists, please restart the application."@,
    }
}

/// An error packaged for the presentation layer.
pub struct ErrorResponse {
    /// Machine-readable code.
    pub code: String,
    /// Technical message.
    pub message: String,
    /// User-friendly message.
    pub user_message: String,
    /// Further detail, when any is available.
    pub details: Option<String>,
    /// What the user can do about it.
    pub recovery_action: RecoveryAction,
    /// How serious it is.
    pub severity: ErrorSeverity,
}

/// Whether the runtime believes a network connection exists. There is no
/// browser-style reachability signal here, so the answer is always yes.
pub fn navigator_online() -> (r: bool)
    ensures
        r,
{
    true
}

/// The status code a wrapped error's text betrays, when it names one.
pub open spec fn spec_status_from_message(m: Seq<char>) -> Option<u16> {
    if spec_contains_substr(m, "status code: 401"@) {
        Some(401u16)
    } else if spec_contains_substr(m, "status code: 403"@) {
        Some(403u16)
    } else if spec_contains_substr(m, "status code: 404"@) {
        Some(404u16)
    } else if spec_contains_substr(m, "status code: 429"@) {
        Some(429u16)
    } else if spec_contains_substr(m, "status code: 5"@) {
        Some(500u16)
    } else {
        None
    }
}

/// Wrap a lower-level error's text as the `AppError` the caller's context
/// calls for: `kind` picks the variant, and an API error's status code is
/// recovered from the text when it names one.
pub fn map_error(message: String, kind: &str) -> (r: AppError)
    ensures
        ({
            if kind@ == "config"@ {
                r matches AppError::ConfigError(m) && m@ == message@
            } else if kind@ == "notion"@ {
                r matches AppError::NotionApiError { message: m, status_code, error_code }
                    && m@ == message@ && status_code == spec_status_from_message(message@)
                    && error_code is None
            } else if kind@ == "hotkey"@ {
                r matches AppError::HotkeyError(m) && m@ == message@
            } else if kind@ == "fs"@ {
                r matches AppError::FsError(m) && m@ == message@
            } else if kind@ == "network"@ {
                r matches AppError::NetworkError { message: m, is_offline } && m@ == message@
                    && !is_offline
            } else if kind@ == "validation"@ {
                r matches AppError::ValidationError(m) && m@ == message@
            } else if kind@ == "offline"@ {
                r matches AppError::OfflineError(m) && m@ == message@
            } else {
                r matches AppError::UnknownError(m) && m@ == message@
            }
        }),
{
    if str_eq(kind, "config") {
        AppError::ConfigError(message)
    } else if str_eq(kind, "notion") {
        let status_code: Option<u16> = if contains_substr(message.as_str(), "status code: 401") {
            Some(401)
        } else if contains_substr(message.as_str(), "status code: 403") {
            Some(403)
        } else if contains_substr(message.as_str(), "status code: 404") {
            Some(404)
        } else if contains_substr(message.as_str(), "status code: 429") {
            Some(429)
        } else if contains_substr(message.as_str(), "status code: 5") {
            Some(500)
        } else {
            None
        };
        AppError::NotionApiError { message, status_code, error_code: None }
    } else if str_eq(kind, "hotkey") {
        AppError::HotkeyError(message)
    } else if str_eq(kind, "fs") {
        AppError::FsError(message)
    } else if str_eq(kind, "network") {
        let is_offline = !navigator_online();
        AppError::NetworkError { message, is_offline }
    } else if str_eq(kind, "validation") {
        AppError::ValidationError(message)
    } else if str_eq(kind, "offline") {
        AppError::OfflineError(message)
    } else {
        AppError::UnknownError(message)
    }
}

} // verus!
