//! Error categories, messages and context helpers.

use nbmon::error::{handle_linux_error, handle_recoverable_error, AppError, ErrorContext};

#[test]
fn messages_carry_the_category_name() {
    assert_eq!(
        AppError::NetworkInterface("eth0 gone".to_string()).message(),
        "Network interface error: eth0 gone"
    );
    assert_eq!(
        AppError::Terminal("raw mode".to_string()).message(),
        "Terminal error: raw mode"
    );
    assert_eq!(
        AppError::Configuration("bad cursor".to_string()).message(),
        "Configuration error: bad cursor"
    );
    assert_eq!(
        AppError::SystemApi("ioctl".to_string()).message(),
        "System API error: ioctl"
    );
    assert_eq!(
        AppError::Permission("denied".to_string()).message(),
        "Permission error: denied"
    );
}

#[test]
fn clone_preserves_category_and_message() {
    let original = AppError::Permission("denied".to_string());
    let copy = original.clone();
    assert_eq!(copy, original);
}

#[test]
fn linux_error_names_operation_and_errno() {
    let e = handle_linux_error(13, "open /proc/net/dev");
    assert_eq!(
        e.message_payload(),
        "Linux system error during open /proc/net/dev (errno: 13)"
    );
    assert_eq!(
        e.message(),
        "System API error: Linux system error during open /proc/net/dev (errno: 13)"
    );
    let negative = handle_linux_error(-2, "read");
    assert_eq!(
        negative.message_payload(),
        "Linux system error during read (errno: -2)"
    );
}

#[test]
fn recoverable_errors_fall_back_to_the_default() {
    let ok: Result<u32, AppError> = Ok(5);
    assert_eq!(handle_recoverable_error(ok, 9, "reading counters"), 5);
    let err: Result<u32, AppError> = Err(AppError::SystemApi("boom".to_string()));
    assert_eq!(handle_recoverable_error(err, 9, "reading counters"), 9);
}

#[test]
fn user_context_prefixes_the_message() {
    let err: Result<u32, AppError> = Err(AppError::SystemApi("boom".to_string()));
    let wrapped = err.user_context("collecting stats").unwrap_err();
    assert_eq!(wrapped.message_payload(), "! collecting stats: boom");
    assert_eq!(
        wrapped.message(),
        "System API error: ! collecting stats: boom"
    );
    let ok: Result<u32, AppError> = Ok(3);
    assert_eq!(ok.user_context("collecting stats").unwrap(), 3);
}

#[test]
fn tech_context_prefixes_the_message() {
    let err: Result<u32, AppError> = Err(AppError::Terminal("raw".to_string()));
    let wrapped = err.tech_context("enabling").unwrap_err();
    assert_eq!(wrapped.message_payload(), "[Technical] enabling: raw");
    let ok: Result<u32, AppError> = Ok(1);
    assert_eq!(ok.tech_context("enabling").unwrap(), 1);
}
