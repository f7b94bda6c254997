//! Error taxonomy and error-context helpers.
//!
//! `AppError` carries a category and a human-readable message. The engine's
//! own functions return it directly; helpers here add context to a message or
//! absorb a recoverable failure into a default value.

use vstd::prelude::*;
use vstd::string::StringExecFns;
use crate::text::{spec_u64_string, u64_to_string};

verus! {

/// Application error: a category plus a message.
#[derive(Debug, PartialEq, Eq)]
pub enum AppError {
    /// Network interface related error.
    NetworkInterface(String),
    /// Terminal UI related error.
    Terminal(String),
    /// Configuration related error.
    Configuration(String),
    /// System API related error.
    SystemApi(String),
    /// Permission related error.
    Permission(String),
}

/// The message carried inside an error, whatever its category.
pub open spec fn error_payload(e: AppError) -> Seq<char> {
    match e {
        AppError::NetworkInterface(m) => m@,
        AppError::Terminal(m) => m@,
        AppError::Configuration(m) => m@,
        AppError::SystemApi(m) => m@,
        AppError::Permission(m) => m@,
    }
}

/// Two errors belong to the same category.
pub open spec fn same_category(a: AppError, b: AppError) -> bool {
    match (a, b) {
        (AppError::NetworkInterface(_), AppError::NetworkInterface(_)) => true,
        (AppError::Terminal(_), AppError::Terminal(_)) => true,
        (AppError::Configuration(_), AppError::Configuration(_)) => true,
        (AppError::SystemApi(_), AppError::SystemApi(_)) => true,
        (AppError::Permission(_), AppError::Permission(_)) => true,
        _ => false,
    }
}

/// The full display message of an error: its category name, a colon, and the
/// carried message.
pub open spec fn spec_error_message(e: AppError) -> Seq<char> {
    match e {
        AppError::NetworkInterface(m) => "Network interface error: "@ + m@,
        AppError::Terminal(m) => "Terminal error: "@ + m@,
        AppError::Configuration(m) => "Configuration error: "@ + m@,
        AppError::SystemApi(m) => "System API error: "@ + m@,
        AppError::Permission(m) => "Permission error: "@ + m@,
    }
}

impl Clone for AppError {
    /// A clone is equal to the original, category and message alike.
    fn clone(&self) -> (result: Self)
        ensures
            result == *self,
    {
        match self {
            AppError::NetworkInterface(m) => AppError::NetworkInterface(m.clone()),
            AppError::Terminal(m) => AppError::Terminal(m.clone()),
            AppError::Configuration(m) => AppError::Configuration(m.clone()),
            AppError::SystemApi(m) => AppError::SystemApi(m.clone()),
            AppError::Permission(m) => AppError::Permission(m.clone()),
        }
    }
}

impl AppError {
    /// The display message: the category name, a colon, and the carried
    /// message.
    pub fn message(&self) -> (result: String)
        ensures
            result@ == spec_error_message(*self),
    {
        match self {
            AppError::NetworkInterface(m) => {
                let mut text = String::from_str("Network interface error: ");
                text.append(m.as_str());
                text
            },
            AppError::Terminal(m) => {
                let mut text = String::from_str("Terminal error: ");
                text.append(m.as_str());
                text
            },
            AppError::Configuration(m) => {
                let mut text = String::from_str("Configuration error: ");
                text.append(m.as_str());
                text
            },
            AppError::SystemApi(m) => {
                let mut text = String::from_str("System API error: ");
                text.append(m.as_str());
                text
            },
            AppError::Permission(m) => {
                let mut text = String::from_str("Permission error: ");
                text.append(m.as_str());
                text
            },
        }
    }

    /// The same category carrying a different message.
    pub fn with_payload(&self, payload: String) -> (result: AppError)
        ensures
            same_category(result, *self),
            error_payload(result) == payload@,
    {
        match self {
            AppError::NetworkInterface(_) => AppError::NetworkInterface(payload),
            AppError::Terminal(_) => AppError::Terminal(payload),
            AppError::Configuration(_) => AppError::Configuration(payload),
            AppError::SystemApi(_) => AppError::SystemApi(payload),
            AppError::Permission(_) => AppError::Permission(payload),
        }
    }
}

/// Adds context to the error side of a `Result`, leaving successes alone.
pub trait ErrorContext<T>: Sized {
    /// Whether this result is a success.
    spec fn is_success(self) -> bool;

    /// The success value carried.
    spec fn success_value(self) -> T;

    /// The error carried.
    spec fn error_value(self) -> AppError;

    /// Prefixes the error's message with a user-facing context line:
    /// `"! <msg>: <original message>"`, keeping the error's category.
    fn user_context(self, msg: &str) -> (result: Result<T, AppError>)
        ensures
            result is Ok <==> self.is_success(),
            self.is_success() ==> result->Ok_0 == self.success_value(),
            !self.is_success() ==> same_category(result->Err_0, self.error_value())
                && error_payload(result->Err_0) == "! "@ + msg@ + ": "@ + error_payload(
                self.error_value(),
            ),
    ;

    /// Prefixes the error's message with a technical context line:
    /// `"[Technical] <msg>: <original message>"`, keeping the category.
    fn tech_context(self, msg: &str) -> (result: Result<T, AppError>)
        ensures
            result is Ok <==> self.is_success(),
            self.is_success() ==> result->Ok_0 == self.success_value(),
            !self.is_success() ==> same_category(result->Err_0, self.error_value())
                && error_payload(result->Err_0) == "[Technical] "@ + msg@ + ": "@
                + error_payload(self.error_value()),
    ;
}

impl<T> ErrorContext<T> for Result<T, AppError> {
    open spec fn is_success(self) -> bool {
        self is Ok
    }

    open spec fn success_value(self) -> T {
        self->Ok_0
    }

    open spec fn error_value(self) -> AppError {
        self->Err_0
    }

    fn user_context(self, msg: &str) -> (result: Result<T, AppError>) {
        match self {
            Ok(value) => Ok(value),
            Err(e) => {
                let mut text = String::from_str("! ");
                text.append(msg);
                text.append(": ");
                text.append(e.message_payload().as_str());
                Err(e.with_payload(text))
            },
        }
    }

    fn tech_context(self, msg: &str) -> (result: Result<T, AppError>) {
        match self {
            Ok(value) => Ok(value),
            Err(e) => {
                let mut text = String::from_str("[Technical] ");
                text.append(msg);
                text.append(": ");
                text.append(e.message_payload().as_str());
                Err(e.with_payload(text))
            },
        }
    }
}

impl AppError {
    /// The carried message alone, without the category name.
    pub fn message_payload(&self) -> (result: String)
        ensures
            result@ == error_payload(*self),
    {
        match self {
            AppError::NetworkInterface(m) => m.clone(),
            AppError::Terminal(m) => m.clone(),
            AppError::Configuration(m) => m.clone(),
            AppError::SystemApi(m) => m.clone(),
            AppError::Permission(m) => m.clone(),
        }
    }
}

/// Absorbs a recoverable failure: a success yields its value, an error yields
/// the given default. The context string only names the call site; nothing is
/// logged here.
#[allow(unused_variables)]
pub fn handle_recoverable_error<T>(result: Result<T, AppError>, default: T, context: &str) -> (value:
    T)
    ensures
        result is Ok ==> value == result->Ok_0,
        result is Err ==> value == default,
{
    match result {
        Ok(v) => v,
        Err(_) => default,
    }
}

/// The message `handle_linux_error` builds.
pub open spec fn spec_linux_error_message(errno: i32, operation: Seq<char>) -> Seq<char> {
    "Linux system error during "@ + operation + " (errno: "@ + spec_errno_string(errno as int)
        + ")"@
}

/// The decimal digit string of an errno value, with a leading minus sign when
/// it is negative.
pub open spec fn spec_errno_string(n: int) -> Seq<char> {
    if n >= 0 {
        spec_u64_string(n)
    } else {
        "-"@ + spec_u64_string(-n)
    }
}

/// Wraps an errno from a failed system call into a system-API error naming
/// the operation and the errno value.
pub fn handle_linux_error(errno: i32, operation: &str) -> (result: AppError)
    ensures
        result is SystemApi,
        error_payload(result) == spec_linux_error_message(errno, operation@),
{
    let mut text = String::from_str("Linux system error during ");
    text.append(operation);
    text.append(" (errno: ");
    if errno >= 0 {
        let digits = u64_to_string(errno as u64);
        text.append(digits.as_str());
    } else {
        proof {
            reveal_strlit("-");
        }
        text.append("-");
        let magnitude = (-(errno as i64)) as u64;
        let digits = u64_to_string(magnitude);
        text.append(digits.as_str());
    }
    text.append(")");
    AppError::SystemApi(text)
}

} // verus!
