use vstd::prelude::*;
use vstd::string::*;

verus! {

/// The language in which error messages are rendered.
#[derive(Clone, Copy, Debug, PartialEq, Eq, Structural)]
pub enum Language {
    English,
    Chinese,
}

/// The broad class of a failure, as callers match on it.
#[derive(Clone, Copy, Debug, PartialEq, Eq, Structural)]
pub enum ErrorKind {
    BrowserOperation,
    UnsupportedOperation,
    Timeout,
}

/// Why a web page, element or frame refused an operation.
#[derive(Debug)]
pub enum OpenPageError {
    /// A mode code other than `d` or `s` (in either case) was given.
    InvalidMode(String),
    /// The named operation needs the browser driver, but the object is in
    /// session mode or is a session element.
    DriverModeOnly(&'static str),
    /// The named argument of an operation had to be a browser-backed element.
    DriverElementRequired(&'static str),
    /// The named select operation was given an option that is not a
    /// browser-backed element.
    BrowserBackedOptionRequired(&'static str),
    /// Waiting for a locator ran out of time; the error of the last lookup
    /// is kept as text.
    LocatorTimedOut { locator: String, last_error: String },
    /// A session-mode wait was given a browser-backed element, which the
    /// session cannot look up.
    SessionWaitNeedsSessionTarget,
}

pub open spec fn error_kind(error: OpenPageError) -> ErrorKind {
    match error {
        OpenPageError::InvalidMode(_) => ErrorKind::BrowserOperation,
        OpenPageError::LocatorTimedOut { .. } => ErrorKind::Timeout,
        _ => ErrorKind::UnsupportedOperation,
    }
}

/// The rendered text of an error in the given language.
pub open spec fn error_text(error: OpenPageError, language: Language) -> Seq<char> {
    match (error, language) {
        (OpenPageError::InvalidMode(code), Language::English) =>
            "invalid web mode: "@ + code@ + ", expected 'd' or 's'"@,
        (OpenPageError::InvalidMode(code), Language::Chinese) =>
            "无效的网页模式: "@ + code@ + "，应为 'd' 或 's'"@,
        (OpenPageError::DriverModeOnly(op), Language::English) =>
            op@ + " is only available in driver mode"@,
        (OpenPageError::DriverModeOnly(op), Language::Chinese) =>
            op@ + " 仅在 driver 模式可用"@,
        (OpenPageError::DriverElementRequired(what), Language::English) =>
            what@ + " must be a driver-backed element"@,
        (OpenPageError::DriverElementRequired(what), Language::Chinese) =>
            what@ + " 必须是 driver 模式的元素"@,
        (OpenPageError::BrowserBackedOptionRequired(op), Language::English) =>
            op@ + " requires options that are browser-backed elements"@,
        (OpenPageError::BrowserBackedOptionRequired(op), Language::Chinese) =>
            op@ + " 要求选项为浏览器元素"@,
        (OpenPageError::LocatorTimedOut { locator, last_error }, Language::English) =>
            "timed out waiting for locator: "@ + locator@ + " ("@ + last_error@ + ")"@,
        (OpenPageError::LocatorTimedOut { locator, last_error }, Language::Chinese) =>
            "等待定位符超时: "@ + locator@ + " ("@ + last_error@ + ")"@,
        (OpenPageError::SessionWaitNeedsSessionTarget, _) =>
            "browser-backed element object is not supported for session mode wait_for_ele_*()"@,
    }
}

impl OpenPageError {
    pub fn kind(&self) -> (kind: ErrorKind)
        ensures
            kind == error_kind(*self),
    {
        match self {
            OpenPageError::InvalidMode(_) => ErrorKind::BrowserOperation,
            OpenPageError::LocatorTimedOut { .. } => ErrorKind::Timeout,
            _ => ErrorKind::UnsupportedOperation,
        }
    }

    pub fn message(&self, language: Language) -> (text: String)
        ensures
            text@ == error_text(*self, language),
    {
        match (self, language) {
            (OpenPageError::InvalidMode(code), Language::English) => {
                let text = String::from_str("invalid web mode: ");
                let text = text.concat(code.as_str());
                text.concat(", expected 'd' or 's'")
            },
            (OpenPageError::InvalidMode(code), Language::Chinese) => {
                let text = String::from_str("无效的网页模式: ");
                let text = text.concat(code.as_str());
                text.concat("，应为 'd' 或 's'")
            },
            (OpenPageError::DriverModeOnly(op), Language::English) => {
                String::from_str(op).concat(" is only available in driver mode")
            },
            (OpenPageError::DriverModeOnly(op), Language::Chinese) => {
                String::from_str(op).concat(" 仅在 driver 模式可用")
            },
            (OpenPageError::DriverElementRequired(what), Language::English) => {
                String::from_str(what).concat(" must be a driver-backed element")
            },
            (OpenPageError::DriverElementRequired(what), Language::Chinese) => {
                String::from_str(what).concat(" 必须是 driver 模式的元素")
            },
            (OpenPageError::BrowserBackedOptionRequired(op), Language::English) => {
                String::from_str(op).concat(" requires options that are browser-backed elements")
            },
            (OpenPageError::BrowserBackedOptionRequired(op), Language::Chinese) => {
                String::from_str(op).concat(" 要求选项为浏览器元素")
            },
            (OpenPageError::LocatorTimedOut { locator, last_error }, Language::English) => {
                let text = String::from_str("timed out waiting for locator: ").concat(locator.as_str());
                text.concat(" (").concat(last_error.as_str()).concat(")")
            },
            (OpenPageError::LocatorTimedOut { locator, last_error }, Language::Chinese) => {
                let text = String::from_str("等待定位符超时: ").concat(locator.as_str());
                text.concat(" (").concat(last_error.as_str()).concat(")")
            },
            (OpenPageError::SessionWaitNeedsSessionTarget, _) => {
                String::from_str(
                    "browser-backed element object is not supported for session mode wait_for_ele_*()",
                )
            },
        }
    }
}

} // verus!
