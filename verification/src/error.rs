//! The ways in which a calendar tool call can fail.

use vstd::prelude::*;
use crate::text::{contains_text, lemma_contains_suffix};

verus! {

/// A failed tool call. Nothing is retried and nothing is swallowed: each
/// failure goes to the caller with what is known of it.
#[derive(Debug, PartialEq, Eq)]
pub enum CalendarError {
    /// A required setting is absent; `variable` names it.
    Configuration { variable: String },
    /// The start time is no RFC 3339 timestamp.
    Validation,
    /// No response came back from the calendar service.
    Transport { detail: String },
    /// The calendar service answered with a status other than success;
    /// `body` is its response body, untouched.
    Upstream { status: u16, body: String },
    /// The calendar service reported success, but its body could not be read
    /// as a created event.
    Decode { detail: String },
}

/// A `CalendarError` with its texts as sequences of characters.
pub enum CalendarErrorView {
    Configuration { variable: Seq<char> },
    Validation,
    Transport { detail: Seq<char> },
    Upstream { status: u16, body: Seq<char> },
    Decode { detail: Seq<char> },
}

impl View for CalendarError {
    type V = CalendarErrorView;

    open spec fn view(&self) -> CalendarErrorView {
        match self {
            CalendarError::Configuration { variable } => CalendarErrorView::Configuration {
                variable: variable@,
            },
            CalendarError::Validation => CalendarErrorView::Validation,
            CalendarError::Transport { detail } => CalendarErrorView::Transport { detail: detail@ },
            CalendarError::Upstream { status, body } => CalendarErrorView::Upstream {
                status: *status,
                body: body@,
            },
            CalendarError::Decode { detail } => CalendarErrorView::Decode { detail: detail@ },
        }
    }
}

/// What a configuration error says before the variable's name.
pub const MISSING_SETTING_PREFIX: &'static str = "missing required environment variable: ";

/// What a validation error says.
pub const INVALID_START_TIME: &'static str =
    "invalid start time format, expected RFC3339, e.g. 2023-12-25T10:00:00+09:00";

/// What a transport error says before the detail.
pub const TRANSPORT_PREFIX: &'static str = "request to the calendar service failed: ";

/// What an upstream error says before the response body.
pub const UPSTREAM_PREFIX: &'static str = "calendar service rejected the request: ";

/// What a decode error says before the detail.
pub const DECODE_PREFIX: &'static str = "unreadable response from the calendar service: ";

/// The text that describes a failure to the caller of the tool.
pub open spec fn message_text(error: CalendarErrorView) -> Seq<char> {
    match error {
        CalendarErrorView::Configuration { variable } => MISSING_SETTING_PREFIX@ + variable,
        CalendarErrorView::Validation => INVALID_START_TIME@,
        CalendarErrorView::Transport { detail } => TRANSPORT_PREFIX@ + detail,
        CalendarErrorView::Upstream { status, body } => UPSTREAM_PREFIX@ + body,
        CalendarErrorView::Decode { detail } => DECODE_PREFIX@ + detail,
    }
}

impl CalendarError {
    /// A description of the failure for the caller of the tool.
    pub fn message(&self) -> (text: String)
        ensures
            text@ == message_text(self@),
            self matches CalendarError::Configuration { variable } ==> contains_text(
                text@,
                variable@,
            ),
            self matches CalendarError::Upstream { body, .. } ==> contains_text(text@, body@),
    {
        proof {
            match self {
                CalendarError::Configuration { variable } => {
                    lemma_contains_suffix(MISSING_SETTING_PREFIX@, variable@);
                },
                CalendarError::Upstream { body, .. } => {
                    lemma_contains_suffix(UPSTREAM_PREFIX@, body@);
                },
                _ => {},
            }
        }
        match self {
            CalendarError::Configuration { variable } => {
                String::from_str(MISSING_SETTING_PREFIX).concat(variable.as_str())
            },
            CalendarError::Validation => String::from_str(INVALID_START_TIME),
            CalendarError::Transport { detail } => {
                String::from_str(TRANSPORT_PREFIX).concat(detail.as_str())
            },
            CalendarError::Upstream { status, body } => {
                String::from_str(UPSTREAM_PREFIX).concat(body.as_str())
            },
            CalendarError::Decode { detail } => {
                String::from_str(DECODE_PREFIX).concat(detail.as_str())
            },
        }
    }
}

} // verus!
