//! What the caller hands to the library and takes from it around the one
//! network call: the settings it read, the request to send, the reply it got.

use vstd::prelude::*;
use crate::event::{
    GoogleCalendarEvent, GoogleCalendarEventView, GoogleCalendarResponse,
    GoogleCalendarResponseView,
};
use crate::text::{contains_text, occurs_at};

verus! {

/// Name of the setting that holds the API key. It is required.
pub const API_KEY_VARIABLE: &'static str = "GOOGLE_CALENDAR_API_KEY";

/// Name of the setting that holds the calendar identifier. It is optional.
pub const CALENDAR_ID_VARIABLE: &'static str = "GOOGLE_CALENDAR_ID";

/// The calendar that is addressed when none is configured.
pub const DEFAULT_CALENDAR_ID: &'static str = "primary";

/// An events address up to the calendar identifier.
pub const EVENTS_URL_HEAD: &'static str = "https://www.googleapis.com/calendar/v3/calendars/";

/// An events address between the calendar identifier and the API key.
pub const EVENTS_URL_TAIL: &'static str = "/events?key=";

/// How the default calendar shows in an address.
pub const DEFAULT_CALENDAR_SEGMENT: &'static str = "calendars/primary/events";

/// The content type of every request.
pub const JSON_CONTENT_TYPE: &'static str = "application/json";

/// The settings as the caller found them when the tool was called. `None`
/// stands for a setting that is not there.
#[derive(Debug, PartialEq, Eq)]
pub struct Environment {
    pub api_key: Option<String>,
    pub calendar_id: Option<String>,
}

/// An `Environment` with its texts as sequences of characters.
pub struct EnvironmentView {
    pub api_key: Option<Seq<char>>,
    pub calendar_id: Option<Seq<char>>,
}

impl View for Environment {
    type V = EnvironmentView;

    open spec fn view(&self) -> EnvironmentView {
        EnvironmentView {
            api_key: self.api_key.deep_view(),
            calendar_id: self.calendar_id.deep_view(),
        }
    }
}

/// The calendar that a call addresses.
pub open spec fn resolved_calendar_id(calendar_id: Option<Seq<char>>) -> Seq<char> {
    match calendar_id {
        Some(id) => id,
        None => DEFAULT_CALENDAR_ID@,
    }
}

/// The address of a calendar's events, with the API key as its query. Both
/// parts go in as they are.
pub open spec fn events_url(calendar_id: Seq<char>, api_key: Seq<char>) -> Seq<char> {
    EVENTS_URL_HEAD@ + calendar_id + EVENTS_URL_TAIL@ + api_key
}

/// With no calendar configured, the address names the default calendar,
/// whatever the API key.
pub proof fn lemma_default_calendar_in_url(api_key: Seq<char>)
    ensures
        contains_text(events_url(resolved_calendar_id(None), api_key), DEFAULT_CALENDAR_SEGMENT@),
{
    reveal_strlit("https://www.googleapis.com/calendar/v3/calendars/");
    reveal_strlit("primary");
    reveal_strlit("/events?key=");
    reveal_strlit("calendars/primary/events");
    let url = events_url(resolved_calendar_id(None), api_key);
    assert(url.subrange(39, 63) =~= DEFAULT_CALENDAR_SEGMENT@);
    assert(occurs_at(url, DEFAULT_CALENDAR_SEGMENT@, 39));
}

/// One HTTP POST for the caller to send: the address, the value of the
/// `Content-Type` header, and the event that is the JSON body.
#[derive(Debug, PartialEq, Eq)]
pub struct OutboundRequest {
    pub url: String,
    pub content_type: String,
    pub event: GoogleCalendarEvent,
}

/// An `OutboundRequest` with its texts as sequences of characters.
pub struct OutboundRequestView {
    pub url: Seq<char>,
    pub content_type: Seq<char>,
    pub event: GoogleCalendarEventView,
}

impl View for OutboundRequest {
    type V = OutboundRequestView;

    open spec fn view(&self) -> OutboundRequestView {
        OutboundRequestView {
            url: self.url@,
            content_type: self.content_type@,
            event: self.event@,
        }
    }
}

/// What came of sending an `OutboundRequest`.
#[derive(Debug, PartialEq, Eq)]
pub enum UpstreamReply {
    /// The request got no response: the connection failed or timed out.
    Unreachable { detail: String },
    /// A response arrived. `decoded` is its body read as a created event, or
    /// the reason why it could not be read as one.
    Answered { status: u16, body: String, decoded: Result<GoogleCalendarResponse, String> },
}

/// An `UpstreamReply` with its texts as sequences of characters.
pub enum UpstreamReplyView {
    Unreachable { detail: Seq<char> },
    Answered {
        status: u16,
        body: Seq<char>,
        decoded: Result<GoogleCalendarResponseView, Seq<char>>,
    },
}

impl View for UpstreamReply {
    type V = UpstreamReplyView;

    open spec fn view(&self) -> UpstreamReplyView {
        match self {
            UpstreamReply::Unreachable { detail } => UpstreamReplyView::Unreachable {
                detail: detail@,
            },
            UpstreamReply::Answered { status, body, decoded } => UpstreamReplyView::Answered {
                status: *status,
                body: body@,
                decoded: match decoded {
                    Ok(response) => Ok(response@),
                    Err(reason) => Err(reason@),
                },
            },
        }
    }
}

impl Environment {
    /// The configured calendar, or the default one.
    pub fn calendar_id_or_default(&self) -> (id: String)
        ensures
            id@ == resolved_calendar_id(self@.calendar_id),
    {
        match &self.calendar_id {
            Some(id) => id.clone(),
            None => String::from_str(DEFAULT_CALENDAR_ID),
        }
    }
}

/// Builds the address that a new event is posted to.
pub fn build_events_url(calendar_id: &str, api_key: &str) -> (url: String)
    ensures
        url@ == events_url(calendar_id@, api_key@),
{
    let mut url = String::from_str(EVENTS_URL_HEAD);
    url.append(calendar_id);
    url.append(EVENTS_URL_TAIL);
    url.append(api_key);
    url
}

/// Whether an HTTP status reports success: 200 up to 299.
pub open spec fn is_success(status: u16) -> bool {
    200 <= status <= 299
}

/// Tells a success status from any other.
#[verifier::when_used_as_spec(is_success)]
pub fn is_success_status(status: u16) -> (success: bool)
    ensures
        success == is_success(status),
{
    200 <= status && status <= 299
}

} // verus!
