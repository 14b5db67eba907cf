//! The values that travel between a tool call and the calendar service, each
//! with the mathematical view that the contracts speak of.

use vstd::prelude::*;
use crate::timestamp::{
    hour_after, rfc3339_text, Timestamp, TimestampView, MAX_UNIX_SECONDS, SECONDS_PER_HOUR,
};

verus! {

/// A point in time as the calendar service takes it: a timestamp in text and
/// the name of a time zone.
#[derive(Debug, PartialEq, Eq)]
pub struct EventDateTime {
    pub date_time: String,
    pub time_zone: String,
}

/// An `EventDateTime` with its texts as sequences of characters.
pub struct EventDateTimeView {
    pub date_time: Seq<char>,
    pub time_zone: Seq<char>,
}

impl View for EventDateTime {
    type V = EventDateTimeView;

    open spec fn view(&self) -> EventDateTimeView {
        EventDateTimeView { date_time: self.date_time@, time_zone: self.time_zone@ }
    }
}

/// The body of a request that creates an event.
#[derive(Debug, PartialEq, Eq)]
pub struct GoogleCalendarEvent {
    pub summary: String,
    pub description: Option<String>,
    pub start: EventDateTime,
    pub end: EventDateTime,
}

/// A `GoogleCalendarEvent` with its texts as sequences of characters.
pub struct GoogleCalendarEventView {
    pub summary: Seq<char>,
    pub description: Option<Seq<char>>,
    pub start: EventDateTimeView,
    pub end: EventDateTimeView,
}

impl View for GoogleCalendarEvent {
    type V = GoogleCalendarEventView;

    open spec fn view(&self) -> GoogleCalendarEventView {
        GoogleCalendarEventView {
            summary: self.summary@,
            description: self.description.deep_view(),
            start: self.start@,
            end: self.end@,
        }
    }
}

/// What the calendar service reports of a created event. Every field may be
/// absent.
#[derive(Debug, PartialEq, Eq)]
pub struct GoogleCalendarResponse {
    pub id: Option<String>,
    pub summary: Option<String>,
    pub html_link: Option<String>,
}

/// A `GoogleCalendarResponse` with its texts as sequences of characters.
pub struct GoogleCalendarResponseView {
    pub id: Option<Seq<char>>,
    pub summary: Option<Seq<char>>,
    pub html_link: Option<Seq<char>>,
}

impl View for GoogleCalendarResponse {
    type V = GoogleCalendarResponseView;

    open spec fn view(&self) -> GoogleCalendarResponseView {
        GoogleCalendarResponseView {
            id: self.id.deep_view(),
            summary: self.summary.deep_view(),
            html_link: self.html_link.deep_view(),
        }
    }
}

/// Arguments of the `create_event` tool.
#[derive(Debug, PartialEq, Eq)]
pub struct CreateEventArgs {
    pub summary: String,
    pub description: Option<String>,
    pub start_datetime: String,
    pub end_datetime: String,
    pub timezone: Option<String>,
}

/// `CreateEventArgs` with its texts as sequences of characters.
pub struct CreateEventArgsView {
    pub summary: Seq<char>,
    pub description: Option<Seq<char>>,
    pub start_datetime: Seq<char>,
    pub end_datetime: Seq<char>,
    pub timezone: Option<Seq<char>>,
}

impl View for CreateEventArgs {
    type V = CreateEventArgsView;

    open spec fn view(&self) -> CreateEventArgsView {
        CreateEventArgsView {
            summary: self.summary@,
            description: self.description.deep_view(),
            start_datetime: self.start_datetime@,
            end_datetime: self.end_datetime@,
            timezone: self.timezone.deep_view(),
        }
    }
}

impl DeepView for CreateEventArgs {
    type V = CreateEventArgsView;

    open spec fn deep_view(&self) -> CreateEventArgsView {
        self@
    }
}

/// Arguments of the `add_event` tool.
#[derive(Debug, PartialEq, Eq)]
pub struct AddEventArgs {
    pub title: String,
    pub start_time: String,
}

/// `AddEventArgs` with its texts as sequences of characters.
pub struct AddEventArgsView {
    pub title: Seq<char>,
    pub start_time: Seq<char>,
}

impl View for AddEventArgs {
    type V = AddEventArgsView;

    open spec fn view(&self) -> AddEventArgsView {
        AddEventArgsView { title: self.title@, start_time: self.start_time@ }
    }
}

/// The time zone that an event gets when the caller names none.
pub const DEFAULT_TIMEZONE: &'static str = "Asia/Tokyo";

/// The time zone stamped on both ends of an event.
pub open spec fn resolved_timezone(timezone: Option<Seq<char>>) -> Seq<char> {
    match timezone {
        Some(name) => name,
        None => DEFAULT_TIMEZONE@,
    }
}

/// The request body for the given arguments: title, description and both
/// timestamps as given, and one time zone on both ends.
pub open spec fn event_for(args: CreateEventArgsView) -> GoogleCalendarEventView {
    GoogleCalendarEventView {
        summary: args.summary,
        description: args.description,
        start: EventDateTimeView {
            date_time: args.start_datetime,
            time_zone: resolved_timezone(args.timezone),
        },
        end: EventDateTimeView {
            date_time: args.end_datetime,
            time_zone: resolved_timezone(args.timezone),
        },
    }
}

/// The arguments for an event of one hour: the start and the instant one hour
/// on, each as RFC 3339 text, and neither description nor time zone.
pub open spec fn one_hour_args(title: Seq<char>, start: TimestampView) -> CreateEventArgsView {
    CreateEventArgsView {
        summary: title,
        description: None,
        start_datetime: rfc3339_text(start),
        end_datetime: rfc3339_text(hour_after(start)),
        timezone: None,
    }
}

impl CreateEventArgs {
    /// Describes an event that starts at `start` and lasts one hour. There is
    /// none where the hour ends after the last second that a timestamp can
    /// hold.
    pub fn one_hour(title: String, start: &Timestamp) -> (args: Option<CreateEventArgs>)
        ensures
            args.deep_view() == if start@.unix_seconds + SECONDS_PER_HOUR <= MAX_UNIX_SECONDS {
                Some(one_hour_args(title@, start@))
            } else {
                None
            },
    {
        let end = match start.plus_one_hour() {
            Some(end) => end,
            None => {
                return None;
            },
        };
        Some(
            CreateEventArgs {
                summary: title,
                description: None,
                start_datetime: start.to_rfc3339(),
                end_datetime: end.to_rfc3339(),
                timezone: None,
            },
        )
    }

    /// Builds the request body. Nothing is parsed or checked: the timestamps
    /// go out as they came in.
    pub fn into_event(self) -> (event: GoogleCalendarEvent)
        ensures
            event@ == event_for(self@),
    {
        let zone = match self.timezone {
            Some(name) => name,
            None => String::from_str(DEFAULT_TIMEZONE),
        };
        GoogleCalendarEvent {
            summary: self.summary,
            description: self.description,
            start: EventDateTime { date_time: self.start_datetime, time_zone: zone.clone() },
            end: EventDateTime { date_time: self.end_datetime, time_zone: zone },
        }
    }
}

} // verus!
