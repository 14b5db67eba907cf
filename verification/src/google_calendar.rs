//! The calendar adapter: it turns a tool call into the one request that
//! creates the event, and the reply into a message for the caller.

use vstd::prelude::*;
use crate::descriptor::{ServerDescriptor, ServerDescriptorView};
use crate::error::{CalendarError, CalendarErrorView};
use crate::event::{
    event_for, one_hour_args, AddEventArgs, AddEventArgsView, CreateEventArgs,
    CreateEventArgsView, GoogleCalendarResponse, GoogleCalendarResponseView, DEFAULT_TIMEZONE,
};
use crate::exchange::{
    build_events_url, events_url, is_success, is_success_status, lemma_default_calendar_in_url,
    resolved_calendar_id, Environment, EnvironmentView, OutboundRequest, OutboundRequestView,
    UpstreamReply, UpstreamReplyView, API_KEY_VARIABLE, DEFAULT_CALENDAR_SEGMENT,
    JSON_CONTENT_TYPE,
};
use crate::text::{contains_text, lemma_contains_between, lemma_contains_suffix};
use crate::timestamp::{
    hour_after, rfc3339_reading, rfc3339_text, Timestamp, SECONDS_PER_HOUR,
};

verus! {

/// Provider of the calendar tools. It holds no state: every call stands alone.
#[derive(Clone, Copy, Debug)]
pub struct GoogleCalendar;

/// What `list_events` answers. No events are fetched: the text marks the
/// place where a list would be.
pub const LIST_EVENTS_PLACEHOLDER: &'static str = "予定一覧のダミーデータ";

/// What the provider tells a host about itself.
pub const CALENDAR_INSTRUCTIONS: &'static str = "Google Calendar MCP";

/// What stands in a confirmation for a field that the service left out.
pub const UNKNOWN: &'static str = "Unknown";

/// A confirmation up to the event's title.
pub const CONFIRMATION_HEAD: &'static str = "予定 '";

/// A confirmation between the event's title and its identifier.
pub const CONFIRMATION_MIDDLE: &'static str = "' を作成しました。ID: ";

/// The request that creates the event described by `args`, for settings in
/// which the API key is `api_key`.
pub open spec fn request_for(
    api_key: Seq<char>,
    calendar_id: Option<Seq<char>>,
    args: CreateEventArgsView,
) -> OutboundRequestView {
    OutboundRequestView {
        url: events_url(resolved_calendar_id(calendar_id), api_key),
        content_type: JSON_CONTENT_TYPE@,
        event: event_for(args),
    }
}

/// What `create_event` returns: the request where the API key is set, and a
/// configuration error that names the key's variable where it is not.
pub open spec fn create_event_plan(
    env: EnvironmentView,
    args: CreateEventArgsView,
) -> Result<OutboundRequestView, CalendarErrorView> {
    match env.api_key {
        Some(api_key) => Ok(request_for(api_key, env.calendar_id, args)),
        None => Err(CalendarErrorView::Configuration { variable: API_KEY_VARIABLE@ }),
    }
}

/// What `add_event` returns: a validation error where the start time is no
/// RFC 3339 timestamp, and otherwise what `create_event` returns for an event
/// of one hour from that start.
pub open spec fn add_event_plan(env: EnvironmentView, args: AddEventArgsView) -> Result<
    OutboundRequestView,
    CalendarErrorView,
> {
    match rfc3339_reading(args.start_time) {
        Some(start) => create_event_plan(env, one_hour_args(args.title, start)),
        None => Err(CalendarErrorView::Validation),
    }
}

/// A field of the response, or the word that stands for an absent one.
pub open spec fn or_unknown(field: Option<Seq<char>>) -> Seq<char> {
    match field {
        Some(text) => text,
        None => UNKNOWN@,
    }
}

/// The message that confirms a created event: its title, then its identifier.
pub open spec fn confirmation_text(response: GoogleCalendarResponseView) -> Seq<char> {
    CONFIRMATION_HEAD@ + or_unknown(response.summary) + CONFIRMATION_MIDDLE@ + or_unknown(
        response.id,
    )
}

/// What `confirm_event` returns for each reply.
pub open spec fn confirmation_of(reply: UpstreamReplyView) -> Result<Seq<char>, CalendarErrorView> {
    match reply {
        UpstreamReplyView::Unreachable { detail } => Err(CalendarErrorView::Transport { detail }),
        UpstreamReplyView::Answered { status, body, decoded } => {
            if !is_success(status) {
                Err(CalendarErrorView::Upstream { status, body })
            } else {
                match decoded {
                    Ok(response) => Ok(confirmation_text(response)),
                    Err(detail) => Err(CalendarErrorView::Decode { detail }),
                }
            }
        },
    }
}

/// A plan as the contracts see it: the view of the request, or of the error.
pub open spec fn plan_view(
    plan: Result<OutboundRequest, CalendarError>,
) -> Result<OutboundRequestView, CalendarErrorView> {
    match plan {
        Ok(request) => Ok(request@),
        Err(error) => Err(error@),
    }
}

/// An outcome as the contracts see it: the message's text, or the view of the
/// error.
pub open spec fn outcome_view(
    outcome: Result<String, CalendarError>,
) -> Result<Seq<char>, CalendarErrorView> {
    match outcome {
        Ok(message) => Ok(message@),
        Err(error) => Err(error@),
    }
}

/// An event added at a start time that reads as `start` is the event created
/// from `start` to the instant 3,600 seconds later at the same offset, both
/// written as RFC 3339 text, with neither description nor time zone.
pub proof fn lemma_add_event_creates_one_hour(env: EnvironmentView, args: AddEventArgsView)
    ensures
        rfc3339_reading(args.start_time) matches Some(start) ==> {
            &&& add_event_plan(env, args) == create_event_plan(
                env,
                CreateEventArgsView {
                    summary: args.title,
                    description: None,
                    start_datetime: rfc3339_text(start),
                    end_datetime: rfc3339_text(hour_after(start)),
                    timezone: None,
                },
            )
            &&& hour_after(start).unix_seconds == start.unix_seconds + SECONDS_PER_HOUR
            &&& hour_after(start).offset_seconds == start.offset_seconds
        },
{
}

/// A start time that is no RFC 3339 timestamp fails `add_event` with a
/// validation error whether or not the API key is set, and no start time
/// yields a request without one.
pub proof fn lemma_add_event_failures(env: EnvironmentView, args: AddEventArgsView)
    ensures
        rfc3339_reading(args.start_time) is None ==> add_event_plan(env, args) == Err::<
            OutboundRequestView,
            CalendarErrorView,
        >(CalendarErrorView::Validation),
        env.api_key is None ==> add_event_plan(env, args) is Err,
{
}

fn text_or_unknown(field: &Option<String>) -> (text: &str)
    ensures
        text@ == or_unknown(field.deep_view()),
{
    match field {
        Some(text) => text.as_str(),
        None => UNKNOWN,
    }
}

impl GoogleCalendar {
    /// A provider. One is as good as another.
    pub fn new() -> (calendar: Self) {
        GoogleCalendar
    }

    /// Describes the provider to a host: its instructions, and that it
    /// offers tools.
    pub fn get_info(&self) -> (info: ServerDescriptor)
        ensures
            info@ == (ServerDescriptorView {
                instructions: CALENDAR_INSTRUCTIONS@,
                tools_enabled: true,
            }),
    {
        ServerDescriptor {
            instructions: String::from_str(CALENDAR_INSTRUCTIONS),
            tools_enabled: true,
        }
    }

    /// Answers the `list_events` tool with a fixed placeholder.
    pub fn list_events(&self) -> (listing: String)
        ensures
            listing@ == LIST_EVENTS_PLACEHOLDER@,
    {
        String::from_str(LIST_EVENTS_PLACEHOLDER)
    }

    /// Plans the `create_event` tool: the one request to send, or the reason
    /// why none is sent.
    ///
    /// Without an API key the call fails before anything is built. The
    /// arguments are not checked: title, description and timestamps reach the
    /// request as they are.
    pub fn create_event(&self, env: &Environment, args: CreateEventArgs) -> (plan: Result<
        OutboundRequest,
        CalendarError,
    >)
        ensures
            plan_view(plan) == create_event_plan(env@, args@),
            plan is Ok <==> env.api_key is Some,
            plan matches Err(error) ==> error@ == (CalendarErrorView::Configuration {
                variable: API_KEY_VARIABLE@,
            }),
            plan matches Ok(request) ==> {
                &&& request.event.start.date_time@ == args.start_datetime@
                &&& request.event.end.date_time@ == args.end_datetime@
                &&& request.event.start.time_zone@ == request.event.end.time_zone@
                &&& args.timezone matches Some(zone) ==> {
                    &&& request.event.start.time_zone@ == zone@
                    &&& request.event.end.time_zone@ == zone@
                }
                &&& args.timezone is None ==> {
                    &&& request.event.start.time_zone@ == DEFAULT_TIMEZONE@
                    &&& request.event.end.time_zone@ == DEFAULT_TIMEZONE@
                }
                &&& env.calendar_id is None ==> contains_text(
                    request.url@,
                    DEFAULT_CALENDAR_SEGMENT@,
                )
            },
    {
        let api_key = match &env.api_key {
            Some(key) => key,
            None => {
                return Err(
                    CalendarError::Configuration { variable: String::from_str(API_KEY_VARIABLE) },
                );
            },
        };
        let calendar_id = env.calendar_id_or_default();
        let url = build_events_url(calendar_id.as_str(), api_key.as_str());
        proof {
            lemma_default_calendar_in_url(api_key@);
        }
        Ok(
            OutboundRequest {
                url,
                content_type: String::from_str(JSON_CONTENT_TYPE),
                event: args.into_event(),
            },
        )
    }

    /// Plans the `add_event` tool: an event of one hour from `start_time`,
    /// with neither description nor time zone, handed to `create_event`.
    ///
    /// The start time is read before the settings are looked at, so a start
    /// time that is no RFC 3339 timestamp fails the call whatever they hold.
    pub fn add_event(&self, env: &Environment, args: AddEventArgs) -> (plan: Result<
        OutboundRequest,
        CalendarError,
    >)
        ensures
            plan_view(plan) == add_event_plan(env@, args@),
            rfc3339_reading(args.start_time@) is None ==> (plan matches Err(error) && error@
                == CalendarErrorView::Validation),
    {
        let start = match Timestamp::parse_rfc3339(args.start_time.as_str()) {
            Some(start) => start,
            None => {
                return Err(CalendarError::Validation);
            },
        };
        // a four-digit year leaves room for the hour
        let event = CreateEventArgs::one_hour(args.title, &start).unwrap();
        self.create_event(env, event)
    }

    /// Reads the reply to a request that `create_event` or `add_event`
    /// planned: a confirmation for a created event, and otherwise the failure.
    pub fn confirm_event(&self, reply: UpstreamReply) -> (outcome: Result<String, CalendarError>)
        ensures
            outcome_view(outcome) == confirmation_of(reply@),
            outcome matches Ok(message) ==> (reply matches UpstreamReply::Answered {
                decoded: Ok(response),
                ..
            } && {
                &&& contains_text(message@, or_unknown(response.summary.deep_view()))
                &&& contains_text(message@, or_unknown(response.id.deep_view()))
            }),
            outcome matches Err(CalendarError::Upstream { body: reported, .. }) ==> (reply matches
                UpstreamReply::Answered { body, .. } && reported@ == body@),
    {
        match reply {
            UpstreamReply::Unreachable { detail } => Err(CalendarError::Transport { detail }),
            UpstreamReply::Answered { status, body, decoded } => {
                if !is_success_status(status) {
                    return Err(CalendarError::Upstream { status, body });
                }
                match decoded {
                    Ok(response) => Ok(confirmation_message(&response)),
                    Err(detail) => Err(CalendarError::Decode { detail }),
                }
            },
        }
    }
}

/// Writes the confirmation for a created event.
pub fn confirmation_message(response: &GoogleCalendarResponse) -> (message: String)
    ensures
        message@ == confirmation_text(response@),
        contains_text(message@, or_unknown(response.summary.deep_view())),
        contains_text(message@, or_unknown(response.id.deep_view())),
{
    proof {
        lemma_contains_between(
            CONFIRMATION_HEAD@,
            or_unknown(response.summary.deep_view()),
            CONFIRMATION_MIDDLE@ + or_unknown(response.id.deep_view()),
        );
        lemma_contains_suffix(
            CONFIRMATION_HEAD@ + or_unknown(response.summary.deep_view()) + CONFIRMATION_MIDDLE@,
            or_unknown(response.id.deep_view()),
        );
        assert(confirmation_text(response@) =~= CONFIRMATION_HEAD@ + or_unknown(
            response.summary.deep_view(),
        ) + (CONFIRMATION_MIDDLE@ + or_unknown(response.id.deep_view())));
    }
    let mut message = String::from_str(CONFIRMATION_HEAD);
    message.append(text_or_unknown(&response.summary));
    message.append(CONFIRMATION_MIDDLE);
    message.append(text_or_unknown(&response.id));
    message
}

} // verus!
