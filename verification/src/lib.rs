//! Tool adapters for a host that speaks a request/response protocol: a
//! calendar adapter that plans one REST call per created event and reads the
//! reply, and a small UI component catalogue.
//!
//! The library performs no I/O. To create an event, a caller
//!
//! 1. reads the settings into an [`Environment`],
//! 2. asks [`GoogleCalendar::create_event`] or [`GoogleCalendar::add_event`]
//!    for the request, and gets an [`OutboundRequest`] or the
//!    [`CalendarError`] that ends the call before anything is sent,
//! 3. sends the request, once, and puts what came back into an
//!    [`UpstreamReply`],
//! 4. hands the reply to [`GoogleCalendar::confirm_event`] for the message
//!    that goes to the host.
//!
//! Every function is verified against its contract. What is taken on trust
//! from the chrono crate is said in [`timestamp`].

pub mod descriptor;
pub mod error;
pub mod event;
pub mod exchange;
pub mod google_calendar;
pub mod text;
pub mod timestamp;
pub mod ui_library;

pub use crate::descriptor::ServerDescriptor;
pub use crate::error::CalendarError;
pub use crate::event::{
    AddEventArgs, CreateEventArgs, EventDateTime, GoogleCalendarEvent, GoogleCalendarResponse,
};
pub use crate::exchange::{Environment, OutboundRequest, UpstreamReply};
pub use crate::google_calendar::GoogleCalendar;
pub use crate::timestamp::Timestamp;
pub use crate::ui_library::UILibrary;
