//! Calendar feeds built from event records: normalization of date-or-timestamp
//! values and their rendering as an iCalendar document or as outline markup.
pub mod calendar;
pub mod event;
pub mod lines;
pub mod external;
pub mod temporal;

pub use calendar::{
    after_page, generate_ical_calendar, generate_org_calendar, ical_entries, normalize_records,
    render_calendar, CalendarFormat, PageRequest,
};
pub use event::{DateRange, Event, EventTimeProperty, IcsEntry, IcsTiming, NormalizeError, RawRecord};
pub use temporal::{fmt_datetime, fmt_datetime_org_format, CalendarDate, TemporalValue, Timestamp};
