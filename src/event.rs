//! Events: normalization of raw records, back-links, and the per-event parts
//! of both renderings.
use vstd::prelude::*;
use vstd::string::*;

use ical::generator::Property as IcalProperty;

use crate::temporal::{
    copied, fmt_datetime, fmt_datetime_org_format, ics_text, ics_timestamp_text, outline_token,
    push_char, TemporalValue, Timestamp,
};

verus! {

/// An event taken from one record of the event database.
#[derive(Clone, Debug)]
pub struct Event {
    pub id: String,
    pub title: String,
    pub changed: Timestamp,
    pub start: TemporalValue,
    pub end: Option<TemporalValue>,
}

/// The start and optional end of an event's date property.
#[derive(Clone, Copy, Debug, PartialEq, Eq, Structural)]
pub struct DateRange {
    pub start: TemporalValue,
    pub end: Option<TemporalValue>,
}

/// What a record holds under its "Event time" property.
#[derive(Clone, Copy, Debug, PartialEq, Eq, Structural)]
pub enum EventTimeProperty {
    /// The record has no such property.
    Missing,
    /// The property is there but is not a date property.
    NotADate,
    /// A date property, whose date may be null.
    Date(Option<DateRange>),
}

/// A record as fetched from the event database.
#[derive(Clone, Debug)]
pub struct RawRecord {
    pub id: String,
    /// The text of the record's title property, where it has one.
    pub title: Option<String>,
    pub last_edited: Timestamp,
    pub event_time: EventTimeProperty,
}

/// Why a record could not become an event.
#[derive(Clone, Copy, Debug, PartialEq, Eq, Structural)]
pub enum NormalizeError {
    /// The record has no usable "Event time" value.
    MissingTimeProperty,
}

pub open spec fn opt_wf(v: Option<TemporalValue>) -> bool {
    match v {
        Some(e) => e.wf(),
        None => true,
    }
}

impl Event {
    pub open spec fn wf(&self) -> bool {
        &&& self.changed.wf()
        &&& self.start.wf()
        &&& opt_wf(self.end)
    }

    pub fn new(
        id: String,
        title: String,
        changed: Timestamp,
        start: TemporalValue,
        end: Option<TemporalValue>,
    ) -> (r: Event)
        ensures
            r == (Event { id, title, changed, start, end }),
    {
        Event { id, title, changed, start, end }
    }
}

impl RawRecord {
    pub open spec fn wf(&self) -> bool {
        &&& self.last_edited.wf()
        &&& match self.event_time {
            EventTimeProperty::Date(Some(range)) => range.start.wf() && opt_wf(range.end),
            _ => true,
        }
    }
}

/// The title shown for an event whose record has none.
pub open spec fn placeholder_title() -> Seq<char> {
    seq!['N', 'o', ' ', 'T', 'i', 't', 'l', 'e']
}

pub open spec fn title_or_placeholder(title: Option<String>) -> Seq<char> {
    match title {
        Some(t) => t@,
        None => placeholder_title(),
    }
}

/// The date range of a record's "Event time" property, where it has one.
pub open spec fn event_time_range(p: EventTimeProperty) -> Option<DateRange> {
    match p {
        EventTimeProperty::Date(Some(range)) => Some(range),
        _ => None,
    }
}

/// `e` is the event that record `r` becomes.
pub open spec fn normalizes_to(r: RawRecord, e: Event) -> bool {
    &&& event_time_range(r.event_time) is Some
    &&& e.id@ == r.id@
    &&& e.title@ == title_or_placeholder(r.title)
    &&& e.changed == r.last_edited
    &&& e.start == event_time_range(r.event_time)->0.start
    &&& e.end == event_time_range(r.event_time)->0.end
}

/// `s` with every `from` replaced by `to`.
pub open spec fn replace_char(s: Seq<char>, from: char, to: Seq<char>) -> Seq<char>
    decreases s.len(),
{
    if s.len() == 0 {
        seq![]
    } else {
        replace_char(s.drop_last(), from, to) + if s.last() == from {
            to
        } else {
            seq![s.last()]
        }
    }
}

pub open spec fn link_prefix() -> Seq<char> {
    "https://www.notion.so/"@
}

/// The link back to a record: the title with spaces made hyphens, a hyphen,
/// then the id with its hyphens taken out.
pub open spec fn notion_link(title: Seq<char>, id: Seq<char>) -> Seq<char> {
    link_prefix() + replace_char(title, ' ', seq!['-']) + seq!['-'] + replace_char(id, '-', seq![])
}

/// The outline block of one event.
pub open spec fn org_block(e: Event) -> Seq<char> {
    seq!['*', ' '] + e.title@ + "\n  :PROPERTIES:\n  :ID: "@ + e.id@ + "\n  :END:\n  "@
        + outline_token(e.start, e.end) + "\n  "@ + notion_link(e.title@, e.id@)
}

/// The text form of an event's start and end in the calendar interchange
/// document, by the kind of event.
#[derive(Clone, Debug)]
pub enum IcsTiming {
    /// All-day event over a range of days.
    DayRange { first_day: String, last_day: String },
    /// All-day event of a single day.
    OneDay { day: String },
    /// Event with a start time; `until` is empty where there is no end.
    Timed { from: String, until: String },
}

/// The field values of one event in the calendar interchange document.
#[derive(Clone, Debug)]
pub struct IcsEntry {
    pub uid: String,
    pub stamp: String,
    pub timing: IcsTiming,
    pub summary: String,
    pub description: String,
}

/// The timing that an event from `start` to `end` gets.
pub open spec fn ics_timing_matches(t: IcsTiming, start: TemporalValue, end: Option<TemporalValue>) -> bool {
    match start {
        TemporalValue::Date(_) => match end {
            Some(e) => t is DayRange && t->first_day@ == ics_text(start) && t->last_day@ == ics_text(e),
            None => t is OneDay && t->day@ == ics_text(start),
        },
        TemporalValue::DateTime(_) => {
            &&& t is Timed
            &&& t->from@ == ics_text(start)
            &&& t->until@ == match end {
                Some(e) => ics_text(e),
                None => Seq::<char>::empty(),
            }
        },
    }
}

/// Appends `s` to `out`, each `from` replaced by `to`.
fn push_replaced(out: &mut String, s: &str, from: char, to: &str)
    ensures
        final(out)@ == old(out)@ + replace_char(s@, from, to@),
{
    let n = s.unicode_len();
    let mut i: usize = 0;
    while i < n
        invariant
            n == s@.len(),
            i <= n,
            out@ == old(out)@ + replace_char(s@.subrange(0, i as int), from, to@),
        decreases n - i,
    {
        let c = s.get_char(i);
        if c == from {
            out.append(to);
        } else {
            push_char(out, c);
        }
        assert(s@.subrange(0, i + 1).drop_last() =~= s@.subrange(0, i as int));
        assert(out@ =~= old(out)@ + replace_char(s@.subrange(0, i + 1), from, to@));
        i = i + 1;
    }
    assert(s@.subrange(0, n as int) =~= s@);
}

/// Appends the back-link of the record with this title and id.
fn push_link(out: &mut String, title: &str, id: &str)
    ensures
        final(out)@ == old(out)@ + notion_link(title@, id@),
{
    proof {
        reveal_strlit("https://www.notion.so/");
        reveal_strlit("-");
        reveal_strlit("");
        assert("-"@ =~= seq!['-']);
        assert(""@ =~= Seq::<char>::empty());
    }
    out.append("https://www.notion.so/");
    push_replaced(out, title, ' ', "-");
    push_char(out, '-');
    push_replaced(out, id, '-', "");
    assert(out@ =~= old(out)@ + notion_link(title@, id@));
}

/// The unfolded text lines that ical's `Emitter::generate` writes for the
/// properties of an event component, in order (`NAME;PARAMS:VALUE`). The
/// component's alarms, which it writes after them, are not among these.
pub uninterp spec fn ical_event_lines(e: ical::generator::IcalEvent) -> Seq<Seq<char>>;

/// The event component has no alarms, and none of its parameter values is
/// empty (ical's `protect_params` panics on an empty one).
pub uninterp spec fn ical_event_plain(e: ical::generator::IcalEvent) -> bool;

/// The lines of an event's component in the calendar interchange document.
pub open spec fn event_lines(e: Event) -> Seq<Seq<char>> {
    let timing = match e.start {
        TemporalValue::Date(_) => match e.end {
            Some(x) => seq![
                "DTSTART;VALUE=DATE:"@ + ics_text(e.start),
                "DTEND;VALUE=DATE:"@ + ics_text(x),
            ],
            None => seq!["DTSTART;VALUE=DATE:"@ + ics_text(e.start)],
        },
        TemporalValue::DateTime(_) => seq![
            "DTSTART;TZID=UTC:"@ + ics_text(e.start),
            "DTEND;TZID=UTC:"@ + match e.end {
                Some(x) => ics_text(x),
                None => Seq::<char>::empty(),
            },
        ],
    };
    seq!["UID:"@ + e.id@, "DTSTAMP:"@ + ics_timestamp_text(e.changed)] + timing + seq![
        "SUMMARY:"@ + e.title@,
        "DESCRIPTION:"@ + notion_link(e.title@, e.id@),
    ]
}

/// Relies on ical's `IcalEventBuilder` (`tzid`, `uid`, `changed_utc`,
/// `start_day`, `end_day`, `set`, `build`): each call pushes one property, in
/// call order, the only parameter values are `DATE`, and the event has no
/// alarms (`IcalEvent::new`).
#[verifier::external_body]
fn ical_day_range_event(
    uid: String,
    stamp: String,
    first_day: String,
    last_day: String,
    summary: String,
    description: String,
) -> (r: ical::generator::IcalEvent)
    ensures
        ical_event_lines(r) == seq![
            "UID:"@ + uid@,
            "DTSTAMP:"@ + stamp@,
            "DTSTART;VALUE=DATE:"@ + first_day@,
            "DTEND;VALUE=DATE:"@ + last_day@,
            "SUMMARY:"@ + summary@,
            "DESCRIPTION:"@ + description@,
        ],
        ical_event_plain(r),
{
    ical::generator::IcalEventBuilder::tzid("UTC").uid(uid).changed_utc(stamp)
        .start_day(first_day).end_day(last_day)
        .set(IcalProperty { name: "SUMMARY".into(), value: Some(summary), params: None })
        .set(IcalProperty { name: "DESCRIPTION".into(), value: Some(description), params: None }).build()
}

/// Relies on ical's `IcalEventBuilder` (`tzid`, `uid`, `changed_utc`,
/// `one_day`, `set`, `build`): each call pushes one property, in call order,
/// the only parameter value is `DATE`, and the event has no alarms
/// (`IcalEvent::new`).
#[verifier::external_body]
fn ical_one_day_event(
    uid: String,
    stamp: String,
    day: String,
    summary: String,
    description: String,
) -> (r: ical::generator::IcalEvent)
    ensures
        ical_event_lines(r) == seq![
            "UID:"@ + uid@,
            "DTSTAMP:"@ + stamp@,
            "DTSTART;VALUE=DATE:"@ + day@,
            "SUMMARY:"@ + summary@,
            "DESCRIPTION:"@ + description@,
        ],
        ical_event_plain(r),
{
    ical::generator::IcalEventBuilder::tzid("UTC").uid(uid).changed_utc(stamp).one_day(day)
        .set(IcalProperty { name: "SUMMARY".into(), value: Some(summary), params: None })
        .set(IcalProperty { name: "DESCRIPTION".into(), value: Some(description), params: None }).build()
}

/// Relies on ical's `IcalEventBuilder` (`tzid`, `uid`, `changed_utc`,
/// `start`, `end`, `set`, `build`): each call pushes one property, in call
/// order, `start` and `end` with the parameter `TZID=UTC`, and the event has
/// no alarms (`IcalEvent::new`).
#[verifier::external_body]
fn ical_timed_event(
    uid: String,
    stamp: String,
    from: String,
    until: String,
    summary: String,
    description: String,
) -> (r: ical::generator::IcalEvent)
    ensures
        ical_event_lines(r) == seq![
            "UID:"@ + uid@,
            "DTSTAMP:"@ + stamp@,
            "DTSTART;TZID=UTC:"@ + from@,
            "DTEND;TZID=UTC:"@ + until@,
            "SUMMARY:"@ + summary@,
            "DESCRIPTION:"@ + description@,
        ],
        ical_event_plain(r),
{
    ical::generator::IcalEventBuilder::tzid("UTC").uid(uid).changed_utc(stamp).start(from)
        .end(until).set(IcalProperty { name: "SUMMARY".into(), value: Some(summary), params: None })
        .set(IcalProperty { name: "DESCRIPTION".into(), value: Some(description), params: None }).build()
}

impl Event {
    /// The event that a record becomes; fails exactly where the record has
    /// no "Event time" date property or its date is null. A record without
    /// title gets the title "No Title".
    pub fn from_record(record: RawRecord) -> (r: Result<Event, NormalizeError>)
        requires
            record.wf(),
        ensures
            r is Err <==> event_time_range(record.event_time) is None,
            r is Err ==> r == Err::<Event, NormalizeError>(NormalizeError::MissingTimeProperty),
            r matches Ok(e) ==> normalizes_to(record, e) && e.wf(),
    {
        let range = match record.event_time {
            EventTimeProperty::Date(Some(range)) => range,
            _ => {
                return Err(NormalizeError::MissingTimeProperty);
            },
        };
        let title = match record.title {
            Some(t) => t,
            None => {
                proof {
                    reveal_strlit("No Title");
                }
                let t = String::from_str("No Title");
                assert(t@ =~= placeholder_title());
                t
            },
        };
        Ok(Event {
            id: record.id,
            title,
            changed: record.last_edited,
            start: range.start,
            end: range.end,
        })
    }

    /// The link back to the event's record.
    pub fn link_to_notion_event(&self) -> (r: String)
        ensures
            r@ == notion_link(self.title@, self.id@),
    {
        let mut s = String::new();
        push_link(&mut s, self.title.as_str(), self.id.as_str());
        s
    }

    /// The event as an outline block: heading, property drawer with the id,
    /// timestamp line and link line.
    pub fn to_org(&self) -> (r: String)
        requires
            self.wf(),
        ensures
            r@ == org_block(*self),
    {
        proof {
            reveal_strlit("\n  :PROPERTIES:\n  :ID: ");
            reveal_strlit("\n  :END:\n  ");
            reveal_strlit("\n  ");
        }
        let end = self.end.as_ref();
        assert(copied(end) == self.end);
        let timestamp = fmt_datetime_org_format(&self.start, end);
        let mut s = String::new();
        push_char(&mut s, '*');
        push_char(&mut s, ' ');
        s.append(self.title.as_str());
        s.append("\n  :PROPERTIES:\n  :ID: ");
        s.append(self.id.as_str());
        s.append("\n  :END:\n  ");
        s.append(timestamp.as_str());
        s.append("\n  ");
        push_link(&mut s, self.title.as_str(), self.id.as_str());
        assert(s@ =~= org_block(*self));
        s
    }

    /// The field values of the event in the calendar interchange document.
    pub fn ics_entry(&self) -> (r: IcsEntry)
        requires
            self.wf(),
        ensures
            r.uid@ == self.id@,
            r.stamp@ == ics_timestamp_text(self.changed),
            ics_timing_matches(r.timing, self.start, self.end),
            r.summary@ == self.title@,
            r.description@ == notion_link(self.title@, self.id@),
    {
        let stamp = fmt_datetime(&TemporalValue::DateTime(self.changed));
        let start = fmt_datetime(&self.start);
        let timing = match self.start {
            TemporalValue::Date(_) => match &self.end {
                Some(e) => IcsTiming::DayRange { first_day: start, last_day: fmt_datetime(e) },
                None => IcsTiming::OneDay { day: start },
            },
            TemporalValue::DateTime(_) => {
                let until = match &self.end {
                    Some(e) => fmt_datetime(e),
                    None => String::new(),
                };
                IcsTiming::Timed { from: start, until }
            },
        };
        IcsEntry {
            uid: self.id.clone(),
            stamp,
            timing,
            summary: self.title.clone(),
            description: self.link_to_notion_event(),
        }
    }

    /// The event as a component of the calendar interchange document, with
    /// the field values of `ics_entry`.
    pub fn to_ical(&self) -> (r: ical::generator::IcalEvent)
        requires
            self.wf(),
        ensures
            ical_event_lines(r) == event_lines(*self),
            ical_event_plain(r),
    {
        let entry = self.ics_entry();
        match entry.timing {
            IcsTiming::DayRange { first_day, last_day } => {
                let r = ical_day_range_event(
                    entry.uid,
                    entry.stamp,
                    first_day,
                    last_day,
                    entry.summary,
                    entry.description,
                );
                assert(ical_event_lines(r) =~= event_lines(*self));
                r
            },
            IcsTiming::OneDay { day } => {
                let r = ical_one_day_event(
                    entry.uid,
                    entry.stamp,
                    day,
                    entry.summary,
                    entry.description,
                );
                assert(ical_event_lines(r) =~= event_lines(*self));
                r
            },
            IcsTiming::Timed { from, until } => {
                let r = ical_timed_event(
                    entry.uid,
                    entry.stamp,
                    from,
                    until,
                    entry.summary,
                    entry.description,
                );
                assert(ical_event_lines(r) =~= event_lines(*self));
                r
            },
        }
    }
}

} // verus!
