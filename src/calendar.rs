//! Whole calendars: the interchange document, the outline text, and the
//! decisions of fetching a user's events page by page.
use vstd::prelude::*;

use crate::event::{
    replace_char, link_prefix,
    event_lines, event_time_range, ical_event_lines, ical_event_plain, ics_timing_matches, normalizes_to, notion_link, org_block, Event, IcsEntry,
    NormalizeError, RawRecord,
};
use crate::lines::{join_lines, lemma_no_newline_concat, lemma_split_join, no_newline, split_lines};
use crate::temporal::{
    digit_char, ics_timestamp_text, outline_clock, outline_date, outline_day, outline_token,
    outline_value, pad2, pad4, push_char, weekday_abbrev, CalendarDate, TemporalValue, Timestamp,
};

verus! {

/// The two renderings of a calendar.
#[derive(Clone, Copy, Debug, PartialEq, Eq, Structural)]
pub enum CalendarFormat {
    Ical,
    Org,
}

/// What to do after a page of query results came back; `C` is the
/// provider's continuation cursor.
#[derive(Clone, Debug)]
pub enum PageRequest<C> {
    /// Ask for the next page, from this cursor.
    Next { cursor: Option<C> },
    /// All pages have been read.
    Finished,
}

pub open spec fn all_wf(events: Seq<Event>) -> bool {
    forall|i: int| 0 <= i < events.len() ==> #[trigger] events[i].wf()
}

/// The outline blocks of the events, in order, separated by blank lines.
pub open spec fn org_calendar_text(events: Seq<Event>) -> Seq<char>
    decreases events.len(),
{
    if events.len() == 0 {
        seq![]
    } else if events.len() == 1 {
        org_block(events[0])
    } else {
        org_calendar_text(events.drop_last()) + seq!['\n', '\n'] + org_block(events.last())
    }
}

/// The pieces after the first of a folded line: 74 characters each.
pub open spec fn fold_tail(s: Seq<char>) -> Seq<char>
    decreases s.len(),
{
    if s.len() <= 74 {
        s
    } else {
        s.take(74) + "\r\n "@ + fold_tail(s.skip(74))
    }
}

/// A content line folded as ical's generator folds it: a first piece of 75
/// characters, then pieces of 74, joined by CRLF and a space.
pub open spec fn fold_line(s: Seq<char>) -> Seq<char> {
    if s.len() <= 75 {
        s
    } else {
        s.take(75) + "\r\n "@ + fold_tail(s.skip(75))
    }
}

/// Each line folded and ended by CRLF.
pub open spec fn lines_text(lines: Seq<Seq<char>>) -> Seq<char>
    decreases lines.len(),
{
    if lines.len() == 0 {
        seq![]
    } else {
        lines_text(lines.drop_last()) + fold_line(lines.last()) + "\r\n"@
    }
}

/// The event components, in order, each given by its lines.
pub open spec fn events_text(events: Seq<Seq<Seq<char>>>) -> Seq<char>
    decreases events.len(),
{
    if events.len() == 0 {
        seq![]
    } else {
        events_text(events.drop_last()) + "BEGIN:VEVENT\r\n"@ + lines_text(events.last())
            + "END:VEVENT\r\n"@
    }
}

/// The calendar interchange document: version 2.0, Gregorian scale, the
/// product id, then the event components in order.
pub open spec fn ical_document(prod_id: Seq<char>, events: Seq<Seq<Seq<char>>>) -> Seq<char> {
    "BEGIN:VCALENDAR\r\n"@ + lines_text(
        seq!["VERSION:2.0"@, "CALSCALE:GREGORIAN"@, "PRODID:"@ + prod_id],
    ) + events_text(events) + "END:VCALENDAR\r\n"@
}

/// Relies on ical's `IcalCalendarBuilder` (`version`, `gregorian`, `prodid`,
/// `build`), which pushes the three properties in that order, and on
/// `Emitter::generate`, which writes the calendar's properties, then its
/// (here no) time zones, its events in order, and no other components. Each
/// event is written as its properties and alarms; the `requires` rules out
/// alarms and the empty parameter values on which `protect_params` panics.
#[verifier::external_body]
fn ical_calendar_text(prod_id: &str, events: Vec<ical::generator::IcalEvent>) -> (r: String)
    requires
        forall|i: int| 0 <= i < events@.len() ==> ical_event_plain(#[trigger] events@[i]),
    ensures
        r@ == ical_document(prod_id@, events@.map_values(|e: ical::generator::IcalEvent| ical_event_lines(e))),
{
    let mut cal = ical::generator::IcalCalendarBuilder::version("2.0").gregorian().prodid(
        prod_id,
    ).build();
    cal.events.extend(events);
    ical::generator::Emitter::generate(&cal)
}

/// The lines of each event's component.
pub open spec fn all_event_lines(events: Seq<Event>) -> Seq<Seq<Seq<char>>> {
    events.map_values(|e: Event| event_lines(e))
}

/// The calendar interchange document of the events, in input order, with
/// version 2.0 and the given product id.
pub fn generate_ical_calendar(events: Vec<Event>, prod_id: &str) -> (r: String)
    requires
        all_wf(events@),
    ensures
        r@ == ical_document(prod_id@, all_event_lines(events@)),
{
    let mut components: Vec<ical::generator::IcalEvent> = Vec::new();
    let mut i: usize = 0;
    while i < events.len()
        invariant
            all_wf(events@),
            i <= events@.len(),
            components@.len() == i,
            forall|j: int| 0 <= j < i ==> ical_event_lines(#[trigger] components@[j]) == event_lines(events@[j]),
            forall|j: int| 0 <= j < i ==> ical_event_plain(#[trigger] components@[j]),
        decreases events@.len() - i,
    {
        components.push(events[i].to_ical());
        i = i + 1;
    }
    assert(components@.map_values(|e: ical::generator::IcalEvent| ical_event_lines(e))
        =~= all_event_lines(events@));
    ical_calendar_text(prod_id, components)
}

/// The interchange field values of each event, in input order.
pub fn ical_entries(events: &Vec<Event>) -> (r: Vec<IcsEntry>)
    requires
        all_wf(events@),
    ensures
        r@.len() == events@.len(),
        forall|i: int|
            0 <= i < events@.len() ==> {
                let e = #[trigger] events@[i];
                &&& r@[i].uid@ == e.id@
                &&& r@[i].stamp@ == ics_timestamp_text(e.changed)
                &&& ics_timing_matches(r@[i].timing, e.start, e.end)
                &&& r@[i].summary@ == e.title@
                &&& r@[i].description@ == notion_link(e.title@, e.id@)
            },
{
    let mut r: Vec<IcsEntry> = Vec::new();
    let mut i: usize = 0;
    while i < events.len()
        invariant
            all_wf(events@),
            i <= events@.len(),
            r@.len() == i,
            forall|j: int|
                0 <= j < i ==> {
                    let e = #[trigger] events@[j];
                    &&& r@[j].uid@ == e.id@
                    &&& r@[j].stamp@ == ics_timestamp_text(e.changed)
                    &&& ics_timing_matches(r@[j].timing, e.start, e.end)
                    &&& r@[j].summary@ == e.title@
                    &&& r@[j].description@ == notion_link(e.title@, e.id@)
                },
        decreases events@.len() - i,
    {
        r.push(events[i].ics_entry());
        i = i + 1;
    }
    r
}

/// The outline text of the events: one block each, in input order, joined
/// by blank lines.
pub fn generate_org_calendar(events: Vec<Event>) -> (r: String)
    requires
        all_wf(events@),
    ensures
        r@ == org_calendar_text(events@),
{
    let mut s = String::new();
    let mut i: usize = 0;
    while i < events.len()
        invariant
            all_wf(events@),
            i <= events@.len(),
            s@ == org_calendar_text(events@.subrange(0, i as int)),
        decreases events@.len() - i,
    {
        let block = events[i].to_org();
        if i > 0 {
            push_char(&mut s, '\n');
            push_char(&mut s, '\n');
        }
        s.append(block.as_str());
        assert(events@.subrange(0, i + 1).drop_last() =~= events@.subrange(0, i as int));
        assert(s@ =~= org_calendar_text(events@.subrange(0, i + 1)));
        i = i + 1;
    }
    assert(events@.subrange(0, events@.len() as int) =~= events@);
    s
}

/// The calendar of the events in the chosen format.
pub fn render_calendar(events: Vec<Event>, format: CalendarFormat, prod_id: &str) -> (r: String)
    requires
        all_wf(events@),
    ensures
        format == CalendarFormat::Org ==> r@ == org_calendar_text(events@),
        format == CalendarFormat::Ical ==> r@ == ical_document(prod_id@, all_event_lines(events@)),
{
    match format {
        CalendarFormat::Ical => generate_ical_calendar(events, prod_id),
        CalendarFormat::Org => generate_org_calendar(events),
    }
}

/// After a page of results: ask for the next one from `next_cursor` while
/// the provider reports more, else stop.
pub fn after_page<C>(has_more: bool, next_cursor: Option<C>) -> (r: PageRequest<C>)
    ensures
        has_more ==> (r matches PageRequest::Next { cursor } && cursor == next_cursor),
        !has_more ==> r is Finished,
{
    if has_more {
        PageRequest::Next { cursor: next_cursor }
    } else {
        PageRequest::Finished
    }
}

/// Normalizes a page of records onto the end of `events`, in order. One
/// record without a usable event time fails the whole batch and leaves
/// `events` as it was.
pub fn normalize_records(events: &mut Vec<Event>, records: Vec<RawRecord>) -> (r: Result<
    (),
    NormalizeError,
>)
    requires
        forall|i: int| 0 <= i < records@.len() ==> #[trigger] records@[i].wf(),
        all_wf(old(events)@),
    ensures
        r is Ok <==> forall|i: int|
            0 <= i < records@.len() ==> (event_time_range(#[trigger] records@[i].event_time) is Some),
        r is Err ==> r == Err::<(), NormalizeError>(NormalizeError::MissingTimeProperty),
        r is Err ==> final(events)@ == old(events)@,
        r is Ok ==> {
            &&& final(events)@.len() == old(events)@.len() + records@.len()
            &&& final(events)@.subrange(0, old(events)@.len() as int) == old(events)@
            &&& forall|i: int|
                0 <= i < records@.len() ==> normalizes_to(
                    #[trigger] records@[i],
                    final(events)@[old(events)@.len() + i],
                )
            &&& all_wf(final(events)@)
        },
{
    let ghost all = records@;
    let mut fresh: Vec<Event> = Vec::new();
    let mut rest = records;
    let n = rest.len();
    let mut k: usize = 0;
    while rest.len() > 0
        invariant
            all.len() == n,
            all == records@,
            k + rest@.len() == all.len(),
            rest@ == all.subrange(k as int, all.len() as int),
            forall|i: int| 0 <= i < all.len() ==> #[trigger] all[i].wf(),
            forall|i: int| 0 <= i < k ==> (event_time_range(#[trigger] all[i].event_time) is Some),
            fresh@.len() == k,
            forall|i: int| 0 <= i < k ==> normalizes_to(#[trigger] all[i], fresh@[i]),
            all_wf(fresh@),
        decreases rest@.len(),
    {
        let record = rest.remove(0);
        assert(record == all[k as int]);
        match Event::from_record(record) {
            Ok(e) => {
                fresh.push(e);
                k = k + 1;
                assert(rest@ =~= all.subrange(k as int, all.len() as int));
            },
            Err(err) => {
                assert(!(event_time_range(records@[k as int].event_time) is Some));
                return Err(err);
            },
        }
    }
    assert(k == all.len());
    let ghost base = events@;
    let ghost fresh_before = fresh@;
    events.append(&mut fresh);
    assert(events@.subrange(0, base.len() as int) =~= base);
    assert forall|i: int| 0 <= i < records@.len() implies normalizes_to(
        #[trigger] records@[i],
        events@[base.len() + i],
    ) by {
        assert(events@[base.len() + i] == fresh_before[i]);
    }
    assert forall|i: int| 0 <= i < events@.len() implies #[trigger] events@[i].wf() by {
        if i < base.len() {
            assert(events@[i] == base[i]);
        } else {
            assert(events@[i] == fresh_before[i - base.len()]);
        }
    }
    Ok(())
}

/// The timestamp of an event's outline block depends on its start and end
/// alone: two events with the same start and end, whatever their titles and
/// ids, get the same token, and each block holds that token.
pub proof fn outline_timestamp_ignores_identity(a: Event, b: Event)
    requires
        a.start == b.start,
        a.end == b.end,
    ensures
        outline_token(a.start, a.end) == outline_token(b.start, b.end),
        org_block(a) == seq!['*', ' '] + a.title@ + "\n  :PROPERTIES:\n  :ID: "@ + a.id@
            + "\n  :END:\n  "@ + outline_token(b.start, b.end) + "\n  "@ + notion_link(
            a.title@,
            a.id@,
        ),
{
}

/// Rendering the same events twice gives the same outline text, the same
/// interchange document for the same product id, and the same interchange
/// field values.
pub proof fn rendering_is_deterministic(
    a: Seq<Event>,
    b: Seq<Event>,
    p: Seq<char>,
    q: Seq<char>,
    x: Seq<IcsEntry>,
    y: Seq<IcsEntry>,
)
    requires
        a == b,
        p == q,
        x.len() == a.len(),
        y.len() == b.len(),
        forall|i: int|
            0 <= i < a.len() ==> {
                let e = #[trigger] a[i];
                &&& x[i].uid@ == e.id@
                &&& x[i].stamp@ == ics_timestamp_text(e.changed)
                &&& ics_timing_matches(x[i].timing, e.start, e.end)
                &&& x[i].summary@ == e.title@
                &&& x[i].description@ == notion_link(e.title@, e.id@)
            },
        forall|i: int|
            0 <= i < b.len() ==> {
                let e = #[trigger] b[i];
                &&& y[i].uid@ == e.id@
                &&& y[i].stamp@ == ics_timestamp_text(e.changed)
                &&& ics_timing_matches(y[i].timing, e.start, e.end)
                &&& y[i].summary@ == e.title@
                &&& y[i].description@ == notion_link(e.title@, e.id@)
            },
    ensures
        org_calendar_text(a) == org_calendar_text(b),
        ical_document(p, all_event_lines(a)) == ical_document(q, all_event_lines(b)),
        forall|i: int|
            0 <= i < x.len() ==> {
                &&& (#[trigger] x[i]).uid@ == y[i].uid@
                &&& x[i].stamp@ == y[i].stamp@
                &&& x[i].summary@ == y[i].summary@
                &&& x[i].description@ == y[i].description@
                &&& timing_text(x[i].timing) == timing_text(y[i].timing)
            },
{
    assert forall|i: int| 0 <= i < x.len() implies {
        &&& (#[trigger] x[i]).uid@ == y[i].uid@
        &&& x[i].stamp@ == y[i].stamp@
        &&& x[i].summary@ == y[i].summary@
        &&& x[i].description@ == y[i].description@
        &&& timing_text(x[i].timing) == timing_text(y[i].timing)
    } by {
        let e = a[i];
        assert(b[i] == e);
        assert(ics_timing_matches(x[i].timing, e.start, e.end));
        assert(ics_timing_matches(y[i].timing, e.start, e.end));
    }
}

/// A calendar of no events is the header alone: version 2.0, Gregorian
/// scale and the product id, with no event component.
pub proof fn empty_calendar_has_no_events(p: Seq<char>)
    ensures
        ical_document(p, all_event_lines(Seq::<Event>::empty())) == "BEGIN:VCALENDAR\r\n"@
            + lines_text(seq!["VERSION:2.0"@, "CALSCALE:GREGORIAN"@, "PRODID:"@ + p])
            + "END:VCALENDAR\r\n"@,
{
    assert(all_event_lines(Seq::<Event>::empty()) =~= Seq::<Seq<Seq<char>>>::empty());
    assert(events_text(Seq::<Seq<Seq<char>>>::empty()) =~= Seq::<char>::empty());
}

/// The variant of a timing with the texts it holds.
pub open spec fn timing_text(t: crate::event::IcsTiming) -> (int, Seq<char>, Seq<char>) {
    match t {
        crate::event::IcsTiming::DayRange { first_day, last_day } => (0, first_day@, last_day@),
        crate::event::IcsTiming::OneDay { day } => (1, day@, seq![]),
        crate::event::IcsTiming::Timed { from, until } => (2, from@, until@),
    }
}

proof fn lemma_digits_plain(n: int)
    ensures
        no_newline(pad2(n)),
        no_newline(pad4(n)),
{
    assert(forall|x: int| digit_char(x) != '\n');
}

proof fn lemma_outline_day_plain(d: CalendarDate)
    ensures
        no_newline(outline_day(d)),
{
    lemma_digits_plain(d.year as int);
    lemma_digits_plain(d.month as int);
    lemma_digits_plain(d.day as int);
    assert(no_newline(weekday_abbrev(d.weekday())));
    let dash = seq!['-'];
    let sp = seq![' '];
    lemma_no_newline_concat(pad4(d.year as int), dash);
    lemma_no_newline_concat(pad4(d.year as int) + dash, pad2(d.month as int));
    lemma_no_newline_concat(pad4(d.year as int) + dash + pad2(d.month as int), dash);
    lemma_no_newline_concat(pad4(d.year as int) + dash + pad2(d.month as int) + dash, pad2(d.day as int));
    lemma_no_newline_concat(
        pad4(d.year as int) + dash + pad2(d.month as int) + dash + pad2(d.day as int),
        sp,
    );
    lemma_no_newline_concat(
        pad4(d.year as int) + dash + pad2(d.month as int) + dash + pad2(d.day as int) + sp,
        weekday_abbrev(d.weekday()),
    );
}

proof fn lemma_outline_clock_plain(t: Timestamp)
    ensures
        no_newline(outline_clock(t)),
{
    lemma_digits_plain(t.hour as int);
    lemma_digits_plain(t.minute as int);
    lemma_no_newline_concat(pad2(t.hour as int), seq![':']);
    lemma_no_newline_concat(pad2(t.hour as int) + seq![':'], pad2(t.minute as int));
}

proof fn lemma_outline_value_plain(v: TemporalValue)
    ensures
        no_newline(outline_value(v)),
{
    lemma_outline_day_plain(v.day());
    match v {
        TemporalValue::Date(d) => {
            lemma_no_newline_concat(seq!['<'], outline_day(d));
            lemma_no_newline_concat(seq!['<'] + outline_day(d), seq!['>']);
        },
        TemporalValue::DateTime(t) => {
            lemma_outline_clock_plain(t);
            lemma_no_newline_concat(seq!['<'], outline_day(t.date));
            lemma_no_newline_concat(seq!['<'] + outline_day(t.date), seq![' ']);
            lemma_no_newline_concat(seq!['<'] + outline_day(t.date) + seq![' '], outline_clock(t));
            lemma_no_newline_concat(
                seq!['<'] + outline_day(t.date) + seq![' '] + outline_clock(t),
                seq!['>'],
            );
        },
    }
}

proof fn lemma_outline_token_plain(start: TemporalValue, end: Option<TemporalValue>)
    ensures
        no_newline(outline_token(start, end)),
{
    lemma_outline_value_plain(start);
    match end {
        None => {},
        Some(e) => {
            lemma_outline_value_plain(e);
            if start.day() == e.day() {
                match (start, e) {
                    (TemporalValue::DateTime(a), TemporalValue::DateTime(b)) => {
                        lemma_outline_day_plain(a.date);
                        lemma_outline_clock_plain(a);
                        lemma_outline_clock_plain(b);
                        let p1 = seq!['<'] + outline_day(a.date);
                        lemma_no_newline_concat(seq!['<'], outline_day(a.date));
                        lemma_no_newline_concat(p1, seq![' ']);
                        lemma_no_newline_concat(p1 + seq![' '], outline_clock(a));
                        lemma_no_newline_concat(p1 + seq![' '] + outline_clock(a), seq!['-']);
                        lemma_no_newline_concat(
                            p1 + seq![' '] + outline_clock(a) + seq!['-'],
                            outline_clock(b),
                        );
                        lemma_no_newline_concat(
                            p1 + seq![' '] + outline_clock(a) + seq!['-'] + outline_clock(b),
                            seq!['>'],
                        );
                    },
                    _ => {},
                }
            } else {
                lemma_no_newline_concat(outline_value(start), seq!['-', '-']);
                lemma_no_newline_concat(outline_value(start) + seq!['-', '-'], outline_value(e));
            }
        },
    }
}

proof fn lemma_replace_plain(s: Seq<char>, from: char, to: Seq<char>)
    requires
        no_newline(s),
        no_newline(to),
    ensures
        no_newline(replace_char(s, from, to)),
    decreases s.len(),
{
    if s.len() > 0 {
        assert(no_newline(s.drop_last()));
        lemma_replace_plain(s.drop_last(), from, to);
        if s.last() != from {
            assert(no_newline(seq![s.last()]));
            lemma_no_newline_concat(replace_char(s.drop_last(), from, to), seq![s.last()]);
        } else {
            lemma_no_newline_concat(replace_char(s.drop_last(), from, to), to);
        }
    }
}

proof fn lemma_link_plain(title: Seq<char>, id: Seq<char>)
    requires
        no_newline(title),
        no_newline(id),
    ensures
        no_newline(notion_link(title, id)),
{
    reveal_strlit("https://www.notion.so/");
    assert(no_newline(link_prefix()));
    lemma_replace_plain(title, ' ', seq!['-']);
    lemma_replace_plain(id, '-', seq![]);
    let a = link_prefix() + replace_char(title, ' ', seq!['-']);
    lemma_no_newline_concat(link_prefix(), replace_char(title, ' ', seq!['-']));
    lemma_no_newline_concat(a, seq!['-']);
    lemma_no_newline_concat(a + seq!['-'], replace_char(id, '-', seq![]));
}

/// The lines of an event's outline block: heading, the three lines of the
/// property drawer, the timestamp, the link.
pub open spec fn org_block_lines(e: Event) -> Seq<Seq<char>> {
    seq![
        seq!['*', ' '] + e.title@,
        "  :PROPERTIES:"@,
        "  :ID: "@ + e.id@,
        "  :END:"@,
        seq![' ', ' '] + outline_token(e.start, e.end),
        seq![' ', ' '] + notion_link(e.title@, e.id@),
    ]
}

/// Where title and id hold no line break, an event's outline block has six
/// lines, and its fifth is the timestamp token, indented by two spaces.
pub proof fn outline_block_timestamp_line(e: Event)
    requires
        no_newline(e.title@),
        no_newline(e.id@),
    ensures
        split_lines(org_block(e)) == org_block_lines(e),
        split_lines(org_block(e))[4] == seq![' ', ' '] + outline_token(e.start, e.end),
{
    reveal_strlit("\n  :PROPERTIES:\n  :ID: ");
    reveal_strlit("\n  :END:\n  ");
    reveal_strlit("\n  ");
    reveal_strlit("  :PROPERTIES:");
    reveal_strlit("  :ID: ");
    reveal_strlit("  :END:");
    let ls = org_block_lines(e);
    lemma_outline_token_plain(e.start, e.end);
    lemma_link_plain(e.title@, e.id@);
    let sp = seq![' ', ' '];
    assert(no_newline(sp));
    assert(no_newline(seq!['*', ' ']));
    lemma_no_newline_concat(seq!['*', ' '], e.title@);
    assert(no_newline("  :ID: "@));
    lemma_no_newline_concat("  :ID: "@, e.id@);
    lemma_no_newline_concat(sp, outline_token(e.start, e.end));
    lemma_no_newline_concat(sp, notion_link(e.title@, e.id@));
    assert(no_newline(ls[1]));
    assert(no_newline(ls[3]));
    assert forall|i: int| 0 <= i < ls.len() implies no_newline(#[trigger] ls[i]) by {
        if i == 0 {
        } else if i == 1 {
        } else if i == 2 {
        } else if i == 3 {
        } else if i == 4 {
        } else {
        }
    }
    lemma_split_join(ls);
    reveal_with_fuel(join_lines, 7);
    assert(ls.drop_last().drop_last().drop_last().drop_last().drop_last() =~= seq![ls[0]]);
    assert(join_lines(ls) =~= org_block(e));
}

/// The timestamp line of an outline block depends on the event's start and
/// end alone: two events with the same start and end, whose titles and ids
/// hold no line break, have the same fifth line.
pub proof fn outline_timestamp_line_ignores_identity(a: Event, b: Event)
    requires
        a.start == b.start,
        a.end == b.end,
        no_newline(a.title@),
        no_newline(a.id@),
        no_newline(b.title@),
        no_newline(b.id@),
    ensures
        split_lines(org_block(a))[4] == split_lines(org_block(b))[4],
{
    outline_block_timestamp_line(a);
    outline_block_timestamp_line(b);
}

/// A date event without end shows one date-only token on its timestamp line.
pub proof fn outline_single_date_line(e: Event, d: CalendarDate)
    requires
        e.start == TemporalValue::Date(d),
        e.end is None,
        no_newline(e.title@),
        no_newline(e.id@),
    ensures
        split_lines(org_block(e))[4] == seq![' ', ' '] + outline_date(d),
{
    outline_block_timestamp_line(e);
}

} // verus!
