use notion_calendar::{
    after_page, fmt_datetime, fmt_datetime_org_format, generate_ical_calendar,
    generate_org_calendar, ical_entries, normalize_records, render_calendar, CalendarDate,
    CalendarFormat, DateRange, Event, EventTimeProperty, IcsTiming, NormalizeError, PageRequest,
    RawRecord, TemporalValue, Timestamp,
};

fn date(y: i32, m: u32, d: u32) -> CalendarDate {
    CalendarDate::new(y, m, d).unwrap()
}

fn stamp(y: i32, mo: u32, d: u32, h: u32, mi: u32, s: u32) -> Timestamp {
    Timestamp::new(date(y, mo, d), h, mi, s).unwrap()
}

fn day_value(y: i32, m: u32, d: u32) -> TemporalValue {
    TemporalValue::Date(date(y, m, d))
}

fn time_value(y: i32, mo: u32, d: u32, h: u32, mi: u32) -> TemporalValue {
    TemporalValue::DateTime(stamp(y, mo, d, h, mi, 0))
}

fn event(title: &str, id: &str, start: TemporalValue, end: Option<TemporalValue>) -> Event {
    Event::new(
        id.to_string(),
        title.to_string(),
        stamp(2023, 11, 15, 11, 0, 0),
        start,
        end,
    )
}

fn record(title: Option<&str>, event_time: EventTimeProperty) -> RawRecord {
    RawRecord {
        id: "abc-123-def".to_string(),
        title: title.map(|t| t.to_string()),
        last_edited: stamp(2023, 11, 15, 11, 0, 0),
        event_time,
    }
}

#[test]
fn format_datetime() {
    let date_time = stamp(2023, 11, 15, 11, 00, 00);
    let formatted = fmt_datetime(&TemporalValue::DateTime(date_time));
    assert_eq!(formatted, "20231115T110000Z");
}

#[test]
fn format_date_for_ics() {
    assert_eq!(fmt_datetime(&day_value(2024, 1, 1)), "20240101");
    assert_eq!(fmt_datetime(&day_value(987, 3, 9)), "09870309");
}

#[test]
fn same_day_timed_range() {
    let start = time_value(2024, 1, 1, 9, 0);
    let end = time_value(2024, 1, 1, 17, 30);
    assert_eq!(
        fmt_datetime_org_format(&start, Some(&end)),
        "<2024-01-01 Mon 09:00-17:30>"
    );
}

#[test]
fn cross_day_timed_range() {
    let start = time_value(2024, 1, 1, 9, 0);
    let end = time_value(2024, 1, 2, 10, 0);
    assert_eq!(
        fmt_datetime_org_format(&start, Some(&end)),
        "<2024-01-01 Mon 09:00>--<2024-01-02 Tue 10:00>"
    );
}

#[test]
fn date_start_same_day_timestamp_end() {
    let start = day_value(2024, 1, 1);
    let end = time_value(2024, 1, 1, 23, 0);
    assert_eq!(fmt_datetime_org_format(&start, Some(&end)), "<2024-01-01 Mon>");
}

#[test]
fn date_start_later_timestamp_end() {
    let start = day_value(2024, 1, 1);
    let end = time_value(2024, 1, 3, 8, 5);
    assert_eq!(
        fmt_datetime_org_format(&start, Some(&end)),
        "<2024-01-01 Mon>--<2024-01-03 Wed 08:05>"
    );
}

#[test]
fn timestamp_start_same_day_date_end() {
    let start = time_value(2024, 2, 29, 14, 15);
    let end = day_value(2024, 2, 29);
    assert_eq!(fmt_datetime_org_format(&start, Some(&end)), "<2024-02-29 Thu 14:15>");
}

#[test]
fn timestamp_start_later_date_end() {
    let start = time_value(2024, 2, 29, 14, 15);
    let end = day_value(2024, 3, 2);
    assert_eq!(
        fmt_datetime_org_format(&start, Some(&end)),
        "<2024-02-29 Thu 14:15>--<2024-03-02 Sat>"
    );
}

#[test]
fn date_range_and_equal_dates() {
    let start = day_value(2024, 1, 6);
    assert_eq!(fmt_datetime_org_format(&start, Some(&start)), "<2024-01-06 Sat>");
    let end = day_value(2024, 1, 7);
    assert_eq!(
        fmt_datetime_org_format(&start, Some(&end)),
        "<2024-01-06 Sat>--<2024-01-07 Sun>"
    );
}

#[test]
fn end_before_start_is_rendered_literally() {
    let start = day_value(2024, 1, 5);
    let end = day_value(2024, 1, 4);
    assert_eq!(
        fmt_datetime_org_format(&start, Some(&end)),
        "<2024-01-05 Fri>--<2024-01-04 Thu>"
    );
}

#[test]
fn no_end_tokens() {
    assert_eq!(fmt_datetime_org_format(&day_value(2024, 1, 1), None), "<2024-01-01 Mon>");
    assert_eq!(
        fmt_datetime_org_format(&time_value(2024, 1, 1, 7, 45), None),
        "<2024-01-01 Mon 07:45>"
    );
}

#[test]
fn no_end_date_event_is_one_day_in_both_formats() {
    let e = event("Holiday", "id-1", day_value(2024, 1, 1), None);
    let entries = ical_entries(&vec![e.clone()]);
    match &entries[0].timing {
        IcsTiming::OneDay { day } => assert_eq!(day, "20240101"),
        other => panic!("unexpected timing {:?}", other),
    }
    let ics = generate_ical_calendar(vec![e.clone()], "prod_id");
    assert!(ics.contains("DTSTART;VALUE=DATE:20240101"));
    assert!(!ics.contains("DTEND"));
    let org = e.to_org();
    assert!(org.contains("\n  <2024-01-01 Mon>\n"));
}

#[test]
fn ics_entry_cases() {
    let ranged = event("A", "x", day_value(2024, 1, 1), Some(day_value(2024, 1, 3)));
    let timed = event("B", "y", time_value(2024, 1, 1, 9, 0), None);
    let entries = ical_entries(&vec![ranged, timed]);
    match &entries[0].timing {
        IcsTiming::DayRange { first_day, last_day } => {
            assert_eq!(first_day, "20240101");
            assert_eq!(last_day, "20240103");
        }
        other => panic!("unexpected timing {:?}", other),
    }
    match &entries[1].timing {
        IcsTiming::Timed { from, until } => {
            assert_eq!(from, "20240101T090000Z");
            assert_eq!(until, "");
        }
        other => panic!("unexpected timing {:?}", other),
    }
    assert_eq!(entries[1].uid, "y");
    assert_eq!(entries[1].stamp, "20231115T110000Z");
    assert_eq!(entries[1].summary, "B");
    assert_eq!(entries[1].description, "https://www.notion.so/B-y");
}

#[test]
fn ics_document_fields() {
    let e = event(
        "Team Sync",
        "abc-123-def",
        time_value(2024, 1, 1, 9, 0),
        Some(time_value(2024, 1, 1, 17, 30)),
    );
    let ics = generate_ical_calendar(vec![e], "my-prod");
    assert!(ics.contains("VERSION:2.0"));
    assert!(ics.contains("PRODID:my-prod"));
    assert!(ics.contains("UID:abc-123-def"));
    assert!(ics.contains("DTSTAMP:20231115T110000Z"));
    assert!(ics.contains("DTSTART;TZID=UTC:20240101T090000Z"));
    assert!(ics.contains("DTEND;TZID=UTC:20240101T173000Z"));
    assert!(ics.contains("SUMMARY:Team Sync"));
    assert!(ics.contains("DESCRIPTION:https://www.notion.so/Team-Sync-abc123def"));
}

#[test]
fn back_link_url() {
    let e = event("Team Sync", "abc-123-def", day_value(2024, 1, 1), None);
    assert_eq!(e.link_to_notion_event(), "https://www.notion.so/Team-Sync-abc123def");
}

#[test]
fn outline_block_layout() {
    let e = event("Team Sync", "abc-123-def", day_value(2024, 1, 1), None);
    assert_eq!(
        e.to_org(),
        "* Team Sync\n  :PROPERTIES:\n  :ID: abc-123-def\n  :END:\n  <2024-01-01 Mon>\n  https://www.notion.so/Team-Sync-abc123def"
    );
}

#[test]
fn outline_calendar_joins_blocks() {
    let a = event("A", "1", day_value(2024, 1, 1), None);
    let b = event("B", "2", day_value(2024, 1, 2), None);
    let text = generate_org_calendar(vec![a.clone(), b.clone()]);
    assert_eq!(text, format!("{}\n\n{}", a.to_org(), b.to_org()));
    assert_eq!(generate_org_calendar(vec![]), "");
    assert_eq!(render_calendar(vec![a.clone(), b], CalendarFormat::Org, "p"), text);
    assert!(render_calendar(vec![a], CalendarFormat::Ical, "p").contains("BEGIN:VCALENDAR"));
}

#[test]
fn timestamp_ignores_title_and_id() {
    let start = time_value(2024, 1, 1, 9, 0);
    let end = Some(time_value(2024, 1, 1, 17, 30));
    let a = event("One", "1", start, end);
    let b = event("Another title", "9-9", start, end);
    let line = |e: &Event| e.to_org().lines().nth(4).unwrap().to_string();
    assert_eq!(line(&a), line(&b));
    assert_eq!(line(&a), "  <2024-01-01 Mon 09:00-17:30>");
}

#[test]
fn rendering_twice_is_identical() {
    let events = vec![
        event("A", "1", day_value(2024, 1, 1), Some(day_value(2024, 1, 3))),
        event("B", "2", time_value(2024, 1, 1, 9, 0), None),
    ];
    assert_eq!(
        generate_org_calendar(events.clone()),
        generate_org_calendar(events.clone())
    );
    assert_eq!(
        generate_ical_calendar(events.clone(), "p"),
        generate_ical_calendar(events, "p")
    );
}

#[test]
fn normalizer_rejects_missing_or_null_time() {
    let missing = Event::from_record(record(Some("T"), EventTimeProperty::Missing));
    assert_eq!(missing.unwrap_err(), NormalizeError::MissingTimeProperty);
    let not_date = Event::from_record(record(Some("T"), EventTimeProperty::NotADate));
    assert_eq!(not_date.unwrap_err(), NormalizeError::MissingTimeProperty);
    let null = Event::from_record(record(Some("T"), EventTimeProperty::Date(None)));
    assert_eq!(null.unwrap_err(), NormalizeError::MissingTimeProperty);
}

#[test]
fn normalizer_copies_fields_and_defaults_title() {
    let range = DateRange {
        start: day_value(2024, 1, 1),
        end: Some(time_value(2024, 1, 2, 10, 0)),
    };
    let e = Event::from_record(record(None, EventTimeProperty::Date(Some(range)))).unwrap();
    assert_eq!(e.id, "abc-123-def");
    assert_eq!(e.title, "No Title");
    assert_eq!(e.changed, stamp(2023, 11, 15, 11, 0, 0));
    assert_eq!(e.start, range.start);
    assert_eq!(e.end, range.end);
    let titled = Event::from_record(record(Some("Standup"), EventTimeProperty::Date(Some(range))));
    assert_eq!(titled.unwrap().title, "Standup");
}

#[test]
fn one_bad_record_fails_the_batch() {
    let range = DateRange { start: day_value(2024, 1, 1), end: None };
    let mut events = Vec::new();
    let ok = normalize_records(
        &mut events,
        vec![
            record(Some("a"), EventTimeProperty::Date(Some(range))),
            record(Some("b"), EventTimeProperty::Date(Some(range))),
        ],
    );
    assert_eq!(ok, Ok(()));
    assert_eq!(events.len(), 2);
    assert_eq!(events[1].title, "b");
    let bad = normalize_records(
        &mut events,
        vec![
            record(Some("c"), EventTimeProperty::Date(Some(range))),
            record(Some("d"), EventTimeProperty::Date(None)),
        ],
    );
    assert_eq!(bad, Err(NormalizeError::MissingTimeProperty));
}

#[test]
fn paging_follows_cursor() {
    match after_page(true, Some("cur".to_string())) {
        PageRequest::Next { cursor } => assert_eq!(cursor, Some("cur".to_string())),
        PageRequest::Finished => panic!("expected another page"),
    }
    assert!(matches!(after_page::<String>(false, None), PageRequest::Finished));
}

#[test]
fn date_validation() {
    assert!(CalendarDate::new(2024, 2, 29).is_some());
    assert!(CalendarDate::new(2023, 2, 29).is_none());
    assert!(CalendarDate::new(1900, 2, 29).is_none());
    assert!(CalendarDate::new(2000, 2, 29).is_some());
    assert!(CalendarDate::new(2024, 4, 31).is_none());
    assert!(CalendarDate::new(2024, 13, 1).is_none());
    assert!(CalendarDate::new(10000, 1, 1).is_none());
    assert!(Timestamp::new(date(2024, 1, 1), 24, 0, 0).is_none());
    assert!(Timestamp::new(date(2024, 1, 1), 23, 59, 59).is_some());
}

#[test]
fn weekdays_over_a_week() {
    let names = ["Mon", "Tue", "Wed", "Thu", "Fri", "Sat", "Sun"];
    for (i, name) in names.iter().enumerate() {
        let token = fmt_datetime_org_format(&day_value(2024, 1, 1 + i as u32), None);
        assert_eq!(token, format!("<2024-01-{:02} {}>", 1 + i, name));
    }
    assert_eq!(fmt_datetime_org_format(&day_value(2000, 1, 1), None), "<2000-01-01 Sat>");
}

#[test]
fn ics_document_exact_text() {
    let e = event("Holiday", "id-1", day_value(2024, 1, 1), None);
    assert_eq!(
        generate_ical_calendar(vec![e], "prod_id"),
        "BEGIN:VCALENDAR\r\nVERSION:2.0\r\nCALSCALE:GREGORIAN\r\nPRODID:prod_id\r\n\
         BEGIN:VEVENT\r\nUID:id-1\r\nDTSTAMP:20231115T110000Z\r\nDTSTART;VALUE=DATE:20240101\r\n\
         SUMMARY:Holiday\r\nDESCRIPTION:https://www.notion.so/Holiday-id1\r\nEND:VEVENT\r\n\
         END:VCALENDAR\r\n"
    );
}

#[test]
fn ics_events_keep_input_order() {
    let a = event("A", "1", day_value(2024, 1, 3), Some(day_value(2024, 1, 4)));
    let b = event("B", "2", time_value(2024, 1, 1, 9, 0), None);
    let ics = generate_ical_calendar(vec![a, b], "p");
    let first = ics.find("UID:1").unwrap();
    let second = ics.find("UID:2").unwrap();
    assert!(first < second);
    assert_eq!(ics.matches("BEGIN:VEVENT\r\n").count(), 2);
    assert!(ics.contains("DTSTART;VALUE=DATE:20240103\r\nDTEND;VALUE=DATE:20240104\r\n"));
    assert!(ics.contains("DTSTART;TZID=UTC:20240101T090000Z\r\nDTEND;TZID=UTC:\r\n"));
}

#[test]
fn ics_empty_calendar() {
    assert_eq!(
        generate_ical_calendar(vec![], "p"),
        "BEGIN:VCALENDAR\r\nVERSION:2.0\r\nCALSCALE:GREGORIAN\r\nPRODID:p\r\nEND:VCALENDAR\r\n"
    );
}

#[test]
fn ics_long_lines_are_folded() {
    let title = "A very long meeting title about quarterly planning";
    let e = event(title, "abc", day_value(2024, 1, 1), None);
    let ics = generate_ical_calendar(vec![e], "p");
    let line = format!("DESCRIPTION:https://www.notion.so/{}-abc", title.replace(' ', "-"));
    assert_eq!(line.len(), 88);
    let folded = format!("{}\r\n {}\r\n", &line[..75], &line[75..]);
    assert!(ics.contains(&folded));
}

#[test]
fn failed_batch_leaves_events_unchanged() {
    let range = DateRange { start: day_value(2024, 1, 1), end: None };
    let mut events = vec![event("kept", "0", day_value(2024, 1, 1), None)];
    let bad = normalize_records(
        &mut events,
        vec![
            record(Some("c"), EventTimeProperty::Date(Some(range))),
            record(Some("d"), EventTimeProperty::Missing),
        ],
    );
    assert_eq!(bad, Err(NormalizeError::MissingTimeProperty));
    assert_eq!(events.len(), 1);
    assert_eq!(events[0].title, "kept");
}
