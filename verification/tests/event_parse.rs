use epitok::event::{
    events_from_records, get_event, get_title_single_event, list_events, parse_event, Error,
    RawEvent,
};
use epitok::intra;

fn raw(
    is_rdv: Option<&str>,
    title: Option<&str>,
    module: Option<&str>,
    start: Option<&str>,
    end: Option<&str>,
) -> RawEvent {
    RawEvent {
        is_rdv: is_rdv.map(|s| s.to_string()),
        scolaryear: Some("2019".to_string()),
        codemodule: Some("X-ABC-123".to_string()),
        codeinstance: Some("PAR-1-1".to_string()),
        codeacti: Some("acti-123456".to_string()),
        codeevent: Some("event-123456".to_string()),
        acti_title: title.map(|s| s.to_string()),
        titlemodule: module.map(|s| s.to_string()),
        start: start.map(|s| s.to_string()),
        end: end.map(|s| s.to_string()),
    }
}

fn full_raw() -> RawEvent {
    raw(
        Some("0"),
        Some("Workshop"),
        Some("Module Label"),
        Some("2020-07-01 08:30:00"),
        Some("2020-07-01 10:00:00"),
    )
}

#[test]
fn parse_event_success_keeps_times_of_day() {
    let ev = parse_event(&full_raw()).unwrap().unwrap();
    assert_eq!(ev.title(), "Workshop");
    assert_eq!(ev.module(), "Module Label");
    assert_eq!(ev.start(), "08:30");
    assert_eq!(ev.end(), "10:00");
    assert_eq!(ev.code.year(), "2019");
    assert_eq!(ev.code.module(), "X-ABC-123");
    assert_eq!(ev.code.instance(), "PAR-1-1");
    assert_eq!(ev.code.acti(), "acti-123456");
    assert_eq!(ev.code.event(), "event-123456");
    assert_eq!(ev.students.len(), 0);
}

#[test]
fn parse_event_missing_end_fails_with_time_end() {
    let mut r = full_raw();
    r.end = None;
    let got = parse_event(&r);
    assert!(matches!(got, Err(Error::TimeEnd)));
}

#[test]
fn parse_event_unparsable_end_fails_with_time_end() {
    let mut r = full_raw();
    r.end = Some("10 o'clock".to_string());
    assert!(matches!(parse_event(&r), Err(Error::TimeEnd)));
}

#[test]
fn parse_event_missing_start_fails_with_time_start() {
    let mut r = full_raw();
    r.start = None;
    assert!(matches!(parse_event(&r), Err(Error::TimeStart)));
}

#[test]
fn parse_event_missing_title_fails_with_title() {
    let mut r = full_raw();
    r.acti_title = None;
    assert!(matches!(parse_event(&r), Err(Error::Title)));
}

#[test]
fn parse_event_missing_module_fails_with_module() {
    let mut r = full_raw();
    r.titlemodule = None;
    assert!(matches!(parse_event(&r), Err(Error::Module)));
}

#[test]
fn parse_event_missing_code_component_fails_with_event_url() {
    let mut r = full_raw();
    r.codeinstance = None;
    assert!(matches!(parse_event(&r), Err(Error::EventURL)));
}

#[test]
fn parse_event_skips_ineligible_record() {
    let mut r = full_raw();
    r.is_rdv = Some("1".to_string());
    assert!(matches!(parse_event(&r), Ok(None)));
    r.is_rdv = None;
    assert!(matches!(parse_event(&r), Ok(None)));
}

#[test]
fn ineligible_record_is_omitted_not_an_error() {
    let mut second = full_raw();
    second.is_rdv = Some("1".to_string());
    let mut third = full_raw();
    third.acti_title = Some("Review".to_string());
    let records = vec![full_raw(), second, third];
    let events = events_from_records(&records).unwrap();
    assert_eq!(events.len(), 2);
    assert_eq!(events[0].title(), "Workshop");
    assert_eq!(events[1].title(), "Review");
}

#[test]
fn ineligible_record_needs_no_other_fields() {
    let r = raw(Some("1"), None, None, None, None);
    let events = events_from_records(&vec![r]).unwrap();
    assert_eq!(events.len(), 0);
}

#[test]
fn first_construction_error_aborts_listing() {
    let mut bad = full_raw();
    bad.start = None;
    let records = vec![full_raw(), bad, full_raw()];
    assert!(matches!(events_from_records(&records), Err(Error::TimeStart)));
}

#[test]
fn list_events_empty_transport_reply_is_success() {
    let got = list_events(Err(intra::Error::Empty));
    assert_eq!(got.unwrap().len(), 0);
}

#[test]
fn list_events_other_transport_errors_propagate() {
    assert!(matches!(
        list_events(Err(intra::Error::Network)),
        Err(Error::Intra(intra::Error::Network))
    ));
    assert!(matches!(
        list_events(Err(intra::Error::AccessDenied)),
        Err(Error::Intra(intra::Error::AccessDenied))
    ));
}

#[test]
fn list_events_blank_body_is_empty() {
    assert_eq!(list_events(Ok(String::new())).unwrap().len(), 0);
    assert_eq!(list_events(Ok("  \n\t\r\n ".to_string())).unwrap().len(), 0);
}

#[test]
fn list_events_malformed_body_is_a_parse_error() {
    assert!(matches!(
        list_events(Ok("not json at all".to_string())),
        Err(Error::Intra(intra::Error::Parsing))
    ));
    assert!(matches!(
        list_events(Ok("{\"a\":1}".to_string())),
        Err(Error::Intra(intra::Error::Parsing))
    ));
}

#[test]
fn list_events_reads_planning_records() {
    let body = r#"[
        {"is_rdv":"0","scolaryear":"2019","codemodule":"X-ABC-123",
         "codeinstance":"PAR-1-1","codeacti":"acti-123456","codeevent":"event-123456",
         "acti_title":"Workshop","titlemodule":"Module Label",
         "start":"2020-07-01 08:30:00","end":"2020-07-01 10:00:00"},
        {"is_rdv":"1","acti_title":"Not a token event"},
        {"is_rdv":"0","scolaryear":"2019","codemodule":"X-ABC-123",
         "codeinstance":"PAR-1-1","codeacti":"acti-7","codeevent":"event-7",
         "acti_title":"Review","titlemodule":"Module Label",
         "start":"2020-07-01 14:00:00","end":"2020-07-01 15:00:00"}
    ]"#;
    let events = list_events(Ok(body.to_string())).unwrap();
    assert_eq!(events.len(), 2);
    assert_eq!(events[0].title(), "Workshop");
    assert_eq!(events[0].start(), "08:30");
    assert_eq!(events[1].code.acti(), "acti-7");
    assert_eq!(events[1].end(), "15:00");
}

#[test]
fn list_events_record_missing_end_fails_with_time_end() {
    let body = r#"[
        {"is_rdv":"0","scolaryear":"2019","codemodule":"X-ABC-123",
         "codeinstance":"PAR-1-1","codeacti":"acti-123456","codeevent":"event-123456",
         "acti_title":"Workshop","titlemodule":"Module Label",
         "start":"2020-07-01 08:30:00"}
    ]"#;
    assert!(matches!(list_events(Ok(body.to_string())), Err(Error::TimeEnd)));
}

#[test]
fn get_title_single_event_deduplicates() {
    assert_eq!(get_title_single_event("abc abc"), "abc");
    assert_eq!(get_title_single_event("hello"), "hello");
    assert_eq!(get_title_single_event("a"), "");
    assert_eq!(get_title_single_event("ab"), "ab");
}

#[test]
fn get_event_reads_single_record_and_deduplicates_title() {
    let body = r#"{"scolaryear":"2019","codemodule":"X-ABC-123",
        "codeinstance":"PAR-1-1","codeacti":"acti-123456","codeevent":"event-123456",
        "acti_title":"Keynote Keynote","module_title":"Module Label",
        "start":"2020-07-01 08:30:00","end":"2020-07-01 10:00:00"}"#;
    let ev = get_event(Ok(body.to_string())).unwrap();
    assert_eq!(ev.title(), "Keynote");
    assert_eq!(ev.module(), "Module Label");
    assert_eq!(ev.start(), "08:30");
}

#[test]
fn get_event_transport_errors_propagate() {
    assert!(matches!(
        get_event(Err(intra::Error::NotFound)),
        Err(Error::Intra(intra::Error::NotFound))
    ));
    assert!(matches!(
        get_event(Ok("nonsense".to_string())),
        Err(Error::Intra(intra::Error::Parsing))
    ));
    assert!(matches!(get_event(Ok(String::new())), Err(Error::Intra(intra::Error::Parsing))));
}

#[test]
fn kept_times_stay_zero_padded() {
    let mut r = full_raw();
    r.start = Some("2020-12-31 00:05:00".to_string());
    r.end = Some("2020-12-31 09:07:59".to_string());
    let ev = parse_event(&r).unwrap().unwrap();
    assert_eq!(ev.start(), "00:05");
    assert_eq!(ev.end(), "09:07");
}

#[test]
fn error_messages_name_the_missing_field() {
    assert_eq!(Error::EventURL.message(), "This event doesn't have a url");
    assert_eq!(Error::Title.message(), "This event does not have a title");
    assert_eq!(Error::Module.message(), "This event does not belong to a module");
    assert_eq!(Error::TimeStart.message(), "This event does not have a starting time");
    assert_eq!(Error::TimeEnd.message(), "This event does not have a finish time");
    assert_eq!(Error::Date.message(), "The date is not a well-formed calendar date");
    assert_eq!(Error::Intra(intra::Error::Empty).message(), "Empty JSON array");
}
