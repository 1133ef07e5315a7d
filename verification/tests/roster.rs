use epitok::event::{parse_event, Event, RawEvent};
use epitok::intra;
use epitok::student::{fetch_students, Error, Presence, Student};

fn event_with(students: Vec<Student>) -> Event {
    let raw = RawEvent {
        is_rdv: Some("0".to_string()),
        scolaryear: Some("2019".to_string()),
        codemodule: Some("X-ABC-123".to_string()),
        codeinstance: Some("PAR-1-1".to_string()),
        codeacti: Some("acti-123456".to_string()),
        codeevent: Some("event-123456".to_string()),
        acti_title: Some("Workshop".to_string()),
        titlemodule: Some("Module Label".to_string()),
        start: Some("2020-07-01 08:30:00".to_string()),
        end: Some("2020-07-01 10:00:00".to_string()),
    };
    let mut ev = parse_event(&raw).unwrap().unwrap();
    ev.students = students;
    ev
}

fn three_students() -> Vec<Student> {
    let mut a = Student::new("a@x".to_string(), "A".to_string());
    a.set_presence(Presence::Present);
    let b = Student::new("b@x".to_string(), "B".to_string());
    let mut c = Student::new("c@x".to_string(), "C".to_string());
    c.set_presence(Presence::Missing);
    vec![a, b, c]
}

#[test]
fn fetch_students_reads_roster_in_order() {
    let body = r#"[
        {"login":"a@x","title":"A","present":"present"},
        {"login":"b@x","title":"B"},
        {"login":"c@x","title":"C","present":"absent"},
        {"login":"d@x","title":"D","present":"weird"}
    ]"#;
    let roster = fetch_students(Ok(body.to_string())).unwrap();
    assert_eq!(roster.len(), 4);
    assert_eq!(roster[0].get_login(), "a@x");
    assert!(matches!(roster[0].get_presence(), Presence::Present));
    assert_eq!(roster[1].get_name(), "B");
    assert!(matches!(roster[1].get_presence(), Presence::Unset));
    assert!(matches!(roster[2].get_presence(), Presence::Missing));
    assert!(matches!(roster[3].get_presence(), Presence::Failed));
}

#[test]
fn fetch_students_missing_login_fails() {
    let body = r#"[{"title":"A"}]"#;
    assert!(matches!(fetch_students(Ok(body.to_string())), Err(Error::Login)));
}

#[test]
fn fetch_students_empty_login_fails() {
    let body = r#"[{"login":"","title":"A"}]"#;
    assert!(matches!(fetch_students(Ok(body.to_string())), Err(Error::Login)));
}

#[test]
fn fetch_students_missing_name_fails() {
    let body = r#"[{"login":"a@x"}]"#;
    assert!(matches!(fetch_students(Ok(body.to_string())), Err(Error::Name)));
}

#[test]
fn fetch_students_empty_reply_is_empty_roster() {
    assert_eq!(fetch_students(Err(intra::Error::Empty)).unwrap().len(), 0);
    assert_eq!(fetch_students(Ok(String::new())).unwrap().len(), 0);
    assert_eq!(fetch_students(Ok(" \n ".to_string())).unwrap().len(), 0);
}

#[test]
fn fetch_students_malformed_reply_is_a_parse_error() {
    assert!(matches!(
        fetch_students(Ok("not json".to_string())),
        Err(Error::Intra(intra::Error::Parsing))
    ));
    assert!(matches!(
        fetch_students(Ok("{\"login\":\"a@x\"}".to_string())),
        Err(Error::Intra(intra::Error::Parsing))
    ));
}

#[test]
fn fetch_students_transport_errors_propagate() {
    assert!(matches!(
        fetch_students(Err(intra::Error::AccessDenied)),
        Err(Error::Intra(intra::Error::AccessDenied))
    ));
}

#[test]
fn set_student_presence_finds_by_login() {
    let mut ev = event_with(three_students());
    assert!(ev.set_student_presence("b@x", Presence::NotApplicable));
    assert!(matches!(ev.students[1].get_presence(), Presence::NotApplicable));
    assert!(matches!(ev.students[0].get_presence(), Presence::Present));
    assert!(!ev.set_student_presence("nobody@x", Presence::Present));
}

#[test]
fn presence_is_a_free_assignment() {
    let mut ev = event_with(three_students());
    assert!(ev.set_student_present("c@x"));
    assert!(matches!(ev.students[2].get_presence(), Presence::Present));
    assert!(ev.set_student_missing("c@x"));
    assert!(matches!(ev.students[2].get_presence(), Presence::Missing));
    assert!(ev.set_student_none("c@x"));
    assert!(matches!(ev.students[2].get_presence(), Presence::Unset));
    assert!(ev.set_student_not_applicable("c@x"));
    assert!(matches!(ev.students[2].get_presence(), Presence::NotApplicable));
}

#[test]
fn set_all_students_overwrites_every_presence() {
    let mut ev = event_with(three_students());
    ev.set_all_students_present();
    for s in ev.students.iter() {
        assert!(matches!(s.get_presence(), Presence::Present));
    }
    ev.set_all_students_none();
    for s in ev.students.iter() {
        assert!(matches!(s.get_presence(), Presence::Unset));
    }
    ev.set_all_students_missing();
    for s in ev.students.iter() {
        assert!(matches!(s.get_presence(), Presence::Missing));
    }
    ev.set_all_students_not_applicable();
    for s in ev.students.iter() {
        assert!(matches!(s.get_presence(), Presence::NotApplicable));
    }
}

#[test]
fn set_remaining_touches_only_undecided_students() {
    let mut ev = event_with(three_students());
    ev.set_remaining_students_missing();
    assert!(matches!(ev.students[0].get_presence(), Presence::Present));
    assert!(matches!(ev.students[1].get_presence(), Presence::Missing));
    assert!(matches!(ev.students[2].get_presence(), Presence::Missing));
}

#[test]
fn set_remaining_twice_equals_once() {
    let mut once = event_with(three_students());
    once.set_remaining_students_present();
    let mut twice = event_with(three_students());
    twice.set_remaining_students_present();
    twice.set_remaining_students_present();
    for (a, b) in once.students.iter().zip(twice.students.iter()) {
        assert_eq!(a.get_login(), b.get_login());
        assert_eq!(a.get_presence().encode(), b.get_presence().encode());
    }
}

#[test]
fn set_remaining_after_set_all_changes_nothing() {
    let mut ev = event_with(three_students());
    ev.set_all_students_not_applicable();
    ev.set_remaining_students_missing();
    for s in ev.students.iter() {
        assert!(matches!(s.get_presence(), Presence::NotApplicable));
    }
}

#[test]
fn save_form_closes_out_and_encodes_in_roster_order() {
    let mut ev = event_with(three_students());
    let form = ev.save_form();
    assert_eq!(form.len(), 6);
    assert_eq!(form[0], ("items[0][login]".to_string(), "a@x".to_string()));
    assert_eq!(form[1], ("items[0][present]".to_string(), "present".to_string()));
    assert_eq!(form[2], ("items[1][login]".to_string(), "b@x".to_string()));
    assert_eq!(form[3], ("items[1][present]".to_string(), "absent".to_string()));
    assert_eq!(form[4], ("items[2][login]".to_string(), "c@x".to_string()));
    assert_eq!(form[5], ("items[2][present]".to_string(), "absent".to_string()));
}

#[test]
fn export_students_renders_two_digit_indices() {
    let mut students = Vec::new();
    for i in 0..11 {
        students.push(Student::new(format!("s{}@x", i), format!("S{}", i)));
    }
    let ev = event_with(students);
    let form = ev.export_students();
    assert_eq!(form.len(), 22);
    assert_eq!(form[20].0, "items[10][login]");
    assert_eq!(form[20].1, "s10@x");
    assert_eq!(form[21].0, "items[10][present]");
    assert_eq!(form[21].1, "");
}

#[test]
fn save_form_of_empty_roster_is_empty() {
    let mut ev = event_with(Vec::new());
    assert_eq!(ev.save_form().len(), 0);
}

#[test]
fn roster_error_messages() {
    assert_eq!(Error::Login.message(), "Student does not have an epitech login");
    assert_eq!(Error::Name.message(), "Student does not have a name");
    assert_eq!(Error::Intra(intra::Error::Network).message(), "No internet access");
}
