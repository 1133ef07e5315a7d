use epitok::student::{Presence, Student};

#[test]
fn decode_canonical_wire_values() {
    assert!(matches!(Presence::from("present"), Presence::Present));
    assert!(matches!(Presence::from("absent"), Presence::Missing));
    assert!(matches!(Presence::from("N/A"), Presence::NotApplicable));
    assert!(matches!(Presence::from("failed"), Presence::Failed));
    assert!(matches!(Presence::from(""), Presence::Unset));
}

#[test]
fn decode_state_names() {
    assert!(matches!(Presence::from("Present"), Presence::Present));
    assert!(matches!(Presence::from("Missing"), Presence::Missing));
    assert!(matches!(Presence::from("NotApplicable"), Presence::NotApplicable));
    assert!(matches!(Presence::from("Failed"), Presence::Failed));
    assert!(matches!(Presence::from("None"), Presence::Unset));
}

#[test]
fn decode_unrecognized_is_failed() {
    assert!(matches!(Presence::from("late"), Presence::Failed));
    assert!(matches!(Presence::from("PRESENT"), Presence::Failed));
}

#[test]
fn encode_is_total() {
    assert_eq!(Presence::Unset.encode(), "");
    assert_eq!(Presence::Present.encode(), "present");
    assert_eq!(Presence::Missing.encode(), "absent");
    assert_eq!(Presence::NotApplicable.encode(), "N/A");
    assert_eq!(Presence::Failed.encode(), "failed");
}

#[test]
fn encode_decode_round_trip_on_wire_values() {
    for wire in ["", "present", "absent", "N/A", "failed"] {
        assert_eq!(Presence::from(wire).encode(), wire);
    }
}

#[test]
fn student_creation_and_presence() {
    let mut s = Student::new("first.last@example.com".to_string(), "First Last".to_string());
    assert_eq!(s.get_login(), "first.last@example.com");
    assert_eq!(s.get_name(), "First Last");
    assert!(matches!(s.get_presence(), Presence::Unset));
    s.set_present();
    assert!(matches!(s.get_presence(), Presence::Present));
    s.set_missing();
    assert!(matches!(s.get_presence(), Presence::Missing));
    s.set_presence(Presence::NotApplicable);
    assert!(matches!(s.get_presence(), Presence::NotApplicable));
}
