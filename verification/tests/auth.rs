use epitok::auth::{check_autologin, Auth, Error, Status};
use epitok::intra;

const GOOD_LINK: &str =
    "https://intra.epitech.eu/auth-abcdefghijklmnopqrstuvwxyz0123456789abcd";

#[test]
fn check_autologin_accepts_the_expected_shape() {
    assert!(check_autologin(GOOD_LINK));
}

#[test]
fn check_autologin_rejects_wrong_shapes() {
    assert!(!check_autologin(""));
    assert!(!check_autologin("https://intra.epitech.eu/auth-"));
    assert!(!check_autologin("https://intra.epitech.eu/auth-abc"));
    // one character too many
    assert!(!check_autologin(
        "https://intra.epitech.eu/auth-abcdefghijklmnopqrstuvwxyz0123456789abcde"
    ));
    // an upper-case character in the token
    assert!(!check_autologin(
        "https://intra.epitech.eu/auth-Abcdefghijklmnopqrstuvwxyz0123456789abcd"
    ));
    // the wrong prefix, right length
    assert!(!check_autologin(
        "https://intra.example.eu/auth-abcdefghijklmnopqrstuvwxyz0123456789abcd"
    ));
}

#[test]
fn new_auth_is_signed_out() {
    let auth = Auth::new();
    assert!(matches!(auth.status(), Status::SignedOut));
    assert!(auth.autologin().is_none());
    assert!(auth.login().is_none());
    assert!(auth.name().is_none());
}

#[test]
fn default_status_is_signed_out() {
    assert!(matches!(Status::default(), Status::SignedOut));
}

#[test]
fn sign_in_rejects_a_malformed_link_before_anything_else() {
    let mut auth = Auth::new();
    let got = auth.sign_in("https://intra.epitech.eu/auth-short", Ok("{}".to_string()));
    assert!(matches!(got, Err(Error::Credentials)));
    assert!(matches!(auth.status(), Status::Error(Error::Credentials)));
    assert!(auth.login().is_none());
}

#[test]
fn sign_in_stores_the_profile() {
    let mut auth = Auth::new();
    let body = r#"{"login":"first.last@example.com","title":"First Last"}"#;
    let got = auth.sign_in(GOOD_LINK, Ok(body.to_string()));
    assert!(got.is_ok());
    assert!(matches!(auth.status(), Status::SignedIn));
    assert_eq!(auth.get_autologin(), GOOD_LINK);
    assert_eq!(auth.get_login(), "first.last@example.com");
    assert_eq!(auth.name().as_deref(), Some("First Last"));
}

#[test]
fn sign_in_propagates_transport_failures() {
    let mut auth = Auth::new();
    let got = auth.sign_in(GOOD_LINK, Err(intra::Error::Network));
    assert!(matches!(got, Err(Error::IntraError(intra::Error::Network))));
    assert!(matches!(auth.status(), Status::Error(Error::IntraError(intra::Error::Network))));
}

#[test]
fn sign_in_reports_an_unreadable_profile() {
    let mut auth = Auth::new();
    let got = auth.sign_in(GOOD_LINK, Ok("not json".to_string()));
    assert!(matches!(got, Err(Error::IntraError(intra::Error::Parsing))));
}

#[test]
fn sign_in_requires_login_and_name_on_the_profile() {
    let mut auth = Auth::new();
    let got = auth.sign_in(GOOD_LINK, Ok(r#"{"title":"First Last"}"#.to_string()));
    assert!(matches!(got, Err(Error::NoLogin)));
    assert!(matches!(auth.status(), Status::Error(Error::NoLogin)));

    let mut auth = Auth::new();
    let got = auth.sign_in(GOOD_LINK, Ok(r#"{"login":"a@x"}"#.to_string()));
    assert!(matches!(got, Err(Error::NoName)));
    assert!(matches!(auth.status(), Status::Error(Error::NoName)));
}

#[test]
fn apply_profile_decides_from_the_two_fields() {
    let mut auth = Auth::new();
    let got = auth.apply_profile(GOOD_LINK, Some("a@x".to_string()), Some("A".to_string()));
    assert!(got.is_ok());
    assert!(matches!(auth.status(), Status::SignedIn));
    assert_eq!(auth.get_login(), "a@x");

    let mut auth = Auth::new();
    assert!(matches!(auth.apply_profile(GOOD_LINK, None, None), Err(Error::NoLogin)));

    let mut auth = Auth::new();
    assert!(matches!(
        auth.apply_profile(GOOD_LINK, Some("a@x".to_string()), None),
        Err(Error::NoName)
    ));
}

#[test]
fn sign_out_clears_the_identity() {
    let mut auth = Auth::new();
    let body = r#"{"login":"a@x","title":"A"}"#;
    auth.sign_in(GOOD_LINK, Ok(body.to_string())).unwrap();
    auth.sign_out();
    assert!(matches!(auth.status(), Status::SignedOut));
    assert!(auth.autologin().is_none());
    assert!(auth.login().is_none());
    assert!(auth.name().is_none());
}

#[test]
fn auth_error_messages() {
    assert_eq!(Error::NotSignedIn.message(), "You are not signed in");
    assert_eq!(Error::Credentials.message(), "Invalid autologin link provided");
    assert_eq!(Error::NoLogin.message(), "No login associated with intranet profile");
    assert_eq!(Error::NoName.message(), "No name associated with intranet profile");
    assert_eq!(
        Error::IntraError(intra::Error::IntraDown).message(),
        "Could not connect to the Epitech intranet"
    );
}

#[test]
fn transport_status_outcomes() {
    assert!(intra::get_status_outcome(200).is_ok());
    assert!(matches!(intra::get_status_outcome(403), Err(intra::Error::AccessDenied)));
    assert!(matches!(intra::get_status_outcome(404), Err(intra::Error::NotFound)));
    assert!(matches!(intra::get_status_outcome(500), Err(intra::Error::IntraDown)));
    assert!(intra::post_status_outcome(200).is_ok());
    assert!(matches!(intra::post_status_outcome(403), Err(intra::Error::AccessDenied)));
    assert!(matches!(intra::post_status_outcome(404), Err(intra::Error::IntraDown)));
    assert!(matches!(intra::post_status_outcome(503), Err(intra::Error::IntraDown)));
}

#[test]
fn transport_error_messages() {
    assert_eq!(intra::Error::Network.message(), "No internet access");
    assert_eq!(
        intra::Error::AccessDenied.message(),
        "You do not have permission to access this resource"
    );
    assert_eq!(intra::Error::NotFound.message(), "Could not find page on the Epitech intranet");
    assert_eq!(intra::Error::IntraDown.message(), "Could not connect to the Epitech intranet");
    assert_eq!(
        intra::Error::Parsing.message(),
        "Failed to parse retrieved data from the intranet"
    );
    assert_eq!(intra::Error::Empty.message(), "Empty JSON array");
}
