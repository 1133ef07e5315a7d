//! The intranet transport, as far as it can be decided locally: the
//! transport error set, the outcome an HTTP status decides, and the
//! names under which the other modules read fetched JSON replies.
//!
//! The network calls themselves are the caller's: functions here take
//! what came back (a status, a body) and decide what it means.

use vstd::prelude::*;

verus! {

use vstd::string::StringExecFns;

/// Error possibilities of the transport layer.
#[derive(Debug, Clone, Copy, PartialEq, Eq, Structural)]
pub enum Error {
    /// No network access.
    Network,
    /// The account does not have permission to access the resource.
    AccessDenied,
    /// Page not found on the intranet.
    NotFound,
    /// The intranet cannot be reached (probably down).
    IntraDown,
    /// The reply could not be parsed.
    Parsing,
    /// The reply holds no data.
    Empty,
}

/// The printable description of each transport error.
pub open spec fn message_of(e: Error) -> Seq<char> {
    match e {
        Error::Network => "No internet access"@,
        Error::AccessDenied => "You do not have permission to access this resource"@,
        Error::NotFound => "Could not find page on the Epitech intranet"@,
        Error::IntraDown => "Could not connect to the Epitech intranet"@,
        Error::Parsing => "Failed to parse retrieved data from the intranet"@,
        Error::Empty => "Empty JSON array"@,
    }
}

impl Error {
    /// A printable description of the error.
    pub fn message(&self) -> (r: String)
        ensures
            r@ == message_of(*self),
    {
        match *self {
            Error::Network => String::from_str("No internet access"),
            Error::AccessDenied => String::from_str(
                "You do not have permission to access this resource",
            ),
            Error::NotFound => String::from_str("Could not find page on the Epitech intranet"),
            Error::IntraDown => String::from_str("Could not connect to the Epitech intranet"),
            Error::Parsing => String::from_str("Failed to parse retrieved data from the intranet"),
            Error::Empty => String::from_str("Empty JSON array"),
        }
    }
}

/// The outcome the HTTP status of a read reply decides: forbidden means
/// denied access, a missing page is reported as such, and any other
/// status but plain success means the intranet cannot be served from.
pub fn get_status_outcome(status: u16) -> (r: Result<(), Error>)
    ensures
        status == 200 ==> r == Ok::<(), Error>(()),
        status == 403 ==> r == Err::<(), Error>(Error::AccessDenied),
        status == 404 ==> r == Err::<(), Error>(Error::NotFound),
        status != 200 && status != 403 && status != 404 ==> r == Err::<(), Error>(
            Error::IntraDown,
        ),
{
    if status == 403 {
        Err(Error::AccessDenied)
    } else if status == 404 {
        Err(Error::NotFound)
    } else if status != 200 {
        Err(Error::IntraDown)
    } else {
        Ok(())
    }
}

/// The outcome the HTTP status of an upload reply decides. Unlike a
/// read, a missing page is not told apart from an unreachable intranet.
pub fn post_status_outcome(status: u16) -> (r: Result<(), Error>)
    ensures
        status == 200 ==> r == Ok::<(), Error>(()),
        status == 403 ==> r == Err::<(), Error>(Error::AccessDenied),
        status != 200 && status != 403 ==> r == Err::<(), Error>(Error::IntraDown),
{
    if status == 403 {
        Err(Error::AccessDenied)
    } else if status != 200 {
        Err(Error::IntraDown)
    } else {
        Ok(())
    }
}

/// A JSON value of the outside parser, carried through opaquely.
#[verifier::external_type_specification]
#[verifier::external_body]
pub struct ExValue(serde_json::Value);

/// Whether a text parses as one JSON value.
pub uninterp spec fn json_value_ok(s: Seq<char>) -> bool;

/// Whether a text parses as a JSON array of values.
pub uninterp spec fn json_array_ok(s: Seq<char>) -> bool;

/// Relies on serde_json::Value::get and Value::as_str: the string held
/// at that key, when the value is an object whose key holds a string.
#[verifier::external_body]
pub(crate) fn json_str_field(v: &serde_json::Value, key: &str) -> (r: Option<String>) {
    v.get(key).and_then(|f| f.as_str()).map(|s| s.to_string())
}

} // verus!
