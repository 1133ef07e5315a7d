//! Authentication to the intranet with an account's autologin link:
//! validating the link's shape and keeping the signed-in identity.
//!
//! The exchange of the link for a profile is a network call and is the
//! caller's; `sign_in` takes that call's outcome and applies every
//! decision that follows from it.

use vstd::prelude::*;

verus! {

use vstd::string::StringExecFns;
use vstd::string::StrSliceExecFns;
use crate::intra;
use crate::text::opt_str_view;

/// Error possibilities of authentication.
#[derive(Debug, Clone, Copy, PartialEq, Eq, Structural)]
pub enum Error {
    /// The transport failed.
    IntraError(intra::Error),
    /// No account is signed in.
    NotSignedIn,
    /// The autologin link is not well-formed; it may have been revoked.
    Credentials,
    /// The intranet profile carries no email address.
    NoLogin,
    /// The intranet profile carries no name.
    NoName,
}

/// The printable description of each authentication error.
pub open spec fn message_of(e: Error) -> Seq<char> {
    match e {
        Error::IntraError(ie) => intra::message_of(ie),
        Error::NotSignedIn => "You are not signed in"@,
        Error::Credentials => "Invalid autologin link provided"@,
        Error::NoLogin => "No login associated with intranet profile"@,
        Error::NoName => "No name associated with intranet profile"@,
    }
}

impl Error {
    /// A printable description of the error.
    pub fn message(&self) -> (r: String)
        ensures
            r@ == message_of(*self),
    {
        match *self {
            Error::IntraError(ie) => ie.message(),
            Error::NotSignedIn => String::from_str("You are not signed in"),
            Error::Credentials => String::from_str("Invalid autologin link provided"),
            Error::NoLogin => String::from_str("No login associated with intranet profile"),
            Error::NoName => String::from_str("No name associated with intranet profile"),
        }
    }
}

/// Authentication status.
#[derive(Debug, Clone, Copy, PartialEq, Eq, Structural)]
pub enum Status {
    /// Signed in.
    SignedIn,
    /// Signed out.
    SignedOut,
    /// The last attempt to sign in failed.
    Error(Error),
}

impl Default for Status {
    /// A fresh status is signed out.
    fn default() -> (r: Status)
        ensures
            r == Status::SignedOut,
    {
        Status::SignedOut
    }
}

/// The fixed prefix of every well-formed autologin link.
pub open spec fn autologin_prefix() -> Seq<char> {
    "https://intra.epitech.eu/auth-"@
}

/// Whether a character may stand in the token part of an autologin
/// link: a lower-case letter or a digit.
pub open spec fn token_char(c: char) -> bool {
    (97 <= c as u32 && c as u32 <= 122) || (48 <= c as u32 && c as u32 <= 57)
}

/// Whether a text is a well-formed autologin link: the fixed prefix
/// followed by exactly forty lower-case letters or digits.
pub open spec fn autologin_ok(s: Seq<char>) -> bool {
    &&& s.len() == 70
    &&& s.subrange(0, 30) == autologin_prefix()
    &&& forall|i: int| 30 <= i < 70 ==> token_char(s[i])
}

/// Check the shape of an autologin link.
pub fn check_autologin(link: &str) -> (r: bool)
    ensures
        r == autologin_ok(link@),
{
    let pattern = "https://intra.epitech.eu/auth-";
    proof {
        reveal_strlit("https://intra.epitech.eu/auth-");
    }
    let n = link.unicode_len();
    if n != 70 {
        return false;
    }
    let mut i: usize = 0;
    while i < 30
        invariant
            i <= 30,
            link@.len() == 70,
            pattern@ == autologin_prefix(),
            pattern@.len() == 30,
            forall|j: int| 0 <= j < i ==> link@[j] == autologin_prefix()[j],
        decreases 30 - i,
    {
        if link.get_char(i) != pattern.get_char(i) {
            proof {
                assert(link@.subrange(0, 30)[i as int] == link@[i as int]);
            }
            return false;
        }
        i += 1;
    }
    let mut k: usize = 30;
    while k < 70
        invariant
            30 <= k <= 70,
            link@.len() == 70,
            forall|j: int| 0 <= j < 30 ==> link@[j] == autologin_prefix()[j],
            forall|j: int| 30 <= j < k ==> token_char(link@[j]),
        decreases 70 - k,
    {
        let c = link.get_char(k);
        let u = c as u32;
        let lower = 97 <= u && u <= 122;
        let digit = 48 <= u && u <= 57;
        if !(lower || digit) {
            return false;
        }
        k += 1;
    }
    proof {
        assert(link@.subrange(0, 30) =~= autologin_prefix());
    }
    true
}

/// The contents of a raw profile reply, for specifications.
#[verifier::ext_equal]
pub ghost struct RawProfileView {
    pub login: Option<Seq<char>>,
    pub title: Option<Seq<char>>,
}

/// One raw profile reply, holding the two fields the sign-in reads as
/// the remote returned them: present or absent. The account's display
/// name is spelled `title` there.
#[derive(Debug)]
pub struct RawProfile {
    /// The account's email address.
    pub login: Option<String>,
    /// The account's display name.
    pub title: Option<String>,
}

impl View for RawProfile {
    type V = RawProfileView;

    open spec fn view(&self) -> RawProfileView {
        RawProfileView { login: opt_str_view(self.login), title: opt_str_view(self.title) }
    }
}

/// The raw profile a profile reply text parses to.
pub uninterp spec fn profile_of(s: Seq<char>) -> RawProfileView;

/// Relies on serde_json::from_str::<Value> and on reading the profile's
/// fields with Value::get and Value::as_str: whether a text is JSON,
/// and the profile it holds, are functions of the text alone.
#[verifier::external_body]
fn parse_profile(raw: &str) -> (r: Option<RawProfile>)
    ensures
        r is Some <==> intra::json_value_ok(raw@),
        r matches Some(p) ==> p@ == profile_of(raw@),
{
    let v: serde_json::Value = match serde_json::from_str(raw) {
        Ok(v) => v,
        Err(_) => return None,
    };
    Some(
        RawProfile {
            login: intra::json_str_field(&v, "login"),
            title: intra::json_str_field(&v, "title"),
        },
    )
}

/// The contents of an authentication state, for specifications.
#[verifier::ext_equal]
pub ghost struct AuthView {
    pub autologin: Option<Seq<char>>,
    pub login: Option<Seq<char>>,
    pub name: Option<Seq<char>>,
    pub status: Status,
}

/// The signed-in identity: the account's autologin link, email address
/// and name once signed in, and the authentication status.
#[derive(Debug)]
pub struct Auth {
    autologin: Option<String>,
    login: Option<String>,
    name: Option<String>,
    status: Status,
}

impl View for Auth {
    type V = AuthView;

    closed spec fn view(&self) -> AuthView {
        AuthView {
            autologin: opt_str_view(self.autologin),
            login: opt_str_view(self.login),
            name: opt_str_view(self.name),
            status: self.status,
        }
    }
}

impl Auth {
    /// Create a signed-out state with empty fields.
    pub fn new() -> (r: Auth)
        ensures
            r@ == (AuthView {
                autologin: Option::None,
                login: Option::None,
                name: Option::None,
                status: Status::SignedOut,
            }),
    {
        Auth { autologin: None, login: None, name: None, status: Status::SignedOut }
    }

    /// The URL the profile of an autologin link is fetched from.
    pub fn sign_in_url(autologin: &str) -> (r: String)
        ensures
            r@ == autologin@ + "/user?format=json"@,
    {
        let mut s = autologin.to_owned();
        s.append("/user?format=json");
        s
    }

    /// Record the outcome of reading the profile's email address and
    /// name: a missing email, then a missing name, fails the sign-in;
    /// with both present the identity is stored and signed in.
    pub fn apply_profile(
        &mut self,
        autologin: &str,
        login: Option<String>,
        name: Option<String>,
    ) -> (r: Result<(), Error>)
        ensures
            login is None ==> r == Err::<(), Error>(Error::NoLogin) && final(self)@ == (AuthView {
                status: Status::Error(Error::NoLogin),
                ..old(self)@
            }),
            login is Some && name is None ==> r == Err::<(), Error>(Error::NoName) && final(self)@
                == (AuthView { status: Status::Error(Error::NoName), ..old(self)@ }),
            login is Some && name is Some ==> r == Ok::<(), Error>(()) && final(self)@
                == (AuthView {
                autologin: Option::Some(autologin@),
                login: opt_str_view(login),
                name: opt_str_view(name),
                status: Status::SignedIn,
            }),
    {
        let the_login = match login {
            Some(l) => l,
            None => {
                self.status = Status::Error(Error::NoLogin);
                return Err(Error::NoLogin);
            },
        };
        let the_name = match name {
            Some(m) => m,
            None => {
                self.status = Status::Error(Error::NoName);
                return Err(Error::NoName);
            },
        };
        self.autologin = Some(autologin.to_owned());
        self.login = Some(the_login);
        self.name = Some(the_name);
        self.status = Status::SignedIn;
        Ok(())
    }

    /// Sign in with an autologin link, given the outcome of fetching
    /// the link's profile. A link of the wrong shape fails with
    /// `Credentials` whatever the outcome holds; a transport failure
    /// propagates; otherwise the profile's email address and name are
    /// read and recorded. Every failure is recorded in the status.
    pub fn sign_in(&mut self, autologin: &str, response: Result<String, intra::Error>) -> (r:
        Result<(), Error>)
        ensures
            !autologin_ok(autologin@) ==> r == Err::<(), Error>(Error::Credentials) && final(self)@ == (AuthView { status: Status::Error(Error::Credentials), ..old(self)@ }),
            autologin_ok(autologin@) ==> (response matches Err(e) ==> r == Err::<(), Error>(
                Error::IntraError(e),
            ) && final(self)@ == (AuthView {
                status: Status::Error(Error::IntraError(e)),
                ..old(self)@
            })),
            autologin_ok(autologin@) ==> (response matches Ok(body) ==> (!intra::json_value_ok(
                body@,
            ) ==> r == Err::<(), Error>(Error::IntraError(intra::Error::Parsing)) && final(self)@
                == (AuthView {
                status: Status::Error(Error::IntraError(intra::Error::Parsing)),
                ..old(self)@
            }))),
            r matches Ok(_) ==> autologin_ok(autologin@) && final(self)@.status == Status::SignedIn
                && final(self)@.autologin == Option::Some(autologin@) && final(self)@.login is Some
                && final(self)@.name is Some,
            autologin_ok(autologin@) ==> (response matches Ok(body) ==> (intra::json_value_ok(
                body@,
            ) ==> (if profile_of(body@).login is None {
                r == Err::<(), Error>(Error::NoLogin) && final(self)@ == (AuthView {
                    status: Status::Error(Error::NoLogin),
                    ..old(self)@
                })
            } else if profile_of(body@).title is None {
                r == Err::<(), Error>(Error::NoName) && final(self)@ == (AuthView {
                    status: Status::Error(Error::NoName),
                    ..old(self)@
                })
            } else {
                r == Ok::<(), Error>(()) && final(self)@ == (AuthView {
                    autologin: Option::Some(autologin@),
                    login: profile_of(body@).login,
                    name: profile_of(body@).title,
                    status: Status::SignedIn,
                })
            }))),
    {
        if !check_autologin(autologin) {
            self.status = Status::Error(Error::Credentials);
            return Err(Error::Credentials);
        }
        let body = match response {
            Ok(b) => b,
            Err(e) => {
                self.status = Status::Error(Error::IntraError(e));
                return Err(Error::IntraError(e));
            },
        };
        let profile = match parse_profile(body.as_str()) {
            Some(p) => p,
            None => {
                self.status = Status::Error(Error::IntraError(intra::Error::Parsing));
                return Err(Error::IntraError(intra::Error::Parsing));
            },
        };
        self.apply_profile(autologin, profile.login, profile.title)
    }

    /// Sign out, clearing the identity.
    pub fn sign_out(&mut self)
        ensures
            final(self)@ == (AuthView {
                autologin: Option::None,
                login: Option::None,
                name: Option::None,
                status: Status::SignedOut,
            }),
    {
        self.autologin = None;
        self.login = None;
        self.name = None;
        self.status = Status::SignedOut;
    }

    /// The stored autologin link, if signed in.
    pub fn autologin(&self) -> (r: &Option<String>)
        ensures
            opt_str_view(*r) == self@.autologin,
    {
        &self.autologin
    }

    /// The stored email address, if signed in.
    pub fn login(&self) -> (r: &Option<String>)
        ensures
            opt_str_view(*r) == self@.login,
    {
        &self.login
    }

    /// The stored name, if signed in.
    pub fn name(&self) -> (r: &Option<String>)
        ensures
            opt_str_view(*r) == self@.name,
    {
        &self.name
    }

    /// The current authentication status.
    pub fn status(&self) -> (r: &Status)
        ensures
            *r == self@.status,
    {
        &self.status
    }

    /// The stored autologin link of a signed-in account.
    pub fn get_autologin(&self) -> (r: &str)
        requires
            self@.autologin is Some,
        ensures
            Option::Some(r@) == self@.autologin,
    {
        match &self.autologin {
            Some(s) => s.as_str(),
            None => "",
        }
    }

    /// The stored email address of a signed-in account.
    pub fn get_login(&self) -> (r: &str)
        requires
            self@.login is Some,
        ensures
            Option::Some(r@) == self@.login,
    {
        match &self.login {
            Some(s) => s.as_str(),
            None => "",
        }
    }
}

} // verus!
