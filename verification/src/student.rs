//! Students registered to an event and their presence state.
//!
//! A presence is one of five fixed states; its wire value is a total
//! function of the state. Decoding is lenient: an unrecognized non-empty
//! wire value falls back to `Failed`, an empty or absent one means that
//! no status was recorded yet.

use vstd::prelude::*;

verus! {

use vstd::string::StringExecFns;
use crate::intra;
use crate::text::{blank_str, is_blank, opt_str_view, str_eq};

/// Presence options for a student at one event.
#[derive(Debug, Clone, Copy, PartialEq, Eq, Structural)]
pub enum Presence {
    /// No status recorded yet.
    Unset,
    /// The student attended.
    Present,
    /// The student did not attend.
    Missing,
    /// The student is excused or not expected.
    NotApplicable,
    /// The student tried to record a presence but it was not saved.
    Failed,
}

/// The exact wire value of each presence state.
pub open spec fn wire_of(p: Presence) -> Seq<char> {
    match p {
        Presence::Unset => Seq::<char>::empty(),
        Presence::Present => "present"@,
        Presence::Missing => "absent"@,
        Presence::NotApplicable => "N/A"@,
        Presence::Failed => "failed"@,
    }
}

/// The presence state a wire value decodes to. An empty value means no
/// status; the canonical wire values and the state names map to their
/// state; any other value falls back to `Failed` (lenient policy).
pub open spec fn decode_of(s: Seq<char>) -> Presence {
    if s.len() == 0 {
        Presence::Unset
    } else if s == "present"@ || s == "Present"@ {
        Presence::Present
    } else if s == "absent"@ || s == "Missing"@ {
        Presence::Missing
    } else if s == "N/A"@ || s == "NotApplicable"@ {
        Presence::NotApplicable
    } else if s == "None"@ {
        Presence::Unset
    } else {
        Presence::Failed
    }
}

impl Presence {
    /// Decode a wire value, leniently.
    pub fn from(s: &str) -> (r: Presence)
        ensures
            r == decode_of(s@),
    {
        if s.is_empty() {
            Presence::Unset
        } else if str_eq(s, "present") || str_eq(s, "Present") {
            Presence::Present
        } else if str_eq(s, "absent") || str_eq(s, "Missing") {
            Presence::Missing
        } else if str_eq(s, "N/A") || str_eq(s, "NotApplicable") {
            Presence::NotApplicable
        } else if str_eq(s, "None") {
            Presence::Unset
        } else {
            Presence::Failed
        }
    }

    /// Encode this state as its wire value. Total: every state has one.
    pub fn encode(&self) -> (r: String)
        ensures
            r@ == wire_of(*self),
    {
        match *self {
            Presence::Unset => String::new(),
            Presence::Present => String::from_str("present"),
            Presence::Missing => String::from_str("absent"),
            Presence::NotApplicable => String::from_str("N/A"),
            Presence::Failed => String::from_str("failed"),
        }
    }
}

/// Law: decoding any of the five canonical wire values and encoding the
/// result gives the value back unchanged, and the empty wire value
/// decodes to `Unset`.
pub proof fn lemma_encode_decode_round_trip(s: Seq<char>)
    requires
        s.len() == 0 || s == "present"@ || s == "absent"@ || s == "N/A"@ || s == "failed"@,
    ensures
        wire_of(decode_of(s)) == s,
        s.len() == 0 ==> decode_of(s) == Presence::Unset,
{
    reveal_strlit("present");
    reveal_strlit("Present");
    reveal_strlit("absent");
    reveal_strlit("Missing");
    reveal_strlit("N/A");
    reveal_strlit("NotApplicable");
    reveal_strlit("None");
    reveal_strlit("failed");
    assert(wire_of(decode_of(s)) =~= s);
}

/// The contents of a student record, for specifications.
#[verifier::ext_equal]
pub ghost struct StudentView {
    pub login: Seq<char>,
    pub name: Seq<char>,
    pub presence: Presence,
}

/// A student registered to one event.
#[derive(Debug)]
pub struct Student {
    login: String,
    name: String,
    presence: Presence,
}

impl View for Student {
    type V = StudentView;

    closed spec fn view(&self) -> StudentView {
        StudentView { login: self.login@, name: self.name@, presence: self.presence }
    }
}

impl Student {
    /// Create a student with no presence recorded yet.
    pub fn new(login: String, name: String) -> (r: Student)
        requires
            login@.len() > 0,
        ensures
            r@ == (StudentView { login: login@, name: name@, presence: Presence::Unset }),
    {
        Student { login, name, presence: Presence::Unset }
    }

    /// The student's email address, the identifier within a roster.
    pub fn get_login(&self) -> (r: &str)
        ensures
            r@ == self@.login,
    {
        self.login.as_str()
    }

    /// The student's display name.
    pub fn get_name(&self) -> (r: &str)
        ensures
            r@ == self@.name,
    {
        self.name.as_str()
    }

    /// The student's current presence state.
    pub fn get_presence(&self) -> (r: &Presence)
        ensures
            *r == self@.presence,
    {
        &self.presence
    }

    /// Replace the presence state unconditionally.
    pub fn set_presence(&mut self, presence: Presence)
        ensures
            final(self)@ == (StudentView { presence, ..old(self)@ }),
    {
        self.presence = presence;
    }

    /// Mark the student present.
    pub fn set_present(&mut self)
        ensures
            final(self)@ == (StudentView { presence: Presence::Present, ..old(self)@ }),
    {
        self.set_presence(Presence::Present);
    }

    /// Mark the student missing.
    pub fn set_missing(&mut self)
        ensures
            final(self)@ == (StudentView { presence: Presence::Missing, ..old(self)@ }),
    {
        self.set_presence(Presence::Missing);
    }
}

/// Error possibilities when a roster is built from raw records.
#[derive(Debug, Clone, Copy, PartialEq, Eq, Structural)]
pub enum Error {
    /// The record has no login, or an empty one.
    Login,
    /// The record has no name.
    Name,
    /// The transport failed.
    Intra(intra::Error),
}

/// The printable description of each roster error.
pub open spec fn message_of(e: Error) -> Seq<char> {
    match e {
        Error::Login => "Student does not have an epitech login"@,
        Error::Name => "Student does not have a name"@,
        Error::Intra(ie) => intra::message_of(ie),
    }
}

impl Error {
    /// A printable description of the error.
    pub fn message(&self) -> (r: String)
        ensures
            r@ == message_of(*self),
    {
        match *self {
            Error::Login => String::from_str("Student does not have an epitech login"),
            Error::Name => String::from_str("Student does not have a name"),
            Error::Intra(ie) => ie.message(),
        }
    }
}

/// The contents of a raw roster record, for specifications.
#[verifier::ext_equal]
pub ghost struct RawStudentView {
    pub login: Option<Seq<char>>,
    pub title: Option<Seq<char>>,
    pub present: Option<Seq<char>>,
}

/// One raw roster record, holding each field the roster reads as the
/// remote returned it: present or absent. Field names follow the
/// remote's keys; a student's display name is spelled `title` there.
#[derive(Debug)]
pub struct RawStudent {
    /// The student's email address.
    pub login: Option<String>,
    /// The student's display name.
    pub title: Option<String>,
    /// The student's recorded presence, as a wire value.
    pub present: Option<String>,
}

impl View for RawStudent {
    type V = RawStudentView;

    open spec fn view(&self) -> RawStudentView {
        RawStudentView {
            login: opt_str_view(self.login),
            title: opt_str_view(self.title),
            present: opt_str_view(self.present),
        }
    }
}

/// Read the fields of one raw roster record out of a fetched JSON
/// value; a field that is absent or not a string is recorded absent.
fn student_fields(v: &serde_json::Value) -> RawStudent {
    RawStudent {
        login: intra::json_str_field(v, "login"),
        title: intra::json_str_field(v, "title"),
        present: intra::json_str_field(v, "present"),
    }
}

/// What building a student from a raw record yields: the error naming
/// the first missing field, or the student. The login is required and
/// must be non-empty; the name is required; an absent presence field
/// means no status was recorded yet.
pub open spec fn parse_student_of(r: RawStudentView) -> Result<StudentView, Error> {
    if !(r.login matches Some(l) && l.len() > 0) {
        Err(Error::Login)
    } else if r.title is None {
        Err(Error::Name)
    } else {
        Ok(
            StudentView {
                login: r.login->Some_0,
                name: r.title->Some_0,
                presence: match r.present {
                    Some(p) => decode_of(p),
                    None => Presence::Unset,
                },
            },
        )
    }
}

/// The view of a student-construction result, for specifications.
pub open spec fn student_res_view(r: Result<Student, Error>) -> Result<StudentView, Error> {
    match r {
        Ok(s) => Ok(s@),
        Err(e) => Err(e),
    }
}

/// Build one student from a raw roster record.
pub fn parse_student(raw: &RawStudent) -> (r: Result<Student, Error>)
    ensures
        student_res_view(r) == parse_student_of(raw@),
{
    let login = match &raw.login {
        Some(l) => {
            if l.as_str().is_empty() {
                return Err(Error::Login);
            }
            l.clone()
        },
        None => return Err(Error::Login),
    };
    let name = match &raw.title {
        Some(t) => t.clone(),
        None => return Err(Error::Name),
    };
    let presence = match &raw.present {
        Some(p) => Presence::from(p.as_str()),
        None => Presence::Unset,
    };
    Ok(Student { login, name, presence })
}

/// What building a roster from a sequence of raw records yields: the
/// students, in order, or the first construction error.
pub open spec fn students_of(rs: Seq<RawStudentView>) -> Result<Seq<StudentView>, Error>
    decreases rs.len(),
{
    if rs.len() == 0 {
        Ok(Seq::empty())
    } else {
        match parse_student_of(rs[0]) {
            Err(e) => Err(e),
            Ok(head) => match students_of(rs.drop_first()) {
                Err(e) => Err(e),
                Ok(tail) => Ok(seq![head] + tail),
            },
        }
    }
}

/// The raw-record contents of a sequence of records.
pub open spec fn raw_students_view(s: Seq<RawStudent>) -> Seq<RawStudentView> {
    s.map_values(|r: RawStudent| r@)
}

/// The view of a roster result, for specifications.
pub open spec fn students_res_view(r: Result<Vec<Student>, Error>) -> Result<
    Seq<StudentView>,
    Error,
> {
    match r {
        Ok(v) => Ok(v@.map_values(|s: Student| s@)),
        Err(e) => Err(e),
    }
}

/// The roster invariant: every student's login is non-empty, and no
/// two students of one roster share a login.
pub open spec fn roster_wf(ss: Seq<StudentView>) -> bool {
    &&& forall|i: int| 0 <= i < ss.len() ==> (#[trigger] ss[i]).login.len() > 0
    &&& forall|i: int, j: int|
        0 <= i < j < ss.len() ==> (#[trigger] ss[i]).login != (#[trigger] ss[j]).login
}

/// Whether one built student carries exactly their record's login.
pub open spec fn login_follows_record(r: RawStudentView, s: StudentView) -> bool {
    r.login matches Some(l) && s.login == l && s.login.len() > 0
}

/// Construction keeps each record's login, in order.
pub open spec fn logins_follow_records(rs: Seq<RawStudentView>, ss: Seq<StudentView>) -> bool {
    &&& ss.len() == rs.len()
    &&& forall|i: int| 0 <= i < rs.len() ==> login_follows_record(rs[i], #[trigger] ss[i])
}

proof fn lemma_students_of_logins(rs: Seq<RawStudentView>)
    requires
        students_of(rs) is Ok,
    ensures
        logins_follow_records(rs, students_of(rs)->Ok_0),
    decreases rs.len(),
{
    if rs.len() > 0 {
        lemma_students_of_logins(rs.drop_first());
        let head = parse_student_of(rs[0])->Ok_0;
        let tail = students_of(rs.drop_first())->Ok_0;
        let ss = students_of(rs)->Ok_0;
        assert(ss == seq![head] + tail);
        assert forall|i: int| 0 <= i < rs.len() implies login_follows_record(
            rs[i],
            #[trigger] ss[i],
        ) by {
            if i == 0 {
                assert(ss[0] == head);
            } else {
                assert(ss[i] == tail[i - 1]);
                assert(rs.drop_first()[i - 1] == rs[i]);
            }
        }
    }
}

/// Law: a roster built from records whose logins are pairwise distinct
/// satisfies the roster invariant — construction keeps every record's
/// login, in order, and demands it non-empty.
pub proof fn lemma_roster_wf_from_records(rs: Seq<RawStudentView>)
    requires
        students_of(rs) is Ok,
        forall|i: int, j: int|
            0 <= i < j < rs.len() ==> (#[trigger] rs[i]).login != (#[trigger] rs[j]).login,
    ensures
        roster_wf(students_of(rs)->Ok_0),
{
    lemma_students_of_logins(rs);
    let ss = students_of(rs)->Ok_0;
    assert forall|i: int, j: int| 0 <= i < j < ss.len() implies (#[trigger] ss[i]).login != (
    #[trigger] ss[j]).login by {
        assert(login_follows_record(rs[i], ss[i]));
        assert(login_follows_record(rs[j], ss[j]));
        if ss[i].login == ss[j].login {
            assert(rs[i].login == rs[j].login);
        }
    }
}

/// Build a roster from raw records, in the order given. The first
/// construction error aborts the roster: a failed fetch never yields a
/// partial one.
pub fn students_from_records(records: &Vec<RawStudent>) -> (r: Result<Vec<Student>, Error>)
    ensures
        students_res_view(r) == students_of(raw_students_view(records@)),
{
    let ghost all = raw_students_view(records@);
    let mut out: Vec<Student> = Vec::new();
    let n = records.len();
    let mut i: usize = 0;
    proof {
        assert(all.skip(0) =~= all);
    }
    while i < n
        invariant
            i <= n,
            n == records.len(),
            all == raw_students_view(records@),
            students_of(all) == (match students_of(all.skip(i as int)) {
                Ok(tail) => Ok::<Seq<StudentView>, Error>(
                    out@.map_values(|s: Student| s@) + tail,
                ),
                Err(e) => Err::<Seq<StudentView>, Error>(e),
            }),
        decreases n - i,
    {
        proof {
            assert(all.skip(i as int).len() > 0);
            assert(all.skip(i as int)[0] == all[i as int]);
            assert(all.skip(i as int).drop_first() =~= all.skip(i as int + 1));
            assert(all[i as int] == records@[i as int]@);
        }
        match parse_student(&records[i]) {
            Err(e) => {
                return Err(e);
            },
            Ok(s) => {
                let ghost prev = out@;
                out.push(s);
                proof {
                    assert(out@.map_values(|x: Student| x@) =~= prev.map_values(
                        |x: Student| x@,
                    ).push(s@));
                    if students_of(all.skip(i as int + 1)) is Ok {
                        let tail = students_of(all.skip(i as int + 1))->Ok_0;
                        assert(prev.map_values(|x: Student| x@) + (seq![s@] + tail)
                            =~= out@.map_values(|x: Student| x@) + tail);
                    }
                }
            },
        }
        i += 1;
    }
    proof {
        assert(all.skip(n as int) =~= Seq::<RawStudentView>::empty());
        assert(out@.map_values(|s: Student| s@) + Seq::<StudentView>::empty() =~= out@.map_values(
            |s: Student| s@,
        ));
    }
    Ok(out)
}

/// The raw records a roster reply text parses to, one per element of
/// its JSON array, in order.
pub uninterp spec fn roster_records_of(s: Seq<char>) -> Seq<RawStudentView>;

/// Relies on serde_json::from_str::<Vec<Value>> and on reading each
/// record's fields with Value::get and Value::as_str: whether a text is
/// a JSON array, and the records it holds, are functions of the text
/// alone.
#[verifier::external_body]
fn parse_roster_records(raw: &str) -> (r: Option<Vec<RawStudent>>)
    ensures
        r is Some <==> intra::json_array_ok(raw@),
        r matches Some(v) ==> raw_students_view(v@) == roster_records_of(raw@),
{
    let values: Vec<serde_json::Value> = match serde_json::from_str(raw) {
        Ok(v) => v,
        Err(_) => return None,
    };
    Some(values.iter().map(student_fields).collect())
}

/// Classify a roster reply and read its records: a blank body is the
/// remote's explicit no-data signal, a non-blank body that is not a
/// JSON array is malformed, and anything else yields the records in
/// order.
pub fn parse_roster_reply(body: &str) -> (r: Result<Vec<RawStudent>, intra::Error>)
    ensures
        is_blank(body@) ==> r == Err::<Vec<RawStudent>, intra::Error>(intra::Error::Empty),
        !is_blank(body@) ==> (if intra::json_array_ok(body@) {
            r matches Ok(v) && raw_students_view(v@) == roster_records_of(body@)
        } else {
            r == Err::<Vec<RawStudent>, intra::Error>(intra::Error::Parsing)
        }),
{
    if blank_str(body) {
        return Err(intra::Error::Empty);
    }
    match parse_roster_records(body) {
        Some(v) => Ok(v),
        None => Err(intra::Error::Parsing),
    }
}

/// Build an event's roster from the outcome of fetching its registered
/// students. An explicit empty reply — the transport's no-data signal,
/// or a blank body — means nobody signed up and yields an empty roster
/// rather than an error. Any other transport failure propagates, and a
/// non-blank body that is not a JSON array is a parse error, never
/// silently dropped.
pub fn fetch_students(response: Result<String, intra::Error>) -> (r: Result<Vec<Student>, Error>)
    ensures
        response matches Err(e) ==> (if e == intra::Error::Empty {
            r matches Ok(v) && v@.len() == 0
        } else {
            r == Err::<Vec<Student>, Error>(Error::Intra(e))
        }),
        response matches Ok(body) ==> (if is_blank(body@) {
            r matches Ok(v) && v@.len() == 0
        } else if !intra::json_array_ok(body@) {
            r == Err::<Vec<Student>, Error>(Error::Intra(intra::Error::Parsing))
        } else {
            students_res_view(r) == students_of(roster_records_of(body@))
        }),
{
    match response {
        Err(e) => {
            if e == intra::Error::Empty {
                Ok(Vec::new())
            } else {
                Err(Error::Intra(e))
            }
        },
        Ok(body) => {
            match parse_roster_reply(body.as_str()) {
                Err(e) => {
                    if e == intra::Error::Empty {
                        Ok(Vec::new())
                    } else {
                        Err(Error::Intra(e))
                    }
                },
                Ok(raws) => students_from_records(&raws),
            }
        },
    }
}

} // verus!
