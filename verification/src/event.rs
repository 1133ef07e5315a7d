//! Events and their rosters: the five-component identity code, the
//! paths it addresses on the intranet, and the presence mutators.

use vstd::prelude::*;

verus! {

use vstd::string::StringExecFns;
use vstd::string::StrSliceExecFns;
use crate::intra;
use crate::student::{roster_wf, wire_of, Presence, Student, StudentView};
use crate::text::{append_dec, blank_str, dec_of, is_blank, opt_str_view, str_eq};

/// The contents of an identity code, for specifications.
#[verifier::ext_equal]
pub ghost struct CodeView {
    pub year: Seq<char>,
    pub module: Seq<char>,
    pub instance: Seq<char>,
    pub acti: Seq<char>,
    pub event: Seq<char>,
}

/// The five-component identity code of an event: school year, module,
/// instance, activity and event, each a required string component.
#[derive(Debug)]
pub struct Code {
    year: String,
    module: String,
    instance: String,
    acti: String,
    event: String,
}

impl View for Code {
    type V = CodeView;

    closed spec fn view(&self) -> CodeView {
        CodeView {
            year: self.year@,
            module: self.module@,
            instance: self.instance@,
            acti: self.acti@,
            event: self.event@,
        }
    }
}

impl Code {
    /// School year of the event.
    pub fn year(&self) -> (r: &str)
        ensures
            r@ == self@.year,
    {
        self.year.as_str()
    }

    /// Code of the module.
    pub fn module(&self) -> (r: &str)
        ensures
            r@ == self@.module,
    {
        self.module.as_str()
    }

    /// Code of the instance of the module.
    pub fn instance(&self) -> (r: &str)
        ensures
            r@ == self@.instance,
    {
        self.instance.as_str()
    }

    /// Code of the activity.
    pub fn acti(&self) -> (r: &str)
        ensures
            r@ == self@.acti,
    {
        self.acti.as_str()
    }

    /// Code of the event.
    pub fn event(&self) -> (r: &str)
        ensures
            r@ == self@.event,
    {
        self.event.as_str()
    }
}

/// The path that addresses one event on the remote system, a pure
/// function of the five code components.
pub open spec fn identity_path_of(c: CodeView) -> Seq<char> {
    "/module/"@ + c.year + "/"@ + c.module + "/"@ + c.instance + "/"@ + c.acti + "/"@ + c.event
}

/// The path of the event's human-facing intranet page, a pure function
/// of the first four code components.
pub open spec fn page_path_of(c: CodeView) -> Seq<char> {
    "/module/"@ + c.year + "/"@ + c.module + "/"@ + c.instance + "/"@ + c.acti
}

/// Law: for every identity code, the event path and the page path agree
/// except for the trailing event component of the former.
pub proof fn lemma_identity_page_paths(c: CodeView)
    ensures
        identity_path_of(c) == page_path_of(c) + "/"@ + c.event,
{
    assert(identity_path_of(c) =~= page_path_of(c) + "/"@ + c.event);
}

/// The contents of an event, for specifications.
#[verifier::ext_equal]
pub ghost struct EventView {
    pub code: CodeView,
    pub title: Seq<char>,
    pub module: Seq<char>,
    pub start: Seq<char>,
    pub end: Seq<char>,
    pub students: Seq<StudentView>,
}

/// An event with its identity code, display labels, start and end
/// times of day, and the ordered roster of registered students.
///
/// A roster the remote serves is unique by login (`roster_wf`, see
/// `lemma_roster_wf_from_records`), and every presence mutator keeps it
/// so (`lemma_mutators_preserve_roster_wf`): mutation never adds,
/// removes or renames a student.
#[derive(Debug)]
pub struct Event {
    /// Identity code of the event.
    pub code: Code,
    title: String,
    module: String,
    start: String,
    end: String,
    /// Registered students, in roster fetch order.
    pub students: Vec<Student>,
}

/// The roster contents of a sequence of students.
pub open spec fn roster_view(ss: Seq<Student>) -> Seq<StudentView> {
    ss.map_values(|s: Student| s@)
}

impl View for Event {
    type V = EventView;

    closed spec fn view(&self) -> EventView {
        EventView {
            code: self.code@,
            title: self.title@,
            module: self.module@,
            start: self.start@,
            end: self.end@,
            students: roster_view(self.students@),
        }
    }
}

/// Every student's presence replaced by `p`.
pub open spec fn set_all_of(ss: Seq<StudentView>, p: Presence) -> Seq<StudentView> {
    ss.map_values(|s: StudentView| StudentView { presence: p, ..s })
}

/// The presence of every student still unset replaced by `p`; decided
/// students keep their state.
pub open spec fn set_remaining_of(ss: Seq<StudentView>, p: Presence) -> Seq<StudentView> {
    ss.map_values(
        |s: StudentView|
            if s.presence == Presence::Unset {
                StudentView { presence: p, ..s }
            } else {
                s
            },
    )
}

/// Whether some student in the roster has this login.
pub open spec fn has_login(ss: Seq<StudentView>, login: Seq<char>) -> bool {
    exists|i: int| 0 <= i < ss.len() && ss[i].login == login
}

/// The roster with the first student of this login, if any, set to `p`;
/// unchanged when no student has the login.
pub open spec fn set_login_of(ss: Seq<StudentView>, login: Seq<char>, p: Presence) -> Seq<
    StudentView,
>
    decreases ss.len(),
{
    if ss.len() == 0 {
        ss
    } else if ss[0].login == login {
        seq![StudentView { presence: p, ..ss[0] }] + ss.drop_first()
    } else {
        seq![ss[0]] + set_login_of(ss.drop_first(), login, p)
    }
}

proof fn lemma_set_login_absent(ss: Seq<StudentView>, login: Seq<char>, p: Presence)
    requires
        !has_login(ss, login),
    ensures
        set_login_of(ss, login, p) == ss,
    decreases ss.len(),
{
    if ss.len() > 0 {
        assert(ss[0].login != login);
        assert(!has_login(ss.drop_first(), login)) by {
            assert forall|i: int| 0 <= i < ss.drop_first().len() implies ss.drop_first()[i].login
                != login by {
                assert(ss.drop_first()[i] == ss[i + 1]);
            }
        }
        lemma_set_login_absent(ss.drop_first(), login, p);
        assert(set_login_of(ss, login, p) =~= ss);
    }
}

proof fn lemma_set_login_at(ss: Seq<StudentView>, login: Seq<char>, p: Presence, i: int)
    requires
        0 <= i < ss.len(),
        ss[i].login == login,
        forall|j: int| 0 <= j < i ==> ss[j].login != login,
    ensures
        set_login_of(ss, login, p) == ss.update(i, (StudentView { presence: p, ..ss[i] })),
    decreases i,
{
    if i == 0 {
        assert(set_login_of(ss, login, p) =~= ss.update(
            0,
            (StudentView { presence: p, ..ss[0] }),
        ));
    } else {
        assert(forall|j: int| 0 <= j < i - 1 ==> ss.drop_first()[j] == ss[j + 1]);
        lemma_set_login_at(ss.drop_first(), login, p, i - 1);
        assert(ss.drop_first()[i - 1] == ss[i]);
        assert(set_login_of(ss, login, p) =~= ss.update(i, (StudentView { presence: p, ..ss[i] })));
    }
}

impl Event {
    /// The path addressing this event on the remote system.
    pub fn code(&self) -> (r: String)
        ensures
            r@ == identity_path_of(self@.code),
    {
        let mut s = String::from_str("/module/");
        s.append(self.code.year.as_str());
        s.append("/");
        s.append(self.code.module.as_str());
        s.append("/");
        s.append(self.code.instance.as_str());
        s.append("/");
        s.append(self.code.acti.as_str());
        s.append("/");
        s.append(self.code.event.as_str());
        proof {
            assert(s@ =~= identity_path_of(self@.code));
        }
        s
    }

    /// The path of this event's intranet page.
    pub fn intra_page(&self) -> (r: String)
        ensures
            r@ == page_path_of(self@.code),
    {
        let mut s = String::from_str("/module/");
        s.append(self.code.year.as_str());
        s.append("/");
        s.append(self.code.module.as_str());
        s.append("/");
        s.append(self.code.instance.as_str());
        s.append("/");
        s.append(self.code.acti.as_str());
        proof {
            assert(s@ =~= page_path_of(self@.code));
        }
        s
    }

    /// The event's title.
    pub fn title(&self) -> (r: &str)
        ensures
            r@ == self@.title,
    {
        self.title.as_str()
    }

    /// The display label of the event's module.
    pub fn module(&self) -> (r: &str)
        ensures
            r@ == self@.module,
    {
        self.module.as_str()
    }

    /// Start time of day, `HH:MM`.
    pub fn start(&self) -> (r: &str)
        ensures
            r@ == self@.start,
    {
        self.start.as_str()
    }

    /// End time of day, `HH:MM`.
    pub fn end(&self) -> (r: &str)
        ensures
            r@ == self@.end,
    {
        self.end.as_str()
    }

    /// The roster of registered students.
    pub fn students(&self) -> (r: &Vec<Student>)
        ensures
            roster_view(r@) == self@.students,
    {
        &self.students
    }

    /// Set the presence of the student with this login. Returns whether
    /// such a student exists; a missing login changes nothing and is
    /// not an error.
    pub fn set_student_presence(&mut self, login: &str, presence: Presence) -> (r: bool)
        ensures
            r == has_login(old(self)@.students, login@),
            final(self)@ == (EventView {
                students: set_login_of(old(self)@.students, login@, presence),
                ..old(self)@
            }),
    {
        let n = self.students.len();
        let mut i: usize = 0;
        while i < n
            invariant
                i <= n,
                n == self.students.len(),
                *self == *old(self),
                forall|j: int| 0 <= j < i ==> self@.students[j].login != login@,
            decreases n - i,
        {
            if str_eq(self.students[i].get_login(), login) {
                assert(self@.students[i as int].login == login@);
                self.students[i].set_presence(presence);
                proof {
                    lemma_set_login_at(old(self)@.students, login@, presence, i as int);
                    assert(roster_view(self.students@) =~= set_login_of(
                        old(self)@.students,
                        login@,
                        presence,
                    ));
                }
                return true;
            }
            i += 1;
        }
        proof {
            lemma_set_login_absent(self@.students, login@, presence);
        }
        false
    }

    /// Set the student with this login present.
    pub fn set_student_present(&mut self, login: &str) -> (r: bool)
        ensures
            r == has_login(old(self)@.students, login@),
            final(self)@ == (EventView {
                students: set_login_of(old(self)@.students, login@, Presence::Present),
                ..old(self)@
            }),
    {
        self.set_student_presence(login, Presence::Present)
    }

    /// Set the student with this login missing.
    pub fn set_student_missing(&mut self, login: &str) -> (r: bool)
        ensures
            r == has_login(old(self)@.students, login@),
            final(self)@ == (EventView {
                students: set_login_of(old(self)@.students, login@, Presence::Missing),
                ..old(self)@
            }),
    {
        self.set_student_presence(login, Presence::Missing)
    }

    /// Clear the presence of the student with this login.
    pub fn set_student_none(&mut self, login: &str) -> (r: bool)
        ensures
            r == has_login(old(self)@.students, login@),
            final(self)@ == (EventView {
                students: set_login_of(old(self)@.students, login@, Presence::Unset),
                ..old(self)@
            }),
    {
        self.set_student_presence(login, Presence::Unset)
    }

    /// Set the student with this login not applicable.
    pub fn set_student_not_applicable(&mut self, login: &str) -> (r: bool)
        ensures
            r == has_login(old(self)@.students, login@),
            final(self)@ == (EventView {
                students: set_login_of(old(self)@.students, login@, Presence::NotApplicable),
                ..old(self)@
            }),
    {
        self.set_student_presence(login, Presence::NotApplicable)
    }

    fn set_all_students_presence(&mut self, presence: Presence)
        ensures
            final(self)@ == (EventView {
                students: set_all_of(old(self)@.students, presence),
                ..old(self)@
            }),
    {
        let n = self.students.len();
        let mut i: usize = 0;
        while i < n
            invariant
                i <= n,
                n == self.students.len(),
                self.code == old(self).code,
                self.title == old(self).title,
                self.module == old(self).module,
                self.start == old(self).start,
                self.end == old(self).end,
                forall|j: int|
                    0 <= j < i ==> self.students@[j]@ == (StudentView {
                        presence,
                        ..old(self).students@[j]@
                    }),
                forall|j: int| i <= j < n ==> self.students@[j] == old(self).students@[j],
            decreases n - i,
        {
            let ghost prev = self.students@;
            self.students[i].set_presence(presence);
            proof {
                assert forall|j: int| 0 <= j < i + 1 implies self.students@[j]@ == (StudentView {
                    presence,
                    ..old(self).students@[j]@
                }) by {
                    if j < i {
                        assert(self.students@[j] == prev[j]);
                        assert(prev[j]@ == (StudentView { presence, ..old(self).students@[j]@ }));
                    } else {
                        assert(prev[i as int] == old(self).students@[i as int]);
                    }
                }
                assert forall|j: int| i + 1 <= j < n implies self.students@[j] == old(
                    self,
                ).students@[j] by {
                    assert(self.students@[j] == prev[j]);
                }
            }
            i += 1;
        }
        proof {
            assert forall|j: int| 0 <= j < n implies roster_view(self.students@)[j] == set_all_of(
                old(self)@.students,
                presence,
            )[j] by {
                assert(self.students@[j]@ == (StudentView {
                    presence,
                    ..old(self).students@[j]@
                }));
                assert(old(self)@.students[j] == old(self).students@[j]@);
            }
            assert(roster_view(self.students@) =~= set_all_of(old(self)@.students, presence));
            assert(self@ =~= (EventView {
                students: set_all_of(old(self)@.students, presence),
                ..old(self)@
            }));
        }
    }

    /// Set every student present.
    pub fn set_all_students_present(&mut self)
        ensures
            final(self)@ == (EventView {
                students: set_all_of(old(self)@.students, Presence::Present),
                ..old(self)@
            }),
    {
        self.set_all_students_presence(Presence::Present);
    }

    /// Set every student missing.
    pub fn set_all_students_missing(&mut self)
        ensures
            final(self)@ == (EventView {
                students: set_all_of(old(self)@.students, Presence::Missing),
                ..old(self)@
            }),
    {
        self.set_all_students_presence(Presence::Missing);
    }

    /// Clear every student's presence.
    pub fn set_all_students_none(&mut self)
        ensures
            final(self)@ == (EventView {
                students: set_all_of(old(self)@.students, Presence::Unset),
                ..old(self)@
            }),
    {
        self.set_all_students_presence(Presence::Unset);
    }

    /// Set every student not applicable.
    pub fn set_all_students_not_applicable(&mut self)
        ensures
            final(self)@ == (EventView {
                students: set_all_of(old(self)@.students, Presence::NotApplicable),
                ..old(self)@
            }),
    {
        self.set_all_students_presence(Presence::NotApplicable);
    }

    fn set_remaining_students_presence(&mut self, presence: Presence)
        ensures
            final(self)@ == (EventView {
                students: set_remaining_of(old(self)@.students, presence),
                ..old(self)@
            }),
    {
        let n = self.students.len();
        let mut i: usize = 0;
        while i < n
            invariant
                i <= n,
                n == self.students.len(),
                self.code == old(self).code,
                self.title == old(self).title,
                self.module == old(self).module,
                self.start == old(self).start,
                self.end == old(self).end,
                forall|j: int|
                    0 <= j < i ==> self.students@[j]@ == (if old(self).students@[j]@.presence
                        == Presence::Unset {
                        StudentView { presence, ..old(self).students@[j]@ }
                    } else {
                        old(self).students@[j]@
                    }),
                forall|j: int| i <= j < n ==> self.students@[j] == old(self).students@[j],
            decreases n - i,
        {
            let ghost prev = self.students@;
            let undecided = matches!(*self.students[i].get_presence(), Presence::Unset);
            if undecided {
                self.students[i].set_presence(presence);
            }
            proof {
                assert forall|j: int| 0 <= j < i + 1 implies self.students@[j]@ == (if old(
                    self,
                ).students@[j]@.presence == Presence::Unset {
                    StudentView { presence, ..old(self).students@[j]@ }
                } else {
                    old(self).students@[j]@
                }) by {
                    if j < i {
                        assert(self.students@[j] == prev[j]);
                        assert(prev[j]@ == (if old(self).students@[j]@.presence
                            == Presence::Unset {
                            StudentView { presence, ..old(self).students@[j]@ }
                        } else {
                            old(self).students@[j]@
                        }));
                    } else {
                        assert(prev[i as int] == old(self).students@[i as int]);
                    }
                }
                assert forall|j: int| i + 1 <= j < n implies self.students@[j] == old(
                    self,
                ).students@[j] by {
                    assert(self.students@[j] == prev[j]);
                }
            }
            i += 1;
        }
        proof {
            assert forall|j: int| 0 <= j < n implies roster_view(self.students@)[j]
                == set_remaining_of(old(self)@.students, presence)[j] by {
                assert(old(self)@.students[j] == old(self).students@[j]@);
                assert(self.students@[j]@ == (if old(self).students@[j]@.presence
                    == Presence::Unset {
                    StudentView { presence, ..old(self).students@[j]@ }
                } else {
                    old(self).students@[j]@
                }));
            }
            assert(roster_view(self.students@) =~= set_remaining_of(
                old(self)@.students,
                presence,
            ));
            assert(self@ =~= (EventView {
                students: set_remaining_of(old(self)@.students, presence),
                ..old(self)@
            }));
        }
    }

    /// Set every student still undecided present.
    pub fn set_remaining_students_present(&mut self)
        ensures
            final(self)@ == (EventView {
                students: set_remaining_of(old(self)@.students, Presence::Present),
                ..old(self)@
            }),
    {
        self.set_remaining_students_presence(Presence::Present);
    }

    /// Set every student still undecided missing.
    pub fn set_remaining_students_missing(&mut self)
        ensures
            final(self)@ == (EventView {
                students: set_remaining_of(old(self)@.students, Presence::Missing),
                ..old(self)@
            }),
    {
        self.set_remaining_students_presence(Presence::Missing);
    }
}

/// The key carrying the login of the student at position `i` in the
/// bulk-update form.
pub open spec fn login_key_of(i: nat) -> Seq<char> {
    "items["@ + dec_of(i) + "][login]"@
}

/// The key carrying the presence of the student at position `i` in the
/// bulk-update form.
pub open spec fn present_key_of(i: nat) -> Seq<char> {
    "items["@ + dec_of(i) + "][present]"@
}

/// The exact bulk-update form of a roster: two entries per student, in
/// roster order, the login entry first, each keyed by the student's
/// position.
pub open spec fn wire_pairs(ss: Seq<StudentView>) -> Seq<(Seq<char>, Seq<char>)> {
    Seq::new(
        2 * ss.len(),
        |k: int|
            if k % 2 == 0 {
                (login_key_of((k / 2) as nat), ss[k / 2].login)
            } else {
                (present_key_of((k / 2) as nat), wire_of(ss[k / 2].presence))
            },
    )
}

impl Event {
    /// Encode the roster in the exact key/value form the bulk-update
    /// endpoint requires.
    pub fn export_students(&self) -> (r: Vec<(String, String)>)
        ensures
            r@.len() == wire_pairs(self@.students).len(),
            forall|k: int|
                0 <= k < r@.len() ==> r@[k].0@ == wire_pairs(self@.students)[k].0 && r@[k].1@
                    == wire_pairs(self@.students)[k].1,
    {
        let mut out: Vec<(String, String)> = Vec::new();
        let n = self.students.len();
        let mut i: usize = 0;
        while i < n
            invariant
                i <= n,
                n == self.students.len(),
                out@.len() == 2 * i,
                forall|k: int|
                    0 <= k < 2 * i ==> out@[k].0@ == wire_pairs(self@.students)[k].0 && out@[k].1@
                        == wire_pairs(self@.students)[k].1,
            decreases n - i,
        {
            let mut login_key = String::from_str("items[");
            append_dec(&mut login_key, i);
            login_key.append("][login]");
            let mut present_key = String::from_str("items[");
            append_dec(&mut present_key, i);
            present_key.append("][present]");
            let login_value = self.students[i].get_login().to_owned();
            let present_value = self.students[i].get_presence().encode();
            proof {
                assert(login_key@ =~= login_key_of(i as nat));
                assert(present_key@ =~= present_key_of(i as nat));
                assert(self@.students[i as int] == self.students@[i as int]@);
            }
            out.push((login_key, login_value));
            out.push((present_key, present_value));
            i += 1;
        }
        out
    }

    /// Close out the roster and encode it for upload: every student
    /// still undecided becomes missing, then the roster is encoded in
    /// the bulk-update form.
    pub fn save_form(&mut self) -> (r: Vec<(String, String)>)
        ensures
            final(self)@ == (EventView {
                students: set_remaining_of(old(self)@.students, Presence::Missing),
                ..old(self)@
            }),
            r@.len() == wire_pairs(final(self)@.students).len(),
            forall|k: int|
                0 <= k < r@.len() ==> r@[k].0@ == wire_pairs(final(self)@.students)[k].0
                    && r@[k].1@ == wire_pairs(final(self)@.students)[k].1,
    {
        self.set_remaining_students_missing();
        self.export_students()
    }

    /// The URL the encoded roster is uploaded to, under the caller's
    /// autologin link.
    pub fn upload_url(&self, autologin: &str) -> (r: String)
        ensures
            r@ == autologin@ + identity_path_of(self@.code) + "/updateregistered?format=json"@,
    {
        let mut s = autologin.to_owned();
        let path = self.code();
        s.append(path.as_str());
        s.append("/updateregistered?format=json");
        s
    }

    /// The URL the event's roster is fetched from, under the caller's
    /// autologin link.
    pub fn registered_url(&self, autologin: &str) -> (r: String)
        ensures
            r@ == autologin@ + identity_path_of(self@.code) + "/registered?format=json"@,
    {
        let mut s = autologin.to_owned();
        let path = self.code();
        s.append(path.as_str());
        s.append("/registered?format=json");
        s
    }
}

/// Error possibilities when an event is built from a raw record or
/// listed from the remote planning.
#[derive(Debug, Clone, Copy, PartialEq, Eq, Structural)]
pub enum Error {
    /// The record lacks one of the five identity-code components.
    EventURL,
    /// The record has no title.
    Title,
    /// The record is not linked to a module.
    Module,
    /// The record has no parsable starting time.
    TimeStart,
    /// The record has no parsable finish time.
    TimeEnd,
    /// The date to list events for is not a well-formed calendar date.
    Date,
    /// The transport failed.
    Intra(intra::Error),
}

/// The printable description of each event error.
pub open spec fn message_of(e: Error) -> Seq<char> {
    match e {
        Error::EventURL => "This event doesn't have a url"@,
        Error::Title => "This event does not have a title"@,
        Error::Module => "This event does not belong to a module"@,
        Error::TimeStart => "This event does not have a starting time"@,
        Error::TimeEnd => "This event does not have a finish time"@,
        Error::Date => "The date is not a well-formed calendar date"@,
        Error::Intra(ie) => intra::message_of(ie),
    }
}

impl Error {
    /// A printable description of the error.
    pub fn message(&self) -> (r: String)
        ensures
            r@ == message_of(*self),
    {
        match *self {
            Error::EventURL => String::from_str("This event doesn't have a url"),
            Error::Title => String::from_str("This event does not have a title"),
            Error::Module => String::from_str("This event does not belong to a module"),
            Error::TimeStart => String::from_str("This event does not have a starting time"),
            Error::TimeEnd => String::from_str("This event does not have a finish time"),
            Error::Date => String::from_str("The date is not a well-formed calendar date"),
            Error::Intra(ie) => ie.message(),
        }
    }
}

/// Which of the two times of a record is meant.
#[derive(Debug, Clone, Copy)]
pub enum Time {
    /// The event's start.
    Start,
    /// The event's end.
    End,
}

/// Whether a text is a well-formed calendar date, `YYYY-MM-DD`.
pub uninterp spec fn date_valid(s: Seq<char>) -> bool;

/// Relies on chrono::NaiveDate::parse_from_str with the `%Y-%m-%d`
/// format: whether a text parses as a calendar date is a function of
/// the text alone.
#[verifier::external_body]
fn parse_date_ok(s: &str) -> (r: bool)
    ensures
        r == date_valid(s@),
{
    chrono::NaiveDate::parse_from_str(s, "%Y-%m-%d").is_ok()
}

/// The time of day, zero-padded `HH:MM`, kept from a text holding a
/// full date-time, when that text parses.
pub uninterp spec fn time_of(s: Seq<char>) -> Option<Seq<char>>;

/// Whether a character is a decimal digit.
pub open spec fn dec_digit(c: char) -> bool {
    48 <= c as u32 && c as u32 <= 57
}

/// The value of a decimal digit character.
pub open spec fn digit_val(c: char) -> nat {
    (c as u32 - 48) as nat
}

/// The shape of a kept time of day: five characters, a zero-padded
/// two-digit hour below twenty-four, a colon, and a zero-padded
/// two-digit minute below sixty.
pub open spec fn hhmm_ok(t: Seq<char>) -> bool {
    &&& t.len() == 5
    &&& dec_digit(t[0]) && dec_digit(t[1]) && t[2] == ':' && dec_digit(t[3]) && dec_digit(t[4])
    &&& digit_val(t[0]) * 10 + digit_val(t[1]) <= 23
    &&& digit_val(t[3]) * 10 + digit_val(t[4]) <= 59
}

/// Whether every event of a listing carries times of the `HH:MM`
/// shape.
pub open spec fn times_wf(vs: Seq<Event>) -> bool {
    forall|j: int| 0 <= j < vs.len() ==> hhmm_ok((#[trigger] vs[j])@.start) && hhmm_ok(vs[j]@.end)
}

/// Relies on chrono::NaiveDateTime::parse_from_str with the
/// `%Y-%m-%d %H:%M:%S` format, and on rendering the parsed value with
/// `%H:%M`: both are functions of the text alone. The hour (0 to 23)
/// and minute (0 to 59) are each rendered as exactly two zero-padded
/// digits, so the result always has the `HH:MM` shape.
#[verifier::external_body]
fn datetime_to_hhmm(s: &str) -> (r: Option<String>)
    ensures
        r is Some <==> time_of(s@) is Some,
        r matches Some(t) ==> time_of(s@) == Some(t@) && hhmm_ok(t@),
{
    match chrono::NaiveDateTime::parse_from_str(s, "%Y-%m-%d %H:%M:%S") {
        Ok(dt) => Some(dt.format("%H:%M").to_string()),
        Err(_) => None,
    }
}

/// The contents of a raw planning record, for specifications.
#[verifier::ext_equal]
pub ghost struct RawEventView {
    pub is_rdv: Option<Seq<char>>,
    pub scolaryear: Option<Seq<char>>,
    pub codemodule: Option<Seq<char>>,
    pub codeinstance: Option<Seq<char>>,
    pub codeacti: Option<Seq<char>>,
    pub codeevent: Option<Seq<char>>,
    pub acti_title: Option<Seq<char>>,
    pub titlemodule: Option<Seq<char>>,
    pub start: Option<Seq<char>>,
    pub end: Option<Seq<char>>,
}

/// One raw event record, holding each field the construction reads as
/// the remote returned it: present or absent. Field names follow the
/// remote's keys; the module display label, spelled `titlemodule` in
/// planning records and `module_title` in single-event records, lands
/// in `titlemodule` either way.
#[derive(Debug)]
pub struct RawEvent {
    /// Token-eligibility marker; the event takes tokens when it is "0".
    pub is_rdv: Option<String>,
    /// School year component of the identity code.
    pub scolaryear: Option<String>,
    /// Module component of the identity code.
    pub codemodule: Option<String>,
    /// Instance component of the identity code.
    pub codeinstance: Option<String>,
    /// Activity component of the identity code.
    pub codeacti: Option<String>,
    /// Event component of the identity code.
    pub codeevent: Option<String>,
    /// Title of the activity.
    pub acti_title: Option<String>,
    /// Display label of the module.
    pub titlemodule: Option<String>,
    /// Full start date-time.
    pub start: Option<String>,
    /// Full end date-time.
    pub end: Option<String>,
}

impl View for RawEvent {
    type V = RawEventView;

    open spec fn view(&self) -> RawEventView {
        RawEventView {
            is_rdv: opt_str_view(self.is_rdv),
            scolaryear: opt_str_view(self.scolaryear),
            codemodule: opt_str_view(self.codemodule),
            codeinstance: opt_str_view(self.codeinstance),
            codeacti: opt_str_view(self.codeacti),
            codeevent: opt_str_view(self.codeevent),
            acti_title: opt_str_view(self.acti_title),
            titlemodule: opt_str_view(self.titlemodule),
            start: opt_str_view(self.start),
            end: opt_str_view(self.end),
        }
    }
}

/// Read the fields of one raw planning record out of a fetched JSON
/// value; a field that is absent or not a string is recorded absent.
fn planning_event_fields(v: &serde_json::Value) -> RawEvent {
    RawEvent {
        is_rdv: intra::json_str_field(v, "is_rdv"),
        scolaryear: intra::json_str_field(v, "scolaryear"),
        codemodule: intra::json_str_field(v, "codemodule"),
        codeinstance: intra::json_str_field(v, "codeinstance"),
        codeacti: intra::json_str_field(v, "codeacti"),
        codeevent: intra::json_str_field(v, "codeevent"),
        acti_title: intra::json_str_field(v, "acti_title"),
        titlemodule: intra::json_str_field(v, "titlemodule"),
        start: intra::json_str_field(v, "start"),
        end: intra::json_str_field(v, "end"),
    }
}

/// Read the fields of one raw single-event record out of a fetched
/// JSON value. Such records spell the module label `module_title` and
/// carry no eligibility marker.
fn single_event_fields(v: &serde_json::Value) -> RawEvent {
    RawEvent {
        is_rdv: intra::json_str_field(v, "is_rdv"),
        scolaryear: intra::json_str_field(v, "scolaryear"),
        codemodule: intra::json_str_field(v, "codemodule"),
        codeinstance: intra::json_str_field(v, "codeinstance"),
        codeacti: intra::json_str_field(v, "codeacti"),
        codeevent: intra::json_str_field(v, "codeevent"),
        acti_title: intra::json_str_field(v, "acti_title"),
        titlemodule: intra::json_str_field(v, "module_title"),
        start: intra::json_str_field(v, "start"),
        end: intra::json_str_field(v, "end"),
    }
}

/// The raw records a planning reply text parses to, one per element of
/// its JSON array, in order.
pub uninterp spec fn planning_records_of(s: Seq<char>) -> Seq<RawEventView>;

/// Relies on serde_json::from_str::<Vec<Value>> and on reading each
/// record's fields with Value::get and Value::as_str: whether a text is
/// a JSON array, and the records it holds, are functions of the text
/// alone.
#[verifier::external_body]
fn parse_planning_records(raw: &str) -> (r: Option<Vec<RawEvent>>)
    ensures
        r is Some <==> intra::json_array_ok(raw@),
        r matches Some(v) ==> raws_view(v@) == planning_records_of(raw@),
{
    let values: Vec<serde_json::Value> = match serde_json::from_str(raw) {
        Ok(v) => v,
        Err(_) => return None,
    };
    Some(values.iter().map(planning_event_fields).collect())
}

/// Classify a planning reply and read its records: a blank body is the
/// remote's explicit no-data signal, a non-blank body that is not a
/// JSON array is malformed, and anything else yields the records in
/// order.
pub fn parse_planning_reply(body: &str) -> (r: Result<Vec<RawEvent>, intra::Error>)
    ensures
        is_blank(body@) ==> r == Err::<Vec<RawEvent>, intra::Error>(intra::Error::Empty),
        !is_blank(body@) ==> (if intra::json_array_ok(body@) {
            r matches Ok(v) && raws_view(v@) == planning_records_of(body@)
        } else {
            r == Err::<Vec<RawEvent>, intra::Error>(intra::Error::Parsing)
        }),
{
    if blank_str(body) {
        return Err(intra::Error::Empty);
    }
    match parse_planning_records(body) {
        Some(v) => Ok(v),
        None => Err(intra::Error::Parsing),
    }
}

/// The raw record a single-event reply text parses to.
pub uninterp spec fn single_record_of(s: Seq<char>) -> RawEventView;

/// Relies on serde_json::from_str::<Value> and on reading the record's
/// fields with Value::get and Value::as_str: whether a text is JSON,
/// and the record it holds, are functions of the text alone.
#[verifier::external_body]
fn parse_single_record(raw: &str) -> (r: Option<RawEvent>)
    ensures
        r is Some <==> intra::json_value_ok(raw@),
        r matches Some(v) ==> v@ == single_record_of(raw@),
{
    let value: serde_json::Value = match serde_json::from_str(raw) {
        Ok(v) => v,
        Err(_) => return None,
    };
    Some(single_event_fields(&value))
}

/// The time of day a record's start or end field parses to, if any.
pub open spec fn parse_time_of(r: RawEventView, time: Time) -> Option<Seq<char>> {
    let field = match time {
        Time::Start => r.start,
        Time::End => r.end,
    };
    match field {
        Some(s) => time_of(s),
        None => Option::None,
    }
}

/// Parse a record's start or end field and keep the time of day.
fn parse_time(raw: &RawEvent, time: Time) -> (r: Option<String>)
    ensures
        opt_str_view(r) == parse_time_of(raw@, time),
        r matches Some(t) ==> hhmm_ok(t@),
{
    let field = match time {
        Time::Start => &raw.start,
        Time::End => &raw.end,
    };
    match field {
        Some(s) => datetime_to_hhmm(s.as_str()),
        None => None,
    }
}

/// Whether a raw record is token-eligible: its marker must be present
/// and be exactly "0".
pub open spec fn eligible_of(r: RawEventView) -> bool {
    r.is_rdv matches Some(m) && m == "0"@
}

/// What constructing an event from a raw record yields: no event for an
/// ineligible record, the error naming the first missing field, or the
/// event with an empty roster.
pub open spec fn parse_event_of(r: RawEventView) -> Result<Option<EventView>, Error> {
    if !eligible_of(r) {
        Ok(Option::None)
    } else if r.scolaryear is None || r.codemodule is None || r.codeinstance is None
        || r.codeacti is None || r.codeevent is None {
        Err(Error::EventURL)
    } else if r.acti_title is None {
        Err(Error::Title)
    } else if r.titlemodule is None {
        Err(Error::Module)
    } else if parse_time_of(r, Time::Start) is None {
        Err(Error::TimeStart)
    } else if parse_time_of(r, Time::End) is None {
        Err(Error::TimeEnd)
    } else {
        Ok(
            Option::Some(
                EventView {
                    code: CodeView {
                        year: r.scolaryear->Some_0,
                        module: r.codemodule->Some_0,
                        instance: r.codeinstance->Some_0,
                        acti: r.codeacti->Some_0,
                        event: r.codeevent->Some_0,
                    },
                    title: r.acti_title->Some_0,
                    module: r.titlemodule->Some_0,
                    start: parse_time_of(r, Time::Start)->Some_0,
                    end: parse_time_of(r, Time::End)->Some_0,
                    students: Seq::empty(),
                },
            ),
        )
    }
}

/// The view of a construction result, for specifications.
pub open spec fn event_opt_res_view(r: Result<Option<Event>, Error>) -> Result<
    Option<EventView>,
    Error,
> {
    match r {
        Ok(Option::Some(ev)) => Ok(Option::Some(ev@)),
        Ok(Option::None) => Ok(Option::None),
        Err(e) => Err(e),
    }
}

/// Construct an event from one raw record. An ineligible record yields
/// no event and no error; an eligible one must carry all five code
/// components, a title, a module label and parsable start and end
/// times, or construction fails naming the first missing field. The
/// roster starts empty and is populated by a later fetch.
pub fn parse_event(raw: &RawEvent) -> (r: Result<Option<Event>, Error>)
    ensures
        event_opt_res_view(r) == parse_event_of(raw@),
        r matches Ok(o) ==> (o matches Some(ev) ==> hhmm_ok(ev@.start) && hhmm_ok(ev@.end)),
{
    let eligible = match &raw.is_rdv {
        Some(m) => str_eq(m.as_str(), "0"),
        None => false,
    };
    if !eligible {
        return Ok(None);
    }
    let year = match &raw.scolaryear {
        Some(s) => s.clone(),
        None => return Err(Error::EventURL),
    };
    let code_module = match &raw.codemodule {
        Some(s) => s.clone(),
        None => return Err(Error::EventURL),
    };
    let instance = match &raw.codeinstance {
        Some(s) => s.clone(),
        None => return Err(Error::EventURL),
    };
    let acti = match &raw.codeacti {
        Some(s) => s.clone(),
        None => return Err(Error::EventURL),
    };
    let code_event = match &raw.codeevent {
        Some(s) => s.clone(),
        None => return Err(Error::EventURL),
    };
    let title = match &raw.acti_title {
        Some(s) => s.clone(),
        None => return Err(Error::Title),
    };
    let module_label = match &raw.titlemodule {
        Some(s) => s.clone(),
        None => return Err(Error::Module),
    };
    let start = match parse_time(raw, Time::Start) {
        Some(t) => t,
        None => return Err(Error::TimeStart),
    };
    let end = match parse_time(raw, Time::End) {
        Some(t) => t,
        None => return Err(Error::TimeEnd),
    };
    let ev = Event {
        code: Code { year, module: code_module, instance, acti, event: code_event },
        title,
        module: module_label,
        start,
        end,
        students: Vec::new(),
    };
    proof {
        assert(parse_event_of(raw@) matches Ok(o) && o matches Some(evv) && ev@ =~= evv);
    }
    Ok(Some(ev))
}

/// What constructing events from a sequence of raw records yields: the
/// events of the eligible records, in order, or the first construction
/// error.
pub open spec fn events_of(rs: Seq<RawEventView>) -> Result<Seq<EventView>, Error>
    decreases rs.len(),
{
    if rs.len() == 0 {
        Ok(Seq::empty())
    } else {
        match parse_event_of(rs[0]) {
            Err(e) => Err(e),
            Ok(head) => match events_of(rs.drop_first()) {
                Err(e) => Err(e),
                Ok(tail) => match head {
                    Some(ev) => Ok(seq![ev] + tail),
                    None => Ok(tail),
                },
            },
        }
    }
}

/// The raw-record contents of a sequence of records.
pub open spec fn raws_view(s: Seq<RawEvent>) -> Seq<RawEventView> {
    s.map_values(|r: RawEvent| r@)
}

/// The view of a listing result, for specifications.
pub open spec fn events_res_view(r: Result<Vec<Event>, Error>) -> Result<Seq<EventView>, Error> {
    match r {
        Ok(v) => Ok(v@.map_values(|e: Event| e@)),
        Err(e) => Err(e),
    }
}

/// Construct events from raw planning records, in the order given.
/// Ineligible records are skipped silently; the first construction
/// error aborts the listing.
pub fn events_from_records(records: &Vec<RawEvent>) -> (r: Result<Vec<Event>, Error>)
    ensures
        events_res_view(r) == events_of(raws_view(records@)),
        r matches Ok(v) ==> times_wf(v@),
{
    let ghost all = raws_view(records@);
    let mut out: Vec<Event> = Vec::new();
    let n = records.len();
    let mut i: usize = 0;
    proof {
        assert(all.skip(0) =~= all);
    }
    while i < n
        invariant
            i <= n,
            n == records.len(),
            all == raws_view(records@),
            events_of(all) == (match events_of(all.skip(i as int)) {
                Ok(tail) => Ok::<Seq<EventView>, Error>(out@.map_values(|e: Event| e@) + tail),
                Err(e) => Err::<Seq<EventView>, Error>(e),
            }),
            times_wf(out@),
        decreases n - i,
    {
        proof {
            assert(all.skip(i as int).len() > 0);
            assert(all.skip(i as int)[0] == all[i as int]);
            assert(all.skip(i as int).drop_first() =~= all.skip(i as int + 1));
            assert(all[i as int] == records@[i as int]@);
        }
        match parse_event(&records[i]) {
            Err(e) => {
                return Err(e);
            },
            Ok(Some(ev)) => {
                let ghost prev = out@;
                out.push(ev);
                proof {
                    assert(out@.map_values(|e: Event| e@) =~= prev.map_values(|e: Event| e@).push(
                        ev@,
                    ));
                    if events_of(all.skip(i as int + 1)) is Ok {
                        let tail = events_of(all.skip(i as int + 1))->Ok_0;
                        assert(prev.map_values(|e: Event| e@) + (seq![ev@] + tail)
                            =~= out@.map_values(|e: Event| e@) + tail);
                    }
                    assert forall|j: int| 0 <= j < out@.len() implies hhmm_ok(
                        (#[trigger] out@[j])@.start,
                    ) && hhmm_ok(out@[j]@.end) by {
                        if j < prev.len() {
                            assert(out@[j] == prev[j]);
                            assert(hhmm_ok(prev[j]@.start) && hhmm_ok(prev[j]@.end));
                        } else {
                            assert(out@[j] == ev);
                        }
                    }
                }
            },
            Ok(None) => {},
        }
        i += 1;
    }
    proof {
        assert(all.skip(n as int) =~= Seq::<RawEventView>::empty());
        assert(out@.map_values(|e: Event| e@) + Seq::<EventView>::empty() =~= out@.map_values(
            |e: Event| e@,
        ));
    }
    Ok(out)
}

/// The planning URL listing one day's events under an autologin link.
pub fn planning_url(autologin: &str, raw_date: &str) -> (r: Result<String, Error>)
    ensures
        date_valid(raw_date@) ==> (r matches Ok(u) && u@ == autologin@
            + "/planning/load?format=json&start="@ + raw_date@ + "&end="@ + raw_date@),
        !date_valid(raw_date@) ==> r == Err::<String, Error>(Error::Date),
{
    if !parse_date_ok(raw_date) {
        return Err(Error::Date);
    }
    let mut s = autologin.to_owned();
    s.append("/planning/load?format=json&start=");
    s.append(raw_date);
    s.append("&end=");
    s.append(raw_date);
    Ok(s)
}

/// Build the events of one day from the outcome of fetching the
/// planning. An explicit empty reply — the transport's no-data signal,
/// or a blank body — is a legitimate "nothing scheduled" outcome and
/// yields no events rather than an error. Any other transport failure
/// propagates, and a non-blank body that is not a JSON array is a parse
/// error, never silently dropped. Events come in the order the remote
/// returned them, ineligible records contributing none.
pub fn list_events(response: Result<String, intra::Error>) -> (r: Result<Vec<Event>, Error>)
    ensures
        response matches Err(e) ==> (if e == intra::Error::Empty {
            r matches Ok(v) && v@.len() == 0
        } else {
            r == Err::<Vec<Event>, Error>(Error::Intra(e))
        }),
        response matches Ok(body) ==> (if is_blank(body@) {
            r matches Ok(v) && v@.len() == 0
        } else if !intra::json_array_ok(body@) {
            r == Err::<Vec<Event>, Error>(Error::Intra(intra::Error::Parsing))
        } else {
            events_res_view(r) == events_of(planning_records_of(body@))
        }),
        r matches Ok(v) ==> times_wf(v@),
{
    match response {
        Err(e) => {
            if e == intra::Error::Empty {
                Ok(Vec::new())
            } else {
                Err(Error::Intra(e))
            }
        },
        Ok(body) => {
            match parse_planning_reply(body.as_str()) {
                Err(e) => {
                    if e == intra::Error::Empty {
                        Ok(Vec::new())
                    } else {
                        Err(Error::Intra(e))
                    }
                },
                Ok(raws) => events_from_records(&raws),
            }
        },
    }
}

/// The title a single-event record yields. The remote sometimes returns
/// the title twice, separated by a space: when the text splits in half
/// into two equal parts around its middle character, one part is kept.
pub open spec fn title_dedup_of(t: Seq<char>) -> Seq<char> {
    if t.len() == 0 {
        t
    } else {
        let k = t.len() as int / 2 + 1;
        if t.subrange(0, k - 1) == t.subrange(k, t.len() as int) {
            t.subrange(0, k - 1)
        } else {
            t
        }
    }
}

/// Deduplicate the title of a single-event record.
pub fn get_title_single_event(title: &str) -> (r: String)
    requires
        title@.len() >= 1,
    ensures
        r@ == title_dedup_of(title@),
{
    let n = title.unicode_len();
    let k = n / 2 + 1;
    let first = title.substring_char(0, k - 1);
    let second = title.substring_char(k, n);
    if str_eq(first, second) {
        first.to_owned()
    } else {
        title.to_owned()
    }
}

/// What constructing an event from a single-event record yields: as for
/// a planning record, but without an eligibility marker and with the
/// title deduplicated.
pub open spec fn parse_single_of(r: RawEventView) -> Result<EventView, Error> {
    if r.scolaryear is None || r.codemodule is None || r.codeinstance is None || r.codeacti is None
        || r.codeevent is None {
        Err(Error::EventURL)
    } else if r.acti_title is None {
        Err(Error::Title)
    } else if r.titlemodule is None {
        Err(Error::Module)
    } else if parse_time_of(r, Time::Start) is None {
        Err(Error::TimeStart)
    } else if parse_time_of(r, Time::End) is None {
        Err(Error::TimeEnd)
    } else {
        Ok(
            EventView {
                code: CodeView {
                    year: r.scolaryear->Some_0,
                    module: r.codemodule->Some_0,
                    instance: r.codeinstance->Some_0,
                    acti: r.codeacti->Some_0,
                    event: r.codeevent->Some_0,
                },
                title: title_dedup_of(r.acti_title->Some_0),
                module: r.titlemodule->Some_0,
                start: parse_time_of(r, Time::Start)->Some_0,
                end: parse_time_of(r, Time::End)->Some_0,
                students: Seq::empty(),
            },
        )
    }
}

/// The view of a single-event construction result, for specifications.
pub open spec fn event_res_view(r: Result<Event, Error>) -> Result<EventView, Error> {
    match r {
        Ok(ev) => Ok(ev@),
        Err(e) => Err(e),
    }
}

/// Construct an event from one raw single-event record.
pub fn parse_single_event(raw: &RawEvent) -> (r: Result<Event, Error>)
    ensures
        event_res_view(r) == parse_single_of(raw@),
        r matches Ok(ev) ==> hhmm_ok(ev@.start) && hhmm_ok(ev@.end),
{
    let year = match &raw.scolaryear {
        Some(s) => s.clone(),
        None => return Err(Error::EventURL),
    };
    let code_module = match &raw.codemodule {
        Some(s) => s.clone(),
        None => return Err(Error::EventURL),
    };
    let instance = match &raw.codeinstance {
        Some(s) => s.clone(),
        None => return Err(Error::EventURL),
    };
    let acti = match &raw.codeacti {
        Some(s) => s.clone(),
        None => return Err(Error::EventURL),
    };
    let code_event = match &raw.codeevent {
        Some(s) => s.clone(),
        None => return Err(Error::EventURL),
    };
    let title_raw = match &raw.acti_title {
        Some(s) => s.clone(),
        None => return Err(Error::Title),
    };
    let module_label = match &raw.titlemodule {
        Some(s) => s.clone(),
        None => return Err(Error::Module),
    };
    let start = match parse_time(raw, Time::Start) {
        Some(t) => t,
        None => return Err(Error::TimeStart),
    };
    let end = match parse_time(raw, Time::End) {
        Some(t) => t,
        None => return Err(Error::TimeEnd),
    };
    let title = if title_raw.as_str().is_empty() {
        title_raw
    } else {
        get_title_single_event(title_raw.as_str())
    };
    let ev = Event {
        code: Code { year, module: code_module, instance, acti, event: code_event },
        title,
        module: module_label,
        start,
        end,
        students: Vec::new(),
    };
    proof {
        assert(parse_single_of(raw@) matches Ok(evv) && ev@ =~= evv);
    }
    Ok(ev)
}

/// The URL one event is fetched from, given its five code components.
pub fn event_url(
    autologin: &str,
    year: &str,
    module: &str,
    instance: &str,
    acti: &str,
    event: &str,
) -> (r: String)
    ensures
        r@ == autologin@ + "/module/"@ + year@ + "/"@ + module@ + "/"@ + instance@ + "/"@ + acti@
            + "/"@ + event@ + "?format=json"@,
{
    let mut s = autologin.to_owned();
    s.append("/module/");
    s.append(year);
    s.append("/");
    s.append(module);
    s.append("/");
    s.append(instance);
    s.append("/");
    s.append(acti);
    s.append("/");
    s.append(event);
    s.append("?format=json");
    s
}

/// Build one event from the outcome of fetching its record. Transport
/// failures propagate unchanged; a reply that does not parse as JSON is
/// a transport parse error; otherwise the event is constructed from the
/// reply's record.
pub fn get_event(response: Result<String, intra::Error>) -> (r: Result<Event, Error>)
    ensures
        response matches Err(e) ==> r == Err::<Event, Error>(Error::Intra(e)),
        response matches Ok(body) ==> (if !intra::json_value_ok(body@) {
            r == Err::<Event, Error>(Error::Intra(intra::Error::Parsing))
        } else {
            event_res_view(r) == parse_single_of(single_record_of(body@))
        }),
        r matches Ok(ev) ==> hhmm_ok(ev@.start) && hhmm_ok(ev@.end),
{
    match response {
        Err(e) => Err(Error::Intra(e)),
        Ok(body) => {
            match parse_single_record(body.as_str()) {
                None => Err(Error::Intra(intra::Error::Parsing)),
                Some(raw) => parse_single_event(&raw),
            }
        },
    }
}

proof fn lemma_set_login_keeps_logins(ss: Seq<StudentView>, login: Seq<char>, p: Presence)
    ensures
        set_login_of(ss, login, p).len() == ss.len(),
        forall|i: int|
            0 <= i < ss.len() ==> (#[trigger] set_login_of(ss, login, p)[i]).login == ss[i].login,
    decreases ss.len(),
{
    if ss.len() > 0 && ss[0].login != login {
        lemma_set_login_keeps_logins(ss.drop_first(), login, p);
        assert forall|i: int| 0 <= i < ss.len() implies (#[trigger] set_login_of(
            ss,
            login,
            p,
        )[i]).login == ss[i].login by {
            if i > 0 {
                assert(set_login_of(ss, login, p)[i] == set_login_of(
                    ss.drop_first(),
                    login,
                    p,
                )[i - 1]);
                assert(ss.drop_first()[i - 1] == ss[i]);
            }
        }
    }
}

/// Law: the presence mutators never change which logins a roster holds,
/// in which order: each preserves the roster invariant — non-empty
/// logins, no two alike.
pub proof fn lemma_mutators_preserve_roster_wf(ss: Seq<StudentView>, login: Seq<char>, p: Presence)
    requires
        roster_wf(ss),
    ensures
        roster_wf(set_all_of(ss, p)),
        roster_wf(set_remaining_of(ss, p)),
        roster_wf(set_login_of(ss, login, p)),
{
    assert(forall|i: int|
        0 <= i < ss.len() ==> (#[trigger] set_all_of(ss, p)[i]).login == ss[i].login);
    assert(forall|i: int|
        0 <= i < ss.len() ==> (#[trigger] set_remaining_of(ss, p)[i]).login == ss[i].login);
    lemma_set_login_keeps_logins(ss, login, p);
}

/// Law: closing out the remaining students is idempotent. Applying it a
/// second time, with the same presence, changes nothing more.
pub proof fn lemma_set_remaining_idempotent(ss: Seq<StudentView>, p: Presence)
    ensures
        set_remaining_of(set_remaining_of(ss, p), p) == set_remaining_of(ss, p),
{
    assert(set_remaining_of(set_remaining_of(ss, p), p) =~= set_remaining_of(ss, p));
}

/// Law: once every student is set to a decided presence, closing out
/// the remaining students has no effect.
pub proof fn lemma_set_all_then_remaining(ss: Seq<StudentView>, x: Presence, y: Presence)
    requires
        x != Presence::Unset,
    ensures
        set_remaining_of(set_all_of(ss, x), y) == set_all_of(ss, x),
{
    assert(set_remaining_of(set_all_of(ss, x), y) =~= set_all_of(ss, x));
}

} // verus!

