//! Smaller records of the site: login requests, meeting minutes, site
//! variables, music files, to-do items, and the roots of its query API.

use crate::error::GreaseError;
use crate::member::{spec_check_login, Member};
use crate::session::{is_uuid_text, Session};
use crate::text::{concat3, copy_opt_string, decimal, int_decimal, owned};
use vstd::prelude::*;

verus! {

/// What a member sends to log in.
#[derive(Debug)]
pub struct LoginInfo {
    /// The member's email.
    pub email: String,
    /// The member's password.
    pub pass_hash: String,
}

/// The message for a failed login.
pub open spec fn invalid_login_message() -> Seq<char> {
    "Invalid email or password"@
}

impl Session {
    /// The session a login gets: refused unless the password opens the
    /// stored hash of the member found for the email (`found`); the
    /// member's existing session if they have one, else a new one.
    pub fn login(info: &LoginInfo, found: Option<Member>, existing: Option<Session>) -> (result: Result<Session, GreaseError>)
        ensures
            spec_check_login(found, info.pass_hash@) is None ==> (result matches Err(GreaseError::BadRequest(m))
                && m@ == invalid_login_message()),
            spec_check_login(found, info.pass_hash@) is Some ==> (match existing {
                Some(s) => result == Ok::<Session, GreaseError>(s),
                None => result matches Ok(s) && s.member == info.email && is_uuid_text(s.key@),
            }),
    {
        if Member::check_login(found, info.pass_hash.as_str()).is_none() {
            return Err(GreaseError::BadRequest(owned("Invalid email or password")));
        }
        match existing {
            Some(s) => Ok(s),
            None => Ok(Session::generate(info.email.clone())),
        }
    }
}

/// Notes from an officers' meeting.
#[derive(Debug)]
pub struct MeetingMinutes {
    /// The ID of the minutes.
    pub id: i32,
    /// The name of the meeting.
    pub name: String,
    /// The day the minutes were started (days since the epoch).
    pub date: i64,
    /// The complete notes, for officers.
    pub private: Option<String>,
    /// The edited notes, for all members.
    pub public: Option<String>,
}

/// New meeting minutes.
#[derive(Debug)]
pub struct NewMeetingMinutes {
    /// The name of the meeting.
    pub name: String,
}

/// The new values of meeting minutes.
#[derive(Debug)]
pub struct UpdatedMeetingMinutes {
    /// The name of the meeting.
    pub name: String,
    /// The complete notes.
    pub private: Option<String>,
    /// The edited notes.
    pub public: Option<String>,
}

/// Meeting minutes as a member sees them.
#[derive(Debug)]
pub struct MinutesView {
    /// The ID of the minutes.
    pub id: i32,
    /// The name of the meeting.
    pub name: String,
    /// The start of the day of the meeting, in milliseconds since the
    /// epoch.
    pub date: i64,
    /// The edited notes.
    pub public: Option<String>,
    /// The complete notes, for those who may see them.
    pub private: Option<String>,
}

/// The largest day number whose start in milliseconds fits in an `i64`.
pub const MAX_MINUTES_DAY: i64 = 106_751_991_167;

impl MeetingMinutes {
    /// The minutes found for `meeting_id`, or the error for missing ones.
    pub fn load(meeting_id: i32, found: Option<MeetingMinutes>) -> (result: Result<MeetingMinutes, GreaseError>)
        ensures
            found matches Some(m) ==> result == Ok::<MeetingMinutes, GreaseError>(m),
            found is None ==> (result matches Err(GreaseError::BadRequest(m)) && m@ == "No meeting minutes with id "@
                + int_decimal(meeting_id as int) + "."@),
    {
        match found {
            Some(m) => Ok(m),
            None => {
                let id_text = decimal(meeting_id as i64);
                Err(GreaseError::BadRequest(concat3("No meeting minutes with id ", id_text.as_str(), ".")))
            },
        }
    }

    /// New minutes for a meeting, started on day `today`.
    pub fn create(id: i32, new_meeting: NewMeetingMinutes, today: i64) -> (minutes: MeetingMinutes)
        ensures
            minutes == (MeetingMinutes { id, name: new_meeting.name, date: today, private: None, public: None }),
    {
        MeetingMinutes { id, name: new_meeting.name, date: today, private: None, public: None }
    }

    /// These minutes with new values.
    pub fn update(self, updated_meeting: UpdatedMeetingMinutes) -> (minutes: MeetingMinutes)
        ensures
            minutes == (MeetingMinutes {
                id: self.id,
                name: updated_meeting.name,
                date: self.date,
                private: updated_meeting.private,
                public: updated_meeting.public,
            }),
    {
        MeetingMinutes {
            id: self.id,
            name: updated_meeting.name,
            date: self.date,
            private: updated_meeting.private,
            public: updated_meeting.public,
        }
    }

    /// These minutes as a member sees them: the complete notes only for
    /// those who may see them.
    pub fn to_view(&self, can_view_private: bool) -> (view: MinutesView)
        requires
            -MAX_MINUTES_DAY <= self.date <= MAX_MINUTES_DAY,
        ensures
            view.id == self.id,
            view.name == self.name,
            view.date == self.date * 86_400_000,
            view.public == self.public,
            view.private == (if can_view_private {
                self.private
            } else {
                None
            }),
    {
        MinutesView {
            id: self.id,
            name: self.name.clone(),
            date: self.date * 86_400_000,
            public: copy_opt_string(&self.public),
            private: if can_view_private {
                copy_opt_string(&self.private)
            } else {
                None
            },
        }
    }
}

/// A named value that the site keeps.
#[derive(Debug)]
pub struct Variable {
    /// The name of the variable.
    pub key: String,
    /// Its value.
    pub value: String,
}

/// A new value for a variable.
#[derive(Debug)]
pub struct NewValue {
    /// The value.
    pub value: String,
}

impl Variable {
    /// Setting a variable, given its stored record if any: the record to
    /// store and the value it replaces.
    pub fn set(given_key: String, given_value: NewValue, existing: Option<Variable>) -> (result: (Variable, Option<String>))
        ensures
            result.0 == (Variable { key: given_key, value: given_value.value }),
            result.1 == (match existing {
                Some(v) => Some(v.value),
                None => None,
            }),
    {
        let old_value = match existing {
            Some(v) => Some(v.value),
            None => None,
        };
        (Variable { key: given_key, value: given_value.value }, old_value)
    }

    /// Removing a variable, given its stored record if any: the value it
    /// had.
    pub fn unset(existing: Option<Variable>) -> (old_value: Option<String>)
        ensures
            old_value == (match existing {
                Some(v) => Some(v.value),
                None => None,
            }),
    {
        match existing {
            Some(v) => Some(v.value),
            None => None,
        }
    }
}

/// A music file uploaded for a song link.
#[derive(Debug)]
pub struct MusicFile {
    /// The path it was uploaded under.
    pub path: String,
    /// Its contents.
    pub content: Vec<u8>,
}

/// The directory music files are kept in.
pub const MUSIC_BASE_PATH: &'static str = "../httpsdocs/music/";

/// The final component of a path, as std's `Path::file_name` finds it.
pub uninterp spec fn spec_file_name(path: Seq<char>) -> Option<Seq<char>>;

/// The final component of a path.
///
/// Calls std's `Path::new(path).file_name()` and reads the name back as
/// text. Trusted to depend on the path alone and, as std documents, to
/// give a component: a non-empty name without a `/`.
#[verifier::external_body]
fn file_name(path: &str) -> (name: Option<String>)
    ensures
        name matches Some(n) ==> spec_file_name(path@) == Some(n@) && n@.len() > 0 && !n@.contains('/'),
        name is None ==> spec_file_name(path@) is None,
{
    match std::path::Path::new(path).file_name() {
        Some(n) => Some(n.to_string_lossy().into_owned()),
        None => None,
    }
}

/// The message for a link to a file that was not uploaded.
pub open spec fn missing_music_file_message() -> Seq<char> {
    "the file doesn't exist yet and must be uploaded before a link to it can be made"@
}

impl MusicFile {
    /// Refuses a link to a file that is not in the music directory, given
    /// whether it is there.
    pub fn ensure_exists(exists: bool) -> (result: Result<(), String>)
        ensures
            exists ==> result is Ok,
            !exists ==> (result matches Err(m) && m@ == missing_music_file_message()),
    {
        if exists {
            Ok(())
        } else {
            Err(owned("the file doesn't exist yet and must be uploaded before a link to it can be made"))
        }
    }

    /// Where a music file uploaded under `path` is kept: the music
    /// directory and the file's name.
    pub fn named(path: &str) -> (result: Result<String, String>)
        ensures
            match spec_file_name(path@) {
                Some(n) => result matches Ok(p) && p@ == "../httpsdocs/music/"@ + n,
                None => result matches Err(m) && m@ == "Failed to get file name"@,
            },
    {
        match file_name(path) {
            Some(n) => {
                let full = concat3(MUSIC_BASE_PATH, n.as_str(), "");
                proof {
                    reveal_strlit("");
                }
                Ok(full)
            },
            None => Err(owned("Failed to get file name")),
        }
    }
}

/// A task for a member to do.
#[derive(Debug)]
pub struct Todo {
    /// The ID of the task.
    pub id: i32,
    /// What to do.
    pub text: String,
    /// The email of the member.
    pub member: String,
    /// Whether it is done.
    pub completed: bool,
}

/// A task for members to do.
#[derive(Debug)]
pub struct NewTodo {
    /// What to do.
    pub text: String,
    /// The emails of the members who should do it.
    pub members: Vec<String>,
}

/// A task for one member, to store.
#[derive(Debug)]
pub struct TodoForMember {
    /// What to do.
    pub text: String,
    /// The email of the member.
    pub member: String,
}

impl Todo {
    /// The tasks to store for a new task: one per member, in order.
    pub fn create(new_todo: &NewTodo) -> (todos: Vec<TodoForMember>)
        ensures
            todos@.len() == new_todo.members@.len(),
            forall|i: int|
                0 <= i < todos@.len() ==> (#[trigger] todos@[i]).text == new_todo.text && todos@[i].member
                    == new_todo.members@[i],
    {
        let mut todos: Vec<TodoForMember> = Vec::new();
        let mut i: usize = 0;
        while i < new_todo.members.len()
            invariant
                0 <= i <= new_todo.members@.len(),
                todos@.len() == i,
                forall|q: int|
                    0 <= q < i ==> (#[trigger] todos@[q]).text == new_todo.text && todos@[q].member
                        == new_todo.members@[q],
            decreases new_todo.members@.len() - i,
        {
            todos.push(TodoForMember { text: new_todo.text.clone(), member: new_todo.members[i].clone() });
            i += 1;
        }
        todos
    }
}

/// The root of the site's read-only API; its resolvers run in the server.
#[derive(Debug)]
pub struct QueryRoot;

/// The root of the site's API for changes; its resolvers run in the
/// server.
#[derive(Debug)]
pub struct MutationRoot;

} // verus!
