//! The replies that handlers send: a status and a JSON payload.

use vstd::prelude::*;

verus! {

/// The HTTP statuses that the service answers with.
#[derive(Debug, Clone, Copy, PartialEq, Eq)]
pub enum Status {
    Success,
    NotFound,
    InternalServerError,
}

impl Status {
    pub open spec fn spec_code(self) -> u16 {
        match self {
            Status::Success => 200,
            Status::NotFound => 404,
            Status::InternalServerError => 500,
        }
    }

    /// The numeric HTTP status code.
    pub fn code(&self) -> (c: u16)
        ensures
            c == self.spec_code(),
    {
        match self {
            Status::Success => 200,
            Status::NotFound => 404,
            Status::InternalServerError => 500,
        }
    }
}

/// The fixed texts (and the one greeting) that replies carry as JSON strings.
#[derive(Debug, Clone, PartialEq, Eq)]
pub enum Notice {
    NoUsersFound,
    ListUsersDisabled,
    CreateUserFailed,
    /// Greets the user of the given name after a successful log-in.
    LoggedIn(String),
    ValidateUserFailed,
    NoPostsFound,
    CreatePostFailed,
    CreatePostUnknownUser,
    PostDeleted,
    DeletePostFailed,
}

impl Notice {
    /// The text of a notice.
    pub open spec fn spec_text(self) -> Seq<char> {
        match self {
            Notice::NoUsersFound => "No users found."@,
            Notice::ListUsersDisabled => "List users is disabled in production."@,
            Notice::CreateUserFailed => "Failed to create user"@,
            Notice::LoggedIn(name) => "user "@ + name@ + " "@,
            Notice::ValidateUserFailed => "Failed to validate user."@,
            Notice::NoPostsFound => "No posts found."@,
            Notice::CreatePostFailed => "Unable to create post."@,
            Notice::CreatePostUnknownUser => "Unable to create post. User doesn't exist"@,
            Notice::PostDeleted => "TextPost successfully deleted"@,
            Notice::DeletePostFailed => "Failed to delete TextPost"@,
        }
    }

    /// Renders the notice. A greeting is `user `, the whole name, and a space.
    pub fn text(&self) -> (s: String)
        ensures
            s@ == self.spec_text(),
            self matches Notice::LoggedIn(name) ==> s@.len() == name@.len() + 6 && s@.take(5)
                == "user "@ && s@.subrange(5, 5 + name@.len() as int) == name@ && s@.last() == ' ',
    {
        proof {
            if let Notice::LoggedIn(name) = self {
                lemma_greeting_carries_name(*name);
            }
        }
        match self {
            Notice::NoUsersFound => String::from_str("No users found."),
            Notice::ListUsersDisabled => String::from_str("List users is disabled in production."),
            Notice::CreateUserFailed => String::from_str("Failed to create user"),
            Notice::LoggedIn(name) => {
                let mut s = String::from_str("user ");
                s.append(name.as_str());
                s.append(" ");
                s
            },
            Notice::ValidateUserFailed => String::from_str("Failed to validate user."),
            Notice::NoPostsFound => String::from_str("No posts found."),
            Notice::CreatePostFailed => String::from_str("Unable to create post."),
            Notice::CreatePostUnknownUser => String::from_str(
                "Unable to create post. User doesn't exist",
            ),
            Notice::PostDeleted => String::from_str("TextPost successfully deleted"),
            Notice::DeletePostFailed => String::from_str("Failed to delete TextPost"),
        }
    }
}

/// The log-in greeting carries the whole user name: it is `user ` followed by
/// every character of the name, in order, and one space, whatever the name.
pub proof fn lemma_greeting_carries_name(name: String)
    ensures
        ({
            let text = Notice::LoggedIn(name).spec_text();
            &&& text.len() == name@.len() + 6
            &&& text.take(5) == "user "@
            &&& text.subrange(5, 5 + name@.len() as int) == name@
            &&& text.last() == ' '
        }),
{
    reveal_strlit("user ");
    reveal_strlit(" ");
    let text = Notice::LoggedIn(name).spec_text();
    assert(text.take(5) =~= "user "@);
    assert(text.subrange(5, 5 + name@.len() as int) =~= name@);
}

/// The JSON payload of a reply: either a notice (sent as a JSON string) or data.
#[derive(Debug, Clone, PartialEq, Eq)]
pub enum Payload<T> {
    Notice(Notice),
    Data(T),
}

/// A reply: a status and its payload.
#[derive(Debug, Clone, PartialEq, Eq)]
pub struct Reply<T> {
    pub status: Status,
    pub payload: Payload<T>,
}

impl<T> Reply<T> {
    /// A reply that carries a notice.
    pub fn notice(status: Status, notice: Notice) -> (r: Reply<T>)
        ensures
            r == (Reply::<T> { status, payload: Payload::Notice(notice) }),
    {
        Reply { status, payload: Payload::Notice(notice) }
    }

    /// A `200 OK` reply that carries data.
    pub fn data(value: T) -> (r: Reply<T>)
        ensures
            r == (Reply::<T> { status: Status::Success, payload: Payload::Data(value) }),
    {
        Reply { status: Status::Success, payload: Payload::Data(value) }
    }
}

/// The reply to a listing query: the rows on success, otherwise `404` with the
/// given notice.
pub fn listing<T>(fetched: Option<Vec<T>>, not_found: Notice) -> (r: Reply<Vec<T>>)
    ensures
        r == (match fetched {
            Some(rows) => Reply::<Vec<T>> { status: Status::Success, payload: Payload::Data(rows) },
            None => Reply::<Vec<T>> { status: Status::NotFound, payload: Payload::Notice(not_found) },
        }),
{
    match fetched {
        Some(rows) => Reply::data(rows),
        None => Reply::notice(Status::NotFound, not_found),
    }
}

} // verus!
