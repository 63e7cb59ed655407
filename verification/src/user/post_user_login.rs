//! Log-in: check the password against the stored hash, answer.

use crate::reply::{Notice, Payload, Reply, Status};
use crate::user::models::User;
use crate::user::password::{argon2_password_matches, argon2_phc_parses, verify_password};
use crate::user::post_user_signup::signup_row;
use vstd::prelude::*;

verus! {

/// Body of a log-in request.
#[derive(Debug, Clone, PartialEq, Eq)]
pub struct LoginBody {
    pub username: String,
    pub password: String,
}

/// The reply to a log-in with `password`, given the user that the lookup by
/// name returned (`None` where there was none). `None` stands for a stored
/// hash that is not a PHC string: the handler gives up there.
pub open spec fn login_outcome(password: Seq<char>, fetched: Option<User>) -> Option<Reply<()>> {
    match fetched {
        None => Some(
            Reply::<()> {
                status: Status::InternalServerError,
                payload: Payload::Notice(Notice::ValidateUserFailed),
            },
        ),
        Some(user) => if !argon2_phc_parses(user.password_hash@) {
            None
        } else if argon2_password_matches(password, user.password_hash@) {
            Some(
                Reply::<()> {
                    status: Status::Success,
                    payload: Payload::Notice(Notice::LoggedIn(user.username)),
                },
            )
        } else {
            Some(
                Reply::<()> {
                    status: Status::InternalServerError,
                    payload: Payload::Notice(Notice::ValidateUserFailed),
                },
            )
        },
    }
}

/// Checks `password` against the user found (if any) and builds the reply.
pub fn login_reply(password: &str, fetched: Option<User>) -> (r: Option<Reply<()>>)
    ensures
        r == login_outcome(password@, fetched),
{
    match fetched {
        None => Some(Reply::notice(Status::InternalServerError, Notice::ValidateUserFailed)),
        Some(user) => match verify_password(password, user.password_hash.as_str()) {
            None => None,
            Some(true) => Some(Reply::notice(Status::Success, Notice::LoggedIn(user.username))),
            Some(false) => Some(Reply::notice(Status::InternalServerError, Notice::ValidateUserFailed)),
        },
    }
}

/// The reply to this log-in request, given the user that the lookup by
/// `body.username` returned (see [`login_reply`]).
pub fn login(body: &LoginBody, fetched: Option<User>) -> (r: Option<Reply<()>>)
    ensures
        r == login_outcome(body.password@, fetched),
{
    login_reply(body.password.as_str(), fetched)
}

/// A password accepted at sign-up logs its user in: for any row that sign-up
/// may store for a name and a password, logging in with that password against
/// the row answers `200` and greets the user by that name.
pub proof fn lemma_signup_then_login(username: Seq<char>, password: Seq<char>, row: User)
    requires
        signup_row(username, password, row),
    ensures
        login_outcome(password, Some(row)) matches Some(r) && r.status == Status::Success
            && r.payload == Payload::<()>::Notice(Notice::LoggedIn(row.username))
            && row.username@ == username,
{
}

/// A failed log-in does not tell whether the user exists: a wrong password
/// for an existing user is answered exactly as an unknown user is.
pub proof fn lemma_login_failure_hides_user(password: Seq<char>, user: User)
    requires
        argon2_phc_parses(user.password_hash@),
        !argon2_password_matches(password, user.password_hash@),
    ensures
        login_outcome(password, Some(user)) == login_outcome(password, None),
{
}

/// Once a user has signed up, log-in with any password that the stored hash
/// does not accept (any other password, barring an Argon2 collision) is
/// refused with `500`, as for an unknown user.
pub proof fn lemma_wrong_password_refused(
    username: Seq<char>,
    password: Seq<char>,
    other: Seq<char>,
    row: User,
)
    requires
        signup_row(username, password, row),
        !argon2_password_matches(other, row.password_hash@),
    ensures
        login_outcome(other, Some(row)) == Some(
            Reply::<()> {
                status: Status::InternalServerError,
                payload: Payload::Notice(Notice::ValidateUserFailed),
            },
        ),
{
}

} // verus!
