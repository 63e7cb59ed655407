//! The user endpoints over the shared request bodies of `models`.

use crate::reply::{Notice, Payload, Reply, Status};
use crate::user::get_user_list::{self, list_users_outcome};
use crate::user::models::{LoginBody, SignupBody, User};
use crate::user::password::is_generated_salt;
use crate::user::post_user_login::{login_outcome, login_reply};
use crate::user::post_user_signup::{self, new_user, salted_user, signup_outcome, signup_row};
use crate::AppState;
use vstd::prelude::*;

verus! {

/// The user listing (see `get_user_list::list_users`).
pub fn list_users(state: &AppState, fetched: Option<Vec<User>>) -> (r: Reply<Vec<User>>)
    ensures
        r == list_users_outcome(state.is_debug, fetched),
{
    get_user_list::list_users(state, fetched)
}

/// The row that sign-up stores for this request.
pub fn signup_user(body: &SignupBody) -> (r: Option<User>)
    ensures
        exists|salt: Seq<char>| is_generated_salt(salt) && #[trigger] salted_user(
            body.username@,
            body.password@,
            salt,
            r,
        ),
        r matches Some(row) ==> signup_row(body.username@, body.password@, row),
{
    new_user(body.username.as_str(), body.password.as_str())
}

/// The reply to a sign-up (see `post_user_signup::signup`).
pub fn signup(inserted: Option<User>) -> (r: Reply<User>)
    ensures
        r == signup_outcome(inserted),
        (r.status == Status::Success) == (inserted is Some),
        inserted is Some ==> r.payload == Payload::Data(inserted->0),
        inserted is None ==> r.status == Status::InternalServerError && r.payload
            == Payload::<User>::Notice(Notice::CreateUserFailed),
{
    post_user_signup::signup(inserted)
}

/// The reply to a log-in (see `post_user_login::login_reply`).
pub fn login(body: &LoginBody, fetched: Option<User>) -> (r: Option<Reply<()>>)
    ensures
        r == login_outcome(body.password@, fetched),
{
    login_reply(body.password.as_str(), fetched)
}

} // verus!
