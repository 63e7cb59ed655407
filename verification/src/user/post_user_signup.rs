//! Sign-up: hash the password with a fresh salt, store the user, answer.

use crate::reply::{Notice, Payload, Reply, Status};
use crate::user::models::User;
use crate::user::password::{
    argon2_password_matches, argon2_phc_parses, argon2_phc_string, generate_salt,
    hash_password_b64_salt, is_default_argon2_phc, is_generated_salt, lemma_default_phc_salt_field,
    lemma_salt_field_unique,
};
use vstd::prelude::*;

verus! {

/// Body of a sign-up request.
#[derive(Debug, Clone, PartialEq, Eq)]
pub struct SignupBody {
    pub username: String,
    pub password: String,
}

/// A row that sign-up may store for `username` and `password`: it keeps the
/// name, and its hash is the Argon2id PHC string (version 19, default
/// parameters) of the password under some salt, recorded in its salt field; the hash parses and the same password
/// checks out against it.
pub open spec fn signup_row(username: Seq<char>, password: Seq<char>, row: User) -> bool {
    &&& row.username@ == username
    &&& exists|salt: Seq<char>|
        #[trigger] argon2_phc_string(password, salt) == Some(row.password_hash@) && is_default_argon2_phc(
            row.password_hash@,
            salt,
        )
    &&& argon2_phc_parses(row.password_hash@)
    &&& argon2_password_matches(password, row.password_hash@)
}

/// What sign-up answers for `username` and `password` under the salt `salt`:
/// the row with the name and the PHC string of the password hashed with that
/// salt, or `None` where hashing with that salt fails.
pub open spec fn salted_user(username: Seq<char>, password: Seq<char>, salt: Seq<char>, r: Option<User>) -> bool {
    match argon2_phc_string(password, salt) {
        Some(phc) => r matches Some(row) && row.username@ == username && row.password_hash@ == phc
            && is_default_argon2_phc(phc, salt) && argon2_phc_parses(phc) && argon2_password_matches(password, phc),
        None => r is None,
    }
}

/// The PHC string of `password` hashed with the given B64 salt, or `None`
/// where hashing fails.
pub fn hash_password_with_salt(password: &str, salt: &str) -> (r: Option<String>)
    ensures
        match r {
            Some(phc) => argon2_phc_string(password@, salt@) == Some(phc@),
            None => argon2_phc_string(password@, salt@) is None,
        },
        r matches Some(phc) ==> argon2_phc_parses(phc@) && argon2_password_matches(password@, phc@)
            && is_default_argon2_phc(phc@, salt@),
{
    hash_password_b64_salt(password, salt)
}

/// The row to store for a new user named `username` with `password`, the
/// password hashed under the given salt (see [`salted_user`]).
pub fn new_user_with_salt(username: &str, password: &str, salt: &str) -> (r: Option<User>)
    ensures
        salted_user(username@, password@, salt@, r),
        r matches Some(row) ==> signup_row(username@, password@, row),
{
    match hash_password_with_salt(password, salt) {
        Some(phc) => {
            assert(argon2_phc_string(password@, salt@) == Some(phc@));
            Some(User { username: String::from_str(username), password_hash: phc })
        },
        None => None,
    }
}

/// The row to store for a new user named `username` with `password`: the
/// password is hashed under a salt freshly drawn from the operating system's
/// random source (see [`new_user_with_salt`]).
pub fn new_user(username: &str, password: &str) -> (r: Option<User>)
    ensures
        exists|salt: Seq<char>| is_generated_salt(salt) && #[trigger] salted_user(
            username@,
            password@,
            salt,
            r,
        ),
        r matches Some(row) ==> signup_row(username@, password@, row),
{
    let salt = generate_salt();
    let r = new_user_with_salt(username, password, salt.as_str());
    assert(is_generated_salt(salt@) && salted_user(username@, password@, salt@, r));
    r
}

/// Two rows stored for the same password under different salts hold
/// different hashes, and the password checks out against each.
pub proof fn lemma_distinct_salts_distinct_hashes(
    username1: Seq<char>,
    username2: Seq<char>,
    password: Seq<char>,
    salt1: Seq<char>,
    salt2: Seq<char>,
    row1: User,
    row2: User,
)
    requires
        salted_user(username1, password, salt1, Some(row1)),
        salted_user(username2, password, salt2, Some(row2)),
        salt1 != salt2,
    ensures
        row1.password_hash@ != row2.password_hash@,
        argon2_password_matches(password, row1.password_hash@),
        argon2_password_matches(password, row2.password_hash@),
{
    lemma_default_phc_salt_field(row1.password_hash@, salt1);
    lemma_default_phc_salt_field(row2.password_hash@, salt2);
    if row1.password_hash@ == row2.password_hash@ {
        lemma_salt_field_unique(row1.password_hash@, salt1, salt2);
    }
}

/// The row that sign-up stores for this request (see [`new_user`]).
pub fn signup_user(body: &SignupBody) -> (r: Option<User>)
    ensures
        exists|salt: Seq<char>| is_generated_salt(salt) && #[trigger] salted_user(
            body.username@,
            body.password@,
            salt,
            r,
        ),
        r matches Some(row) ==> signup_row(body.username@, body.password@, row),
{
    new_user(body.username.as_str(), body.password.as_str())
}

/// The reply to a sign-up, given the row that the insert returned (`None`
/// where the insert failed): the stored user, or `500`.
pub open spec fn signup_outcome(inserted: Option<User>) -> Reply<User> {
    match inserted {
        Some(row) => Reply::<User> { status: Status::Success, payload: Payload::Data(row) },
        None => Reply::<User> {
            status: Status::InternalServerError,
            payload: Payload::Notice(Notice::CreateUserFailed),
        },
    }
}

/// A sign-up succeeds exactly when the insert returned a row, and then it
/// answers with that very row, whatever it holds.
pub proof fn lemma_signup_answers_stored_row(inserted: Option<User>, row: User)
    ensures
        (signup_outcome(inserted).status == Status::Success) == (inserted is Some),
        signup_outcome(Some(row)).payload == Payload::Data(row),
        signup_outcome(None).payload == Payload::<User>::Notice(Notice::CreateUserFailed),
{
}

/// Builds the reply of [`signup_outcome`].
pub fn signup(inserted: Option<User>) -> (r: Reply<User>)
    ensures
        r == signup_outcome(inserted),
        (r.status == Status::Success) == (inserted is Some),
        inserted is Some ==> r.payload == Payload::Data(inserted->0),
        inserted is None ==> r.status == Status::InternalServerError && r.payload
            == Payload::<User>::Notice(Notice::CreateUserFailed),
{
    match inserted {
        Some(row) => Reply::data(row),
        None => Reply::notice(Status::InternalServerError, Notice::CreateUserFailed),
    }
}

} // verus!
