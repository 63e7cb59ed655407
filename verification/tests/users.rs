use blog_api::reply::{Notice, Payload, Reply, Status};
use blog_api::user::get_user_list::{list_users, list_users_query};
use blog_api::user::models::{self, User};
use blog_api::user::post_user_login::{login, login_reply, LoginBody};
use blog_api::user::post_user_signup::{
    hash_password_with_salt, new_user, new_user_with_salt, signup, signup_user, SignupBody,
};
use blog_api::user::services;
use blog_api::AppState;

fn user(name: &str, hash: &str) -> User {
    User { username: name.to_string(), password_hash: hash.to_string() }
}

#[test]
fn listing_is_refused_outside_debug_mode() {
    let state = AppState { is_debug: false };
    assert!(!list_users_query(&state));
    let r = list_users(&state, Some(vec![user("ann", "x")]));
    assert_eq!(r.status, Status::NotFound);
    assert_eq!(r.status.code(), 404);
    assert_eq!(r.payload, Payload::Notice(Notice::ListUsersDisabled));
    assert_eq!(Notice::ListUsersDisabled.text(), "List users is disabled in production.");
}

#[test]
fn listing_in_debug_mode_returns_rows_or_not_found() {
    let state = AppState { is_debug: true };
    assert!(list_users_query(&state));
    let rows = vec![user("ann", "h1"), user("bob", "h2")];
    let r = list_users(&state, Some(rows.clone()));
    assert_eq!(r, Reply { status: Status::Success, payload: Payload::Data(rows.clone()) });
    assert_eq!(r.status.code(), 200);
    let r = list_users(&state, None);
    assert_eq!(r.status, Status::NotFound);
    assert_eq!(r.payload, Payload::Notice(Notice::NoUsersFound));
    assert_eq!(Notice::NoUsersFound.text(), "No users found.");
    assert_eq!(services::list_users(&state, Some(rows.clone())), Reply::data(rows));
}

#[test]
fn hashing_with_a_fixed_salt_is_repeatable_and_verifies() {
    let salt = "c29tZXNhbHRzb21lc2FsdA";
    let a = hash_password_with_salt("hunter42", salt).expect("hash");
    let b = hash_password_with_salt("hunter42", salt).expect("hash");
    assert_eq!(a, b);
    assert_ne!(a, "hunter42");
    let expected_prefix = format!("$argon2id$v=19$m=19456,t=2,p=1${}$", salt);
    assert!(a.starts_with(&expected_prefix));
    assert_eq!(a.len(), expected_prefix.len() + 43);
    let c = hash_password_with_salt("hunter43", salt).expect("hash");
    assert_ne!(a, c);
    let stored = user("ann", &a);
    let r = login_reply("hunter42", Some(stored)).expect("parsable");
    assert_eq!(r.status, Status::Success);
}

#[test]
fn hashing_with_an_invalid_salt_fails() {
    assert_eq!(hash_password_with_salt("pw", "not b64 !"), None);
}

#[test]
fn signup_then_login_with_the_same_password_succeeds() {
    let body = SignupBody { username: "ann".to_string(), password: "correct horse".to_string() };
    let row = signup_user(&body).expect("hashing succeeds");
    assert_eq!(row.username, "ann");
    assert_ne!(row.password_hash, body.password);
    let reply = login(
        &LoginBody { username: "ann".to_string(), password: "correct horse".to_string() },
        Some(row.clone()),
    )
    .expect("stored hash parses");
    assert_eq!(reply.status, Status::Success);
    assert_eq!(reply.payload, Payload::Notice(Notice::LoggedIn("ann".to_string())));
    assert_eq!(Notice::LoggedIn("ann".to_string()).text(), "user ann ");
}

#[test]
fn two_signups_draw_different_salts() {
    let a = new_user("ann", "pw").expect("hash");
    let b = new_user("ann", "pw").expect("hash");
    assert_ne!(a.password_hash, b.password_hash);
}

#[test]
fn wrong_password_and_unknown_user_get_the_same_reply() {
    let row = new_user("bob", "secret").expect("hash");
    let wrong = login_reply("guess", Some(row)).expect("parses");
    let unknown = login_reply("guess", None).expect("no hash to parse");
    assert_eq!(wrong, unknown);
    assert_eq!(wrong.status, Status::InternalServerError);
    assert_eq!(wrong.status.code(), 500);
    assert_eq!(wrong.payload, Payload::Notice(Notice::ValidateUserFailed));
    assert_eq!(Notice::ValidateUserFailed.text(), "Failed to validate user.");
}

#[test]
fn unparsable_stored_hash_gives_no_reply() {
    assert_eq!(login_reply("pw", Some(user("eve", "plaintext"))), None);
    assert_eq!(login_reply("pw", Some(user("eve", ""))), None);
}

#[test]
fn services_login_and_signup_agree_with_the_split_handlers() {
    let body = models::SignupBody { username: "cy".to_string(), password: "pw1".to_string() };
    let row = services::signup_user(&body).expect("hash");
    assert_eq!(row.username, "cy");
    let ok = services::login(
        &models::LoginBody { username: "cy".to_string(), password: "pw1".to_string() },
        Some(row.clone()),
    );
    assert_eq!(ok, Some(Reply::notice(Status::Success, Notice::LoggedIn("cy".to_string()))));
    assert_eq!(services::signup(Some(row.clone())), Reply::data(row));
    assert_eq!(services::signup(None), signup(None));
}

#[test]
fn signup_reply_returns_the_stored_user_or_500() {
    let row = user("dee", "$argon2id$x");
    assert_eq!(signup(Some(row.clone())), Reply { status: Status::Success, payload: Payload::Data(row) });
    let r = signup(None);
    assert_eq!(r.status, Status::InternalServerError);
    assert_eq!(r.payload, Payload::Notice(Notice::CreateUserFailed));
    assert_eq!(Notice::CreateUserFailed.text(), "Failed to create user");
}

#[test]
fn debug_setting_is_on_only_for_true() {
    assert!(AppState::from_debug_setting(Some("true")).is_debug);
    assert!(!AppState::from_debug_setting(Some("false")).is_debug);
    assert!(!AppState::from_debug_setting(Some("TRUE")).is_debug);
    assert!(!AppState::from_debug_setting(Some("1")).is_debug);
    assert!(!AppState::from_debug_setting(None).is_debug);
}

#[test]
fn signup_with_a_given_salt_stores_that_salts_hash() {
    let salt = "c29tZXNhbHRzb21lc2FsdA";
    let row = new_user_with_salt("ann", "pw", salt).expect("hash");
    assert_eq!(row.username, "ann");
    assert_eq!(Some(row.password_hash.clone()), hash_password_with_salt("pw", salt));
    assert!(row.password_hash.contains(&format!("${}$", salt)));
    let other = new_user_with_salt("bob", "pw", "b3RoZXJzYWx0b3RoZXJzYWx0").expect("hash");
    assert_ne!(row.password_hash, other.password_hash);
    assert_eq!(new_user_with_salt("ann", "pw", "bad salt!"), None);
}

#[test]
fn another_password_is_refused_after_signup() {
    let row = new_user("ann", "right").expect("hash");
    let r = login_reply("wrong", Some(row)).expect("parses");
    assert_eq!(r, Reply::notice(Status::InternalServerError, Notice::ValidateUserFailed));
}
