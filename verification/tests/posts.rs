use blog_api::auth::{Authenticated, Claims};
use blog_api::post::models::{self, TextPost};
use blog_api::post::{
    create, create_row, delete, delete_post_delete, delete_target, get_post_list, list_posts,
    names_username_fkey, post_post_create, services, CreateTextPostBody, QueryError, SqlTextPost,
};
use blog_api::reply::{Notice, Payload, Reply, Status};
use blog_api::AppState;

fn authed(name: &str) -> Authenticated {
    Authenticated::from_request(Some(Claims::from_parts(name.to_string(), 1000))).unwrap()
}

fn post(id: i32, user: &str) -> SqlTextPost {
    SqlTextPost { id, title: "t".to_string(), content: "c".to_string(), username: user.to_string() }
}

fn fkey_error() -> QueryError {
    QueryError::Database { constraint: Some("text_posts_username_fkey".to_string()) }
}

#[test]
fn created_post_is_attributed_to_the_authenticated_user() {
    let body = CreateTextPostBody { title: "Hello".to_string(), content: "World".to_string() };
    let row = create_row(&authed("ann"), &body);
    assert_eq!(row.title, "Hello");
    assert_eq!(row.content, "World");
    assert_eq!(row.username, "ann");
    let body2 = post_post_create::CreateTextPostBody { title: "A".to_string(), content: "B".to_string() };
    assert_eq!(post_post_create::create_row(&authed("bob"), &body2).username, "bob");
}

#[test]
fn create_success_returns_the_post() {
    let state = AppState { is_debug: false };
    let r = create(&state, Ok::<SqlTextPost, QueryError>(post(7, "ann")));
    assert_eq!(r, Reply { status: Status::Success, payload: Payload::Data(post(7, "ann")) });
}

#[test]
fn unknown_poster_is_reported_only_in_debug_mode() {
    let debug = AppState { is_debug: true };
    let prod = AppState { is_debug: false };
    let r = create::<SqlTextPost>(&debug, Err(fkey_error()));
    assert_eq!(r.status, Status::InternalServerError);
    assert_eq!(r.payload, Payload::Notice(Notice::CreatePostUnknownUser));
    assert_eq!(Notice::CreatePostUnknownUser.text(), "Unable to create post. User doesn't exist");
    let r = create::<SqlTextPost>(&prod, Err(fkey_error()));
    assert_eq!(r.payload, Payload::Notice(Notice::CreatePostFailed));
    assert_eq!(Notice::CreatePostFailed.text(), "Unable to create post.");
}

#[test]
fn other_create_failures_are_generic_even_in_debug_mode() {
    let debug = AppState { is_debug: true };
    let generic = Reply::<SqlTextPost>::notice(Status::InternalServerError, Notice::CreatePostFailed);
    assert_eq!(create::<SqlTextPost>(&debug, Err(QueryError::Other)), generic);
    assert_eq!(create::<SqlTextPost>(&debug, Err(QueryError::Database { constraint: None })), generic);
    let other = QueryError::Database { constraint: Some("text_posts_pkey".to_string()) };
    assert_eq!(create::<SqlTextPost>(&debug, Err(other)), generic);
    let empty = QueryError::Database { constraint: Some(String::new()) };
    assert_eq!(create::<SqlTextPost>(&debug, Err(empty)), generic);
}

#[test]
fn constraint_name_check() {
    assert!(names_username_fkey(&"text_posts_username_fkey".to_string()));
    assert!(!names_username_fkey(&"text_posts_username_fkey ".to_string()));
    assert!(!names_username_fkey(&String::new()));
}

#[test]
fn post_post_create_handler_matches() {
    let debug = AppState { is_debug: true };
    let row = TextPost { id: 1, title: "a".to_string(), content: "b".to_string(), username: "c".to_string() };
    assert_eq!(post_post_create::create(&debug, Ok(row.clone())), Reply::data(row));
    assert_eq!(
        post_post_create::create(&debug, Err(fkey_error())),
        Reply::notice(Status::InternalServerError, Notice::CreatePostUnknownUser)
    );
}

#[test]
fn deletion_targets_own_posts_and_reports_rows() {
    let t = delete_target(42, &authed("ann"));
    assert_eq!(t.id, 42);
    assert_eq!(t.username, "ann");
    assert_eq!(delete_post_delete::delete_target(-3, &authed("bo")).username, "bo");
    let r = delete(Some(1));
    assert_eq!(r, Reply::notice(Status::Success, Notice::PostDeleted));
    assert_eq!(Notice::PostDeleted.text(), "TextPost successfully deleted");
    let r = delete(Some(0));
    assert_eq!(r.status, Status::Success);
    assert_eq!(r.payload, Payload::Notice(Notice::DeletePostFailed));
    assert_eq!(Notice::DeletePostFailed.text(), "Failed to delete TextPost");
    let r = delete(None);
    assert_eq!(r.status, Status::InternalServerError);
    assert_eq!(r.payload, Payload::Notice(Notice::DeletePostFailed));
    assert_eq!(delete_post_delete::delete(Some(3)), delete(Some(3)));
}

#[test]
fn listing_posts() {
    let r = list_posts(Some(vec![post(1, "a"), post(2, "b")]));
    assert_eq!(r, Reply::data(vec![post(1, "a"), post(2, "b")]));
    let r = list_posts(None);
    assert_eq!(r.status.code(), 404);
    assert_eq!(r.payload, Payload::Notice(Notice::NoPostsFound));
    assert_eq!(Notice::NoPostsFound.text(), "No posts found.");
    let empty: Vec<TextPost> = Vec::new();
    assert_eq!(get_post_list::list_posts(Some(empty.clone())), Reply::data(empty.clone()));
    assert_eq!(services::list_posts(None).payload, Payload::Notice(Notice::NoPostsFound));
}

#[test]
fn earlier_post_endpoints() {
    let body = models::CreateTextPostBody {
        title: "x".to_string(),
        content: "y".to_string(),
        username: "zed".to_string(),
    };
    let row = services::create_row(&body);
    assert_eq!((row.title.as_str(), row.content.as_str(), row.username.as_str()), ("x", "y", "zed"));
    let stored = TextPost { id: 9, title: "x".to_string(), content: "y".to_string(), username: "zed".to_string() };
    assert_eq!(services::create(Some(stored.clone())), Reply::data(stored));
    assert_eq!(services::create(None), Reply::notice(Status::InternalServerError, Notice::CreatePostFailed));
    assert_eq!(services::delete(true), Reply::notice(Status::Success, Notice::PostDeleted));
    assert_eq!(services::delete(false), Reply::notice(Status::InternalServerError, Notice::DeletePostFailed));
}
