//! Text posts: listing, creation by the authenticated user, deletion of the
//! user's own posts.

pub mod delete_post_delete;
pub mod get_post_list;
pub mod models;
pub mod post_post_create;
pub mod services;

use crate::auth::Authenticated;
use crate::reply::{listing, Notice, Payload, Reply, Status};
use crate::AppState;
use vstd::prelude::*;

verus! {

/// A stored text post.
#[derive(Debug, Clone, PartialEq, Eq)]
pub struct SqlTextPost {
    pub id: i32,
    pub title: String,
    pub content: String,
    /// The poster.
    pub username: String,
}

/// Body of a post-creation request.
#[derive(Debug, Clone, PartialEq, Eq)]
pub struct CreateTextPostBody {
    pub title: String,
    pub content: String,
}

/// The row that a post creation inserts.
#[derive(Debug, Clone, PartialEq, Eq)]
pub struct NewTextPost {
    pub title: String,
    pub content: String,
    /// The poster.
    pub username: String,
}

/// The post that a deletion removes: the one with this id, if it belongs to
/// this user.
#[derive(Debug, Clone, PartialEq, Eq)]
pub struct DeleteTarget {
    pub id: i32,
    pub username: String,
}

/// How a database query failed, as far as replies tell failures apart.
#[derive(Debug, Clone, PartialEq, Eq)]
pub enum QueryError {
    /// An error that the database reported, with the name of the constraint
    /// that it violated, where it names one.
    Database { constraint: Option<String> },
    /// Any other failure (connection, decoding, ...).
    Other,
}

/// The name of the constraint that ties a post's poster to an existing user.
pub open spec fn is_username_fkey(name: Seq<char>) -> bool {
    name == "text_posts_username_fkey"@
}

/// Whether `name` is the constraint that ties a post's poster to a user.
pub fn names_username_fkey(name: &String) -> (b: bool)
    ensures
        b == is_username_fkey(name@),
{
    let fkey = String::from_str("text_posts_username_fkey");
    *name == fkey
}

/// The row that a post creation inserts: title and content from the request,
/// the poster from the authentication.
pub fn create_row(auth: &Authenticated, body: &CreateTextPostBody) -> (row: NewTextPost)
    ensures
        row.title@ == body.title@,
        row.content@ == body.content@,
        row.username@ == auth.spec_claims().subject(),
{
    let claims = auth.claims();
    NewTextPost {
        title: body.title.clone(),
        content: body.content.clone(),
        username: claims.sub().clone(),
    }
}

/// The reply to a post creation, given what the insert returned: the stored
/// post, or `500`. Only in debug mode does the reply say that the poster does
/// not exist, when the insert broke the poster constraint.
pub open spec fn create_outcome<T>(is_debug: bool, inserted: Result<T, QueryError>) -> Reply<T> {
    match inserted {
        Ok(post) => Reply::<T> { status: Status::Success, payload: Payload::Data(post) },
        Err(err) => {
            let unknown_user = is_debug && match err {
                QueryError::Database { constraint } => constraint matches Some(name)
                    && is_username_fkey(name@),
                QueryError::Other => false,
            };
            Reply::<T> {
                status: Status::InternalServerError,
                payload: Payload::Notice(
                    if unknown_user {
                        Notice::CreatePostUnknownUser
                    } else {
                        Notice::CreatePostFailed
                    },
                ),
            }
        },
    }
}

/// Builds the reply of [`create_outcome`].
pub fn create<T>(state: &AppState, inserted: Result<T, QueryError>) -> (r: Reply<T>)
    ensures
        r == create_outcome(state.is_debug, inserted),
{
    match inserted {
        Ok(post) => Reply::data(post),
        Err(err) => {
            let unknown_user = match &err {
                QueryError::Database { constraint } => match constraint {
                    Some(name) => names_username_fkey(name) && state.is_debug,
                    None => false,
                },
                QueryError::Other => false,
            };
            if unknown_user {
                Reply::notice(Status::InternalServerError, Notice::CreatePostUnknownUser)
            } else {
                Reply::notice(Status::InternalServerError, Notice::CreatePostFailed)
            }
        },
    }
}

/// A creation succeeds exactly when the insert did, and outside debug mode
/// every failure is answered alike, telling nothing about the poster.
pub proof fn lemma_create_failures<T>(is_debug: bool, inserted: Result<T, QueryError>)
    ensures
        (create_outcome(is_debug, inserted).status == Status::Success) == (inserted is Ok),
        !is_debug && inserted is Err ==> create_outcome(is_debug, inserted) == (Reply::<T> {
            status: Status::InternalServerError,
            payload: Payload::Notice(Notice::CreatePostFailed),
        }),
{
}

/// The post that a deletion targets: the given id, restricted to the
/// authenticated user's posts.
pub fn delete_target(id: i32, auth: &Authenticated) -> (t: DeleteTarget)
    ensures
        t.id == id,
        t.username@ == auth.spec_claims().subject(),
{
    let claims = auth.claims();
    DeleteTarget { id, username: claims.sub().clone() }
}

/// The reply to a deletion, given how many rows it removed (`None` where the
/// statement failed): `200` in both cases where it ran, saying whether a post
/// was removed, and `500` where it failed.
pub open spec fn delete_outcome(removed: Option<u64>) -> Reply<()> {
    match removed {
        Some(rows) => Reply::<()> {
            status: Status::Success,
            payload: Payload::Notice(
                if rows > 0 {
                    Notice::PostDeleted
                } else {
                    Notice::DeletePostFailed
                },
            ),
        },
        None => Reply::<()> {
            status: Status::InternalServerError,
            payload: Payload::Notice(Notice::DeletePostFailed),
        },
    }
}

/// Builds the reply of [`delete_outcome`].
pub fn delete(removed: Option<u64>) -> (r: Reply<()>)
    ensures
        r == delete_outcome(removed),
{
    match removed {
        Some(rows) => if rows > 0 {
            Reply::notice(Status::Success, Notice::PostDeleted)
        } else {
            Reply::notice(Status::Success, Notice::DeletePostFailed)
        },
        None => Reply::notice(Status::InternalServerError, Notice::DeletePostFailed),
    }
}

/// The reply to a post listing, given the posts that the query returned
/// (`None` where it failed).
pub open spec fn list_posts_outcome<T>(fetched: Option<Vec<T>>) -> Reply<Vec<T>> {
    match fetched {
        Some(posts) => Reply::<Vec<T>> { status: Status::Success, payload: Payload::Data(posts) },
        None => Reply::<Vec<T>> {
            status: Status::NotFound,
            payload: Payload::Notice(Notice::NoPostsFound),
        },
    }
}

/// Whatever rows the query returned, however many, the listing answers `200`
/// with exactly those rows; only a failed query is answered `404`.
pub proof fn lemma_listing_returns_all_rows<T>(posts: Vec<T>)
    ensures
        list_posts_outcome(Some(posts)).status == Status::Success,
        list_posts_outcome(Some(posts)).payload == Payload::Data(posts),
        list_posts_outcome::<T>(None).status == Status::NotFound,
{
}

/// Builds the reply of [`list_posts_outcome`].
pub fn list_posts(fetched: Option<Vec<SqlTextPost>>) -> (r: Reply<Vec<SqlTextPost>>)
    ensures
        r == list_posts_outcome(fetched),
        fetched is Some ==> r.status == Status::Success && r.payload == Payload::Data(fetched->0),
        fetched is None ==> r.status == Status::NotFound && r.payload == Payload::<Vec<SqlTextPost>>::Notice(
            Notice::NoPostsFound,
        ),
{
    listing(fetched, Notice::NoPostsFound)
}

} // verus!
