//! The earlier post endpoints: the creation request names its poster, a
//! deletion removes the post by id, and failures are not told apart.

use crate::post::list_posts_outcome;
use crate::post::models::{CreateTextPostBody, TextPost};
use crate::post::NewTextPost;
use crate::reply::{listing, Notice, Payload, Reply, Status};
use vstd::prelude::*;

verus! {

/// The reply to a post listing (see `list_posts_outcome`).
pub fn list_posts(fetched: Option<Vec<TextPost>>) -> (r: Reply<Vec<TextPost>>)
    ensures
        r == list_posts_outcome(fetched),
        fetched is Some ==> r.status == Status::Success && r.payload == Payload::Data(fetched->0),
        fetched is None ==> r.status == Status::NotFound && r.payload == Payload::<Vec<TextPost>>::Notice(
            Notice::NoPostsFound,
        ),
{
    listing(fetched, Notice::NoPostsFound)
}

/// The row that a post creation inserts: all three fields from the request.
pub fn create_row(body: &CreateTextPostBody) -> (row: NewTextPost)
    ensures
        row.title@ == body.title@,
        row.content@ == body.content@,
        row.username@ == body.username@,
{
    NewTextPost {
        title: body.title.clone(),
        content: body.content.clone(),
        username: body.username.clone(),
    }
}

/// The reply to a post creation, given the post that the insert returned
/// (`None` where it failed): the post, or `500`.
pub open spec fn create_outcome(inserted: Option<TextPost>) -> Reply<TextPost> {
    match inserted {
        Some(post) => Reply::<TextPost> { status: Status::Success, payload: Payload::Data(post) },
        None => Reply::<TextPost> {
            status: Status::InternalServerError,
            payload: Payload::Notice(Notice::CreatePostFailed),
        },
    }
}

/// Builds the reply of [`create_outcome`].
pub fn create(inserted: Option<TextPost>) -> (r: Reply<TextPost>)
    ensures
        r == create_outcome(inserted),
{
    match inserted {
        Some(post) => Reply::data(post),
        None => Reply::notice(Status::InternalServerError, Notice::CreatePostFailed),
    }
}

/// The reply to a deletion by id, given whether the statement ran: `200`
/// whenever it ran, whether or not a post was removed, else `500`.
pub open spec fn delete_outcome(ran: bool) -> Reply<()> {
    if ran {
        Reply::<()> { status: Status::Success, payload: Payload::Notice(Notice::PostDeleted) }
    } else {
        Reply::<()> {
            status: Status::InternalServerError,
            payload: Payload::Notice(Notice::DeletePostFailed),
        }
    }
}

/// Builds the reply of [`delete_outcome`].
pub fn delete(ran: bool) -> (r: Reply<()>)
    ensures
        r == delete_outcome(ran),
{
    if ran {
        Reply::notice(Status::Success, Notice::PostDeleted)
    } else {
        Reply::notice(Status::InternalServerError, Notice::DeletePostFailed)
    }
}

} // verus!
