//! Creation of a post by the authenticated user, over `models::TextPost` rows.

use crate::auth::Authenticated;
use crate::post::models::TextPost;
use crate::post::{create_outcome, NewTextPost, QueryError};
use crate::reply::Reply;
use crate::AppState;
use vstd::prelude::*;

verus! {

/// Body of a post-creation request.
#[derive(Debug, Clone, PartialEq, Eq)]
pub struct CreateTextPostBody {
    pub title: String,
    pub content: String,
}

/// The row that a post creation inserts: title and content from the request,
/// the poster from the authentication.
pub fn create_row(auth: &Authenticated, body: &CreateTextPostBody) -> (row: NewTextPost)
    ensures
        row.title@ == body.title@,
        row.content@ == body.content@,
        row.username@ == auth.spec_claims().subject(),
{
    let claims = auth.claims();
    NewTextPost {
        title: body.title.clone(),
        content: body.content.clone(),
        username: claims.sub().clone(),
    }
}

/// The reply to a post creation (see `create_outcome`).
pub fn create(state: &AppState, inserted: Result<TextPost, QueryError>) -> (r: Reply<TextPost>)
    ensures
        r == create_outcome(state.is_debug, inserted),
{
    crate::post::create(state, inserted)
}

} // verus!
