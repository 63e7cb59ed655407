//! The post listing over `models::TextPost` rows.

use crate::post::list_posts_outcome;
use crate::post::models::TextPost;
use crate::reply::{listing, Notice, Payload, Reply, Status};
use vstd::prelude::*;

verus! {

/// The reply to a post listing (see `list_posts_outcome`).
pub fn list_posts(fetched: Option<Vec<TextPost>>) -> (r: Reply<Vec<TextPost>>)
    ensures
        r == list_posts_outcome(fetched),
        fetched is Some ==> r.status == Status::Success && r.payload == Payload::Data(fetched->0),
        fetched is None ==> r.status == Status::NotFound && r.payload == Payload::<Vec<TextPost>>::Notice(
            Notice::NoPostsFound,
        ),
{
    listing(fetched, Notice::NoPostsFound)
}

} // verus!
