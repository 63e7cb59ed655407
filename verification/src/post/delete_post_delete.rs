//! Deletion of the authenticated user's own post.

use crate::auth::Authenticated;
use crate::post::{delete_outcome, DeleteTarget};
use crate::reply::Reply;
use vstd::prelude::*;

verus! {

/// The post that a deletion targets (see `post::delete_target`).
pub fn delete_target(id: i32, auth: &Authenticated) -> (t: DeleteTarget)
    ensures
        t.id == id,
        t.username@ == auth.spec_claims().subject(),
{
    crate::post::delete_target(id, auth)
}

/// The reply to a deletion (see `delete_outcome`).
pub fn delete(removed: Option<u64>) -> (r: Reply<()>)
    ensures
        r == delete_outcome(removed),
{
    crate::post::delete(removed)
}

} // verus!
