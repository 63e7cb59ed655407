//! The user listing, available in debug mode only.

use crate::reply::{listing, Notice, Payload, Reply, Status};
use crate::user::models::User;
use crate::AppState;
use vstd::prelude::*;

verus! {

/// Whether the listing queries the database: only in debug mode.
pub fn list_users_query(state: &AppState) -> (b: bool)
    ensures
        b == state.is_debug,
{
    state.is_debug
}

/// The reply to a listing request, given the users that the query returned
/// (`None` where it failed or was not run). Outside debug mode the listing is
/// refused whatever `fetched` holds.
pub open spec fn list_users_outcome(is_debug: bool, fetched: Option<Vec<User>>) -> Reply<Vec<User>> {
    if !is_debug {
        Reply::<Vec<User>> {
            status: Status::NotFound,
            payload: Payload::Notice(Notice::ListUsersDisabled),
        }
    } else {
        match fetched {
            Some(users) => Reply::<Vec<User>> { status: Status::Success, payload: Payload::Data(users) },
            None => Reply::<Vec<User>> {
                status: Status::NotFound,
                payload: Payload::Notice(Notice::NoUsersFound),
            },
        }
    }
}

/// Builds the reply of [`list_users_outcome`].
pub fn list_users(state: &AppState, fetched: Option<Vec<User>>) -> (r: Reply<Vec<User>>)
    ensures
        r == list_users_outcome(state.is_debug, fetched),
        !state.is_debug ==> r.status == Status::NotFound && r.payload == Payload::<Vec<User>>::Notice(
            Notice::ListUsersDisabled,
        ),
        state.is_debug && fetched is Some ==> r.status == Status::Success && r.payload
            == Payload::Data(fetched->0),
        state.is_debug && fetched is None ==> r.status == Status::NotFound && r.payload
            == Payload::<Vec<User>>::Notice(Notice::NoUsersFound),
{
    if state.is_debug {
        listing(fetched, Notice::NoUsersFound)
    } else {
        Reply::notice(Status::NotFound, Notice::ListUsersDisabled)
    }
}


/// Outside debug mode the listing is refused with `404` and the same notice
/// whatever the query would have returned; in debug mode the rows that came
/// back are answered with `200`, exactly and all of them.
pub proof fn lemma_listing_only_in_debug(fetched: Option<Vec<User>>, users: Vec<User>)
    ensures
        list_users_outcome(false, fetched).status == Status::NotFound,
        list_users_outcome(false, fetched).payload == Payload::<Vec<User>>::Notice(
            Notice::ListUsersDisabled,
        ),
        list_users_outcome(false, fetched) == list_users_outcome(false, None),
        list_users_outcome(true, Some(users)).status == Status::Success,
        list_users_outcome(true, Some(users)).payload == Payload::Data(users),
{
}

} // verus!
