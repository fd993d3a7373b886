//! Announcement pipeline for upcoming live broadcasts: gathers
//! upcoming-stream metadata, renders it into notification cards, and
//! decides whether the destination channel's announcement message is
//! edited in place or posted anew.

pub mod render;
pub mod sink;
pub mod source;
pub mod time;

use vstd::prelude::*;
use crate::render::{render, card_matches, NotificationCard};
use crate::source::{FetchError, UpcomingStream};

verus! {

/// One run's decision after the fetch: a fetch failure aborts the run with
/// no announcement change, while any fetched batch — the empty one included
/// — is rendered and handed on to reconciliation.
pub fn plan_run(
    fetched: Result<Vec<UpcomingStream>, FetchError>,
) -> (r: Option<Vec<NotificationCard>>)
    ensures
        r is Some <==> fetched is Ok,
        r matches Some(cards) ==> {
            &&& cards@.len() == fetched.unwrap()@.len()
            &&& forall|i: int|
                0 <= i < cards@.len() ==> card_matches(cards@[i], fetched.unwrap()@[i])
        },
{
    match fetched {
        Ok(streams) => Some(render(&streams)),
        Err(_) => None,
    }
}

} // verus!
