//! The reply to a request that no route serves.
use vstd::prelude::*;
use crate::endpoints::{HttpReply, plain_reply};

verus! {

/// A 404 reply with an empty body.
pub fn handler() -> (reply: HttpReply)
    ensures
        reply@ == plain_reply(404, Seq::empty()),
{
    HttpReply::empty(404)
}

} // verus!
