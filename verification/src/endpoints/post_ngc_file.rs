//! The endpoint that receives G-code programs.
use vstd::prelude::*;
use crate::endpoints::{HttpReply, plain_reply};

verus! {

/// A 200 reply with an empty body; the upload is not stored.
pub fn handler() -> (reply: HttpReply)
    ensures
        reply@ == plain_reply(200, Seq::empty()),
{
    HttpReply::empty(200)
}

} // verus!
