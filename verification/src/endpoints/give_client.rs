//! The endpoint that serves the client page.
use vstd::prelude::*;
use crate::endpoints::{HttpReply, plain_reply};

verus! {

/// The page served at `/index.html`.
pub open spec fn client_page() -> Seq<char> {
    "<html><head> </head> <body><h1>OK</h1> </body> </html>"@
}

/// A 200 reply with the client page.
pub fn handler() -> (reply: HttpReply)
    ensures
        reply@ == plain_reply(200, client_page()),
{
    HttpReply::with_body(200, "<html><head> </head> <body><h1>OK</h1> </body> </html>".to_owned())
}

} // verus!
