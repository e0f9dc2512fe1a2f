//! Errors of the websocket upgrade.
use vstd::prelude::*;

verus! {

/// An error of the websocket upgrade; the failed upgrade carries the text
/// of its underlying error.
pub enum WebsocketError {
    Upgrade(String),
}

/// The text of an error, as it is displayed.
pub open spec fn error_text(e: WebsocketError) -> Seq<char> {
    match e {
        WebsocketError::Upgrade(cause) => "routerify-websocket: "@ + "Websocket upgrade error: "@
            + cause@,
    }
}

impl WebsocketError {
    /// The displayed text of the error.
    pub fn to_text(&self) -> (text: String)
        ensures
            text@ == error_text(*self),
    {
        match self {
            WebsocketError::Upgrade(cause) => {
                let mut text = "routerify-websocket: ".to_owned();
                text.append("Websocket upgrade error: ");
                text.append(cause.as_str());
                text
            },
        }
    }
}

} // verus!
