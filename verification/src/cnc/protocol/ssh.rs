//! Decisions of the ssh client handlers.
use vstd::prelude::*;
use vstd::utf8::{decode_utf8, valid_utf8};
use crate::encoding::utf8_string;

verus! {

/// A value that can be taken out once: the sender of a one-shot channel,
/// which delivers the first data of a command's output and nothing after.
pub struct OneShot<T> {
    slot: Option<T>,
}

impl<T> OneShot<T> {
    /// The value, not yet taken.
    pub closed spec fn slot(&self) -> Option<T> {
        self.slot
    }

    /// Holds the value until it is taken.
    pub fn new(value: T) -> (s: Self)
        ensures
            s.slot() == Some(value),
    {
        OneShot { slot: Some(value) }
    }

    /// Takes the value out; every later call gives `None`.
    pub fn take(&mut self) -> (value: Option<T>)
        ensures
            value == old(self).slot(),
            final(self).slot() is None,
    {
        self.slot.take()
    }
}

/// Every server key is accepted.
pub fn check_server_key() -> (accepted: bool)
    ensures
        accepted,
{
    true
}

/// The text of data received on an ssh channel.
pub fn channel_text(data: Vec<u8>) -> (text: String)
    requires
        valid_utf8(data@),
    ensures
        text@ == decode_utf8(data@),
{
    match utf8_string(data) {
        Some(t) => t,
        None => String::new(),
    }
}

} // verus!
