pub mod memory;

use vstd::prelude::*;

use crate::message_types::{RequestMessage, RequestMessageView, ResponseMessage, ResponseMessageView};

verus! {

/// The (request, response) pairs a layer has answered, oldest first.
pub type CallLog = Seq<(RequestMessageView, ResponseMessageView)>;

/// A pipeline stage. A layer may mutate the request in place (say, to
/// inject context) before it produces a response; a layer that wraps
/// another stage delegates to it and is indistinguishable, from outside,
/// from a terminal stage. `history` models the calls the layer has
/// answered: each `execute` appends the request as it arrived and the
/// response it returned.
pub trait Layer: Sized {
    /// The (request, response) pairs this layer has answered, oldest first.
    spec fn history(&self) -> CallLog;

    /// Fully resolve one request into one response.
    fn execute(&mut self, message: &mut RequestMessage) -> (r: ResponseMessage)
        ensures
            final(self).history() == old(self).history().push(((*old(message))@, r@)),
    ;
}

} // verus!
