//! A broker's answer to administrative requests.

use vstd::prelude::*;

verus! {

/// A command between a client and a broker, known by its code; `command_id` is the
/// number under which the caller keeps the rest of it.
#[derive(Clone, Copy, PartialEq, Eq, Structural, Debug)]
pub struct RemotingCommand {
    pub code: i32,
    pub command_id: u64,
}

/// Answers administrative requests.
pub struct AdminBrokerProcessor {}

impl Default for AdminBrokerProcessor {
    fn default() -> (processor: AdminBrokerProcessor)
        ensures
            processor == (AdminBrokerProcessor {  }),
    {
        AdminBrokerProcessor {  }
    }
}

impl AdminBrokerProcessor {
    /// Answers a request, whatever it asks and wherever it comes from, with
    /// `blank_response`, a response without content.
    pub fn process_request<X>(
        &self,
        _ctx: X,
        _request: RemotingCommand,
        blank_response: RemotingCommand,
    ) -> (response: RemotingCommand)
        ensures
            response == blank_response,
    {
        blank_response
    }
}

} // verus!
