//! The errors a producer reports.

use vstd::prelude::*;

verus! {

/// What can go wrong between a producer, its client and the brokers. Codes and
/// texts are carried as the failing side gave them.
#[derive(Debug)]
pub enum MQClientError {
    /// Raised on the client's side: code and text.
    MQClientException(i32, String),
    /// Answered by a broker: response code, text, broker address.
    MQBrokerException(i32, String, String),
    /// The transport failed: text.
    RemotingException(String),
    /// The call ran out of time before it was made: text.
    RemotingTooMuchRequestException(String),
    /// A request got no reply in time: code and text.
    RequestTimeoutException(i32, String),
    /// A queue has no such offset: code, text, broker address.
    OffsetNotFoundException(i32, String, String),
}

/// `error` is a client-side exception with this code and text.
pub open spec fn is_client_exception(error: MQClientError, code: i32, text: Seq<char>) -> bool {
    error matches MQClientError::MQClientException(c, t) && c == code && t@ == text
}

/// `error` says that a call ran out of time, in this text.
pub open spec fn is_too_much_request(error: MQClientError, text: Seq<char>) -> bool {
    error matches MQClientError::RemotingTooMuchRequestException(t) && t@ == text
}

/// The code of client-side exceptions that have no code of their own.
pub const UNCODED: i32 = -1;

/// A client-side exception has its code and its text, one that ran out of time its
/// text, and no error is both. The code of those without one is minus one.
pub proof fn law_errors_carry_code_and_text(error: MQClientError, code: i32, text: Seq<char>)
    ensures
        is_client_exception(error, code, text) <==> match error {
            MQClientError::MQClientException(c, t) => c == code && t@ == text,
            _ => false,
        },
        is_too_much_request(error, text) <==> match error {
            MQClientError::RemotingTooMuchRequestException(t) => t@ == text,
            _ => false,
        },
        UNCODED == -1,
{
}

} // verus!
