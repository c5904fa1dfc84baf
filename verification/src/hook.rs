//! Hooks: code of the application's own that looks at messages as they leave.
//!
//! What is stated of hooks is that each of them was told or asked, of what, and what
//! follows from their answers. It is not stated how often, in which order, or that
//! no other call was made: a hook is called through a shared reference, so a call
//! leaves no trace in any value that a contract could speak of. What calls no hook
//! stands in impls without the hooks' traits, and so cannot call one.

use vstd::prelude::*;

use crate::error::MQClientError;
use crate::message::Message;
use crate::types::{CommunicationMode, MessageQueue, SendResult};

verus! {

/// The kinds of message that hooks are told apart.
#[derive(Clone, Copy, PartialEq, Eq, Structural, Debug)]
pub enum MessageType {
    /// The first half of a transaction.
    TransMsgHalf,
    /// A message to be delivered later.
    DelayMsg,
}

/// What a send hook is shown.
pub struct SendMessageContext {
    /// The number under which the producer is kept.
    pub producer: Option<u64>,
    pub producer_group: Option<String>,
    pub communication_mode: Option<CommunicationMode>,
    pub born_host: Option<String>,
    pub broker_addr: Option<String>,
    pub message: Option<Message>,
    pub mq: Option<MessageQueue>,
    pub namespace: Option<String>,
    pub msg_type: Option<MessageType>,
    /// The broker's answer, once there is one.
    pub send_result: Option<SendResult>,
}

/// What a hook that may forbid a send is shown.
pub struct CheckForbiddenContext<'a> {
    pub name_srv_addr: Option<String>,
    pub group: Option<String>,
    pub communication_mode: Option<CommunicationMode>,
    pub broker_addr: Option<String>,
    pub message: Option<&'a Message>,
    pub mq: Option<&'a MessageQueue>,
    pub unit_mode: bool,
}

/// Told of each message before and after it is sent.
pub trait SendMessageHook {
    fn send_message_before(&self, context: &Option<SendMessageContext>);

    fn send_message_after(&self, context: &Option<SendMessageContext>);
}

/// Asked whether a message may be sent.
pub trait CheckForbiddenHook {
    fn check_forbidden(&self, context: &CheckForbiddenContext<'_>) -> Result<(), MQClientError>;
}

/// `verdicts` are answers that the first hooks of `hooks` gave when asked about
/// `context`, one of each hook.
pub open spec fn answered<C: CheckForbiddenHook>(
    hooks: Seq<C>,
    context: CheckForbiddenContext<'_>,
    verdicts: Seq<Result<(), MQClientError>>,
) -> bool {
    &&& verdicts.len() <= hooks.len()
    &&& forall|i: int|
        0 <= i < verdicts.len() ==> call_ensures(
            C::check_forbidden,
            (&hooks[i], &context),
            #[trigger] verdicts[i],
        )
}

/// The answer of `total` hooks together, the first of which gave `verdicts`: the
/// first refusal, whatever later hooks would answer, or consent when all of them
/// consent.
pub open spec fn common_answer(
    verdicts: Seq<Result<(), MQClientError>>,
    total: nat,
    answer: Result<(), MQClientError>,
) -> bool {
    &&& forall|i: int| 0 <= i < verdicts.len() - 1 ==> (#[trigger] verdicts[i]) is Ok
    &&& match answer {
        Ok(_) => verdicts.len() == total && (total > 0 ==> verdicts.last() is Ok),
        Err(e) => verdicts.len() > 0 && verdicts.last() == answer,
    }
}

/// Every hook of `hooks` was told of `context` before the send.
pub open spec fn told_before<S: SendMessageHook>(
    hooks: Seq<S>,
    context: Option<SendMessageContext>,
) -> bool {
    forall|i: int|
        0 <= i < hooks.len() ==> call_ensures(
            S::send_message_before,
            (&#[trigger] hooks[i], &context),
            (),
        )
}

/// Every hook of `hooks` was told of `context` after the send.
pub open spec fn told_after<S: SendMessageHook>(
    hooks: Seq<S>,
    context: Option<SendMessageContext>,
) -> bool {
    forall|i: int|
        0 <= i < hooks.len() ==> call_ensures(
            S::send_message_after,
            (&#[trigger] hooks[i], &context),
            (),
        )
}

/// Hooks were asked one by one: each verdict is the answer of the hook in its place.
pub proof fn law_verdicts_are_answers_of_hooks<C: CheckForbiddenHook>(
    hooks: Seq<C>,
    context: CheckForbiddenContext<'_>,
    verdicts: Seq<Result<(), MQClientError>>,
    i: int,
)
    requires
        answered(hooks, context, verdicts),
        0 <= i < verdicts.len(),
    ensures
        i < hooks.len(),
        call_ensures(C::check_forbidden, (&hooks[i], &context), verdicts[i]),
{
}

/// Consent is that of all hooks. A refusal is the first one: every hook before it
/// consented, and what is answered is its very error.
pub proof fn law_common_answer_is_the_first_refusal(
    verdicts: Seq<Result<(), MQClientError>>,
    total: nat,
    answer: Result<(), MQClientError>,
    i: int,
)
    requires
        common_answer(verdicts, total, answer),
    ensures
        answer is Ok ==> verdicts.len() == total,
        answer is Ok && 0 <= i < total ==> verdicts[i] is Ok,
        answer is Err ==> verdicts.len() > 0 && verdicts[verdicts.len() - 1] == answer,
        answer is Err && 0 <= i < verdicts.len() - 1 ==> verdicts[i] is Ok,
        0 <= i < verdicts.len() && verdicts[i] is Err ==> answer == verdicts[i],
        total == 0 && verdicts.len() == 0 ==> answer is Ok,
{
}

/// Telling the send hooks reaches every one of them, with the same context.
pub proof fn law_every_hook_is_told<S: SendMessageHook>(
    hooks: Seq<S>,
    context: Option<SendMessageContext>,
    i: int,
)
    requires
        0 <= i < hooks.len(),
    ensures
        told_before(hooks, context) ==> call_ensures(
            S::send_message_before,
            (&hooks[i], &context),
            (),
        ),
        told_after(hooks, context) ==> call_ensures(
            S::send_message_after,
            (&hooks[i], &context),
            (),
        ),
{
}

} // verus!
