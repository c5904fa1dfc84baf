//! What holds of a whole transmission, whatever it meets with.

use vstd::prelude::*;

use crate::error::{is_client_exception, is_too_much_request, MQClientError, UNCODED};
use crate::hook::{
    answered, common_answer, told_after, told_before, CheckForbiddenContext, CheckForbiddenHook,
    SendMessageContext, SendMessageHook,
};
use crate::message::{optional_text, Message, MessageKind, MessageView, Properties};
use crate::producer::DefaultMQProducerImpl;
use crate::send_default::{is_timed_step, SendAttempts, SendOutcome, SendStep};
use crate::send_kernel::{
    compression_due, is_transaction_half, message_behind_header, no_broker_text, optional_bytes,
    system_flags, BrokerLookup, BrokerStep, Dispatch, SendMessageRequestHeader, Transmission,
};
use crate::types::{CommunicationMode, MessageQueue};

verus! {

/// What a transmission meets with, in the order in which it is needed.
pub struct TransmissionInputs {
    /// The name and the address of the queue's broker.
    pub broker_name: String,
    pub broker_addr: Option<String>,
    /// The same, along a fresh route.
    pub broker_name_again: String,
    pub broker_addr_again: Option<String>,
    /// The address of the channel.
    pub channel_addr: String,
    /// The message with a number that tells it from all others.
    pub identified: Message,
    /// What the compression of its body gives.
    pub compressed: Option<Vec<u8>>,
    /// The time in milliseconds.
    pub now: u64,
    /// Its topic without the namespace.
    pub stripped_topic: String,
    /// The milliseconds that the transmission takes until it is handed on.
    pub cost_time: u64,
    /// What the transport gives.
    pub reply: SendOutcome,
}

impl TransmissionInputs {
    /// The broker is not found, nor along a fresh route.
    pub open spec fn no_broker(&self) -> bool {
        self.broker_addr is None && self.broker_addr_again is None
    }

    /// The transmission, once its broker is found.
    pub open spec fn transmission(&self, lookup: BrokerLookup) -> Transmission {
        Transmission {
            mq: lookup.mq,
            communication_mode: lookup.communication_mode,
            timeout: lookup.timeout,
            broker_name: if self.broker_addr is Some {
                self.broker_name
            } else {
                self.broker_name_again
            },
            broker_addr: self.channel_addr,
        }
    }

    /// The message once it has its number.
    pub open spec fn numbered(&self, msg: Message) -> Message {
        if msg.kind == MessageKind::Batch {
            msg
        } else {
            self.identified
        }
    }
}

/// A request as it is handed to the transport.
pub struct Request {
    pub header: SendMessageRequestHeader,
    pub dispatch: Dispatch,
}

impl<S: SendMessageHook, C: CheckForbiddenHook> DefaultMQProducerImpl<S, C> {
    /// The message once it is handed on: without its counts, and for a callback
    /// without its namespace.
    pub open spec fn handed_on_message(
        &self,
        mode: CommunicationMode,
        leaving: MessageView,
        stripped_topic: Seq<char>,
    ) -> MessageView {
        let behind = message_behind_header(self.constants, leaving);
        if mode == CommunicationMode::Async && self.client_config.namespace is Some {
            MessageView { topic: stripped_topic, ..behind }
        } else {
            behind
        }
    }

    /// `request` is the one for this transmission. The properties that travel are
    /// what `encode` makes of those, and of the mark, of the message as it leaves.
    pub open spec fn is_request_of<E: Fn(&Properties, &Option<String>) -> String>(
        &self,
        request: Request,
        transmission: Transmission,
        inputs: TransmissionInputs,
        encode: E,
        numbered: MessageView,
    ) -> bool {
        let compressed = optional_bytes(inputs.compressed);
        let leaving = self.leaving_message(numbered, compressed);
        &&& self.is_header_of(
            request.header,
            transmission,
            system_flags(
                self.constants,
                *self.producer_config,
                compression_due(*self.producer_config, numbered) && compressed is Some,
                is_transaction_half(self.constants, numbered),
            ),
            numbered.kind == MessageKind::Batch,
            leaving,
        )
        &&& request.header.properties is Some
        &&& exists|properties: Properties, instance_id: Option<String>|
            (#[trigger] properties@) == leaving.properties && (#[trigger] optional_text(
                instance_id,
            )) == leaving.instance_id && call_ensures(
                encode,
                (&properties, &instance_id),
                request.header.properties->0,
            )
        &&& request.header.born_timestamp == inputs.now as i64
        &&& request.dispatch == self.dispatch_of(transmission, inputs.cost_time)
    }

    /// The send hooks, if there are any, were told of the transmission before it was
    /// to be made.
    pub open spec fn told_ahead(&self, transmission: Transmission, leaving: MessageView) -> bool {
        self.send_message_hook_list@.len() > 0 ==> exists|context: SendMessageContext|
            {
                &&& #[trigger] self.shows_to_send_hook(context, transmission, leaving)
                &&& told_before(self.send_message_hook_list@, Some(context))
            }
    }

    /// The send hooks, if there are any, were told of the transmission before it was
    /// made, and afterwards of what came of it.
    pub open spec fn told_of(
        &self,
        transmission: Transmission,
        leaving: MessageView,
        reply: SendOutcome,
    ) -> bool {
        self.send_message_hook_list@.len() > 0 ==> exists|context: SendMessageContext|
            {
                &&& #[trigger] self.shows_to_send_hook(context, transmission, leaving)
                &&& told_before(self.send_message_hook_list@, Some(context))
                &&& told_after(
                    self.send_message_hook_list@,
                    match reply {
                        Ok(answer) => Some(
                            SendMessageContext { send_result: answer, ..context },
                        ),
                        Err(_) => Some(context),
                    },
                )
            }
    }

    /// Plays a transmission through, step by step, against what it is to meet with.
    /// It comes to nothing if there is no broker, if a hook forbids it, or if its
    /// time is up before it is handed on; otherwise what the transport gives is its
    /// outcome. `encode` brings properties, and the mark of a namespace, into the form
    /// in which they travel.
    pub fn rehearse_transmission<E: Fn(&Properties, &Option<String>) -> String>(
        &self,
        mq: &MessageQueue,
        communication_mode: CommunicationMode,
        timeout: u64,
        msg: &mut Message,
        inputs: TransmissionInputs,
        encode: E,
    ) -> (end: (SendOutcome, Option<Request>))
        requires
            forall|properties: &Properties, instance_id: &Option<String>|
                #[trigger] call_requires(encode, (properties, instance_id)),
            !inputs.no_broker() && compression_due(
                *self.producer_config,
                inputs.numbered(*old(msg))@,
            ) ==> self.producer_config.has_compressor,
            !inputs.no_broker() && communication_mode == CommunicationMode::Async
                ==> inputs.cost_time <= timeout,
        ensures
            inputs.no_broker() ==> {
                &&& end.0 matches Err(e)
                &&& is_client_exception(e, UNCODED, no_broker_text(inputs.broker_name_again@))
                &&& end.1 is None
                &&& *final(msg) == *old(msg)
            },
            !inputs.no_broker() ==> {
                let transmission = inputs.transmission(
                    BrokerLookup { mq: *mq, communication_mode, timeout, refreshed: false },
                );
                let numbered = inputs.numbered(*old(msg))@;
                let leaving = self.leaving_message(numbered, optional_bytes(inputs.compressed));
                exists|
                    shown: Message,
                    context: CheckForbiddenContext<'_>,
                    verdicts: Seq<Result<(), MQClientError>>,
                    answer: Result<(), MQClientError>,
                |
                    #![trigger common_answer(verdicts, self.check_forbidden_hook_list@.len(), answer), self.shows_to_forbidding_hook(context, transmission, shown)]
                    {
                        &&& shown@ == leaving
                        &&& self.shows_to_forbidding_hook(context, transmission, shown)
                        &&& answered(self.check_forbidden_hook_list@, context, verdicts)
                        &&& common_answer(verdicts, self.check_forbidden_hook_list@.len(), answer)
                        &&& match answer {
                            Err(e) => {
                                &&& end.0 == SendOutcome::Err(e)
                                &&& end.1 is None
                                &&& final(msg)@ == leaving
                            },
                            Ok(_) => {
                                &&& final(msg)@ == self.handed_on_message(
                                    communication_mode,
                                    leaving,
                                    inputs.stripped_topic@,
                                )
                                &&& if timeout < inputs.cost_time {
                                    &&& end.0 matches Err(e)
                                    &&& is_too_much_request(e, "sendKernelImpl call timeout"@)
                                    &&& end.1 is None
                                    &&& self.told_ahead(transmission, leaving)
                                } else {
                                    &&& end.0 == inputs.reply
                                    &&& end.1 is Some
                                    &&& self.is_request_of(
                                        end.1->0,
                                        transmission,
                                        inputs,
                                        encode,
                                        numbered,
                                    )
                                    &&& self.told_of(transmission, leaving, inputs.reply)
                                }
                            },
                        }
                    }
            },
    {
        let lookup = self.send_kernel_impl(mq, communication_mode, timeout);
        let mut step = self.broker_looked_up(lookup, inputs.broker_name, inputs.broker_addr);
        if let BrokerStep::RefreshRoute(again) = step {
            step = self.broker_looked_up(
                again,
                inputs.broker_name_again,
                inputs.broker_addr_again,
            );
        }
        let transmission = match step {
            BrokerStep::NotExist(e) => {
                return (Err(e), None);
            },
            BrokerStep::Found { transmission, vip_channel_enabled: _ } => transmission,
            BrokerStep::RefreshRoute(_) => {
                // The route is looked up afresh only once.
                assert(false);
                return (Ok(None), None);
            },
        };
        let transmission = self.channel_chosen(transmission, inputs.channel_addr);
        if self.needs_uniq_id(msg) {
            *msg = inputs.identified;
        }
        let compressed = match self.compression_job(msg) {
            Some(_) => inputs.compressed,
            None => None,
        };
        let prepared = match self.prepare(transmission, msg, compressed) {
            Err(e) => {
                return (Err(e), None);
            },
            Ok(prepared) => prepared,
        };
        let (properties, instance_id) = self.properties_to_encode(&prepared, msg);
        let properties = encode(properties, instance_id);
        let header = self.request_header(&prepared, msg, properties, inputs.now);
        if self.namespace_to_strip(&prepared, msg).is_some() {
            msg.topic = inputs.stripped_topic;
        }
        let dispatch = match self.dispatch(&prepared, inputs.cost_time) {
            Err(e) => {
                return (Err(e), None);
            },
            Ok(dispatch) => dispatch,
        };
        let outcome = self.transmitted(prepared.context, inputs.reply);
        (outcome, Some(Request { header, dispatch }))
    }
}

impl<S: SendMessageHook, C: CheckForbiddenHook> DefaultMQProducerImpl<S, C> {
    /// The request of a transmission carries the message that was numbered: its flags
    /// tell how the body travels and whether it is half a transaction, its properties
    /// are the encoded ones of that message with the mark of the namespace, it is a
    /// batch exactly if the message is, and it is handed on with the time left.
    pub proof fn law_request_carries_the_message<E: Fn(&Properties, &Option<String>) -> String>(
        &self,
        request: Request,
        transmission: Transmission,
        inputs: TransmissionInputs,
        encode: E,
        numbered: MessageView,
    )
        requires
            self.is_request_of(request, transmission, inputs, encode, numbered),
        ensures
            ({
                let long = numbered.kind == MessageKind::Single && numbered.compressed_body is Some
                    && numbered.compressed_body->0.len()
                    >= self.producer_config.compress_msg_body_over_howmuch && inputs.compressed
                    is Some;
                let half = numbered.properties.contains_key(
                    self.constants.property_transaction_prepared@,
                ) && numbered.properties[self.constants.property_transaction_prepared@] == "true"@;
                let kinds: i32 = self.constants.compressed_flag
                    | self.producer_config.compression_flag;
                let mark = self.constants.transaction_prepared_type;
                &&& long && half ==> request.header.sys_flag == kinds | mark
                &&& long && !half ==> request.header.sys_flag == kinds
                &&& !long && half ==> request.header.sys_flag == mark
                &&& !long && !half ==> request.header.sys_flag == 0
            }),
            request.header.producer_group@ == self.producer_config.producer_group@,
            request.header.topic@ == numbered.topic,
            request.header.default_topic@ == self.producer_config.create_topic_key@,
            request.header.default_topic_queue_nums
                == self.producer_config.default_topic_queue_nums as i32,
            request.header.queue_id == Some(transmission.mq.queue_id),
            request.header.flag == numbered.flag,
            request.header.unit_mode == Some(self.client_config.unit_mode),
            request.header.batch == Some(numbered.kind == MessageKind::Batch),
            request.header.broker_name is Some && request.header.broker_name->0@
                == transmission.broker_name@,
            request.header.born_timestamp == inputs.now as i64,
            request.header.properties is Some,
            exists|properties: Properties, instance_id: Option<String>|
                {
                    &&& #[trigger] call_ensures(
                        encode,
                        (&properties, &instance_id),
                        request.header.properties->0,
                    )
                    &&& properties@ == numbered.properties
                    &&& match (instance_id, self.client_config.namespace) {
                        (Some(id), Some(namespace)) => id@ == namespace@,
                        (Some(id), None) => numbered.instance_id == Some(id@),
                        (None, None) => numbered.instance_id is None,
                        (None, Some(_)) => false,
                    }
                },
            inputs.cost_time <= transmission.timeout ==> match request.dispatch {
                Dispatch::Simple { timeout } => transmission.communication_mode
                    != CommunicationMode::Async && timeout + inputs.cost_time
                    == transmission.timeout,
                Dispatch::WithCallback { timeout, retry_times } => transmission.communication_mode
                    == CommunicationMode::Async && timeout + inputs.cost_time
                    == transmission.timeout && retry_times
                    == self.producer_config.retry_times_when_send_async_failed,
            },
    {
        let mark = self.constants.transaction_prepared_type;
        assert(0i32 | mark == mark) by (bit_vector);
        let leaving = self.leaving_message(numbered, optional_bytes(inputs.compressed));
        let (properties, instance_id) = choose|
            properties: Properties,
            instance_id: Option<String>,
        |
            (#[trigger] properties@) == leaving.properties && (#[trigger] optional_text(
                instance_id,
            )) == leaving.instance_id && call_ensures(
                encode,
                (&properties, &instance_id),
                request.header.properties->0,
            );
        assert(call_ensures(
            encode,
            (&properties, &instance_id),
            request.header.properties->0,
        ));
    }

    /// Where there are send hooks, each of them was told of the transmission before it
    /// was to be made, and of the same one with its answer, if it got one, afterwards.
    pub proof fn law_send_hooks_hear_of_the_transmission(
        &self,
        transmission: Transmission,
        leaving: MessageView,
        reply: SendOutcome,
    )
        requires
            self.send_message_hook_list@.len() > 0,
        ensures
            self.told_ahead(transmission, leaving) ==> exists|context: SendMessageContext|
                {
                    &&& #[trigger] self.shows_to_send_hook(context, transmission, leaving)
                    &&& forall|i: int|
                        0 <= i < self.send_message_hook_list@.len() ==> call_ensures(
                            S::send_message_before,
                            (&#[trigger] self.send_message_hook_list@[i], &Some(context)),
                            (),
                        )
                },
            self.told_of(transmission, leaving, reply) ==> exists|
                context: SendMessageContext,
                last: SendMessageContext,
            |
                {
                    &&& #[trigger] self.shows_to_send_hook(context, transmission, leaving)
                    &&& last == (SendMessageContext {
                        send_result: #[trigger] last.send_result,
                        ..context
                    })
                    &&& last.send_result == match reply {
                        Ok(answer) => answer,
                        Err(_) => None,
                    }
                    &&& forall|i: int|
                        0 <= i < self.send_message_hook_list@.len() ==> call_ensures(
                            S::send_message_before,
                            (&#[trigger] self.send_message_hook_list@[i], &Some(context)),
                            (),
                        ) && call_ensures(
                            S::send_message_after,
                            (&self.send_message_hook_list@[i], &Some(last)),
                            (),
                        )
                },
    {
        if self.told_of(transmission, leaving, reply) {
            let context = choose|context: SendMessageContext|
                {
                    &&& #[trigger] self.shows_to_send_hook(context, transmission, leaving)
                    &&& told_before(self.send_message_hook_list@, Some(context))
                    &&& told_after(
                        self.send_message_hook_list@,
                        match reply {
                            Ok(answer) => Some(
                                SendMessageContext { send_result: answer, ..context },
                            ),
                            Err(_) => Some(context),
                        },
                    )
                };
            let last = match reply {
                Ok(answer) => SendMessageContext { send_result: answer, ..context },
                Err(_) => context,
            };
            assert(self.shows_to_send_hook(context, transmission, leaving));
            assert(last == (SendMessageContext { send_result: last.send_result, ..context }));
        }
    }
}

/// A transmission goes to the queue it was asked for, over the channel that was chosen,
/// to the broker that was found, the first time or along the fresh route; it comes to
/// nothing if none was found either time. A batch keeps its numbers, every other
/// message gets one.
pub proof fn law_transmission_is_the_one_asked_for(
    inputs: TransmissionInputs,
    lookup: BrokerLookup,
    msg: Message,
)
    ensures
        inputs.transmission(lookup).mq == lookup.mq,
        inputs.transmission(lookup).communication_mode == lookup.communication_mode,
        inputs.transmission(lookup).timeout == lookup.timeout,
        inputs.transmission(lookup).broker_addr == inputs.channel_addr,
        inputs.broker_addr is Some ==> inputs.transmission(lookup).broker_name
            == inputs.broker_name,
        inputs.broker_addr is None ==> inputs.transmission(lookup).broker_name
            == inputs.broker_name_again,
        inputs.no_broker() <==> inputs.broker_addr is None && inputs.broker_addr_again is None,
        msg.kind == MessageKind::Batch ==> inputs.numbered(msg) == msg,
        msg.kind != MessageKind::Batch ==> inputs.numbered(msg) == inputs.identified,
{
}

impl<S: SendMessageHook, C: CheckForbiddenHook> DefaultMQProducerImpl<S, C> {
    /// A message that is handed on loses its namespace exactly if it goes to a callback
    /// and there is a namespace. But for that, and for the counts of a retry, it is as
    /// it left.
    pub proof fn law_handed_on_message_is_the_one_that_left(
        &self,
        mode: CommunicationMode,
        leaving: MessageView,
        stripped_topic: Seq<char>,
        i: int,
    )
        ensures
            ({
                let behind = self.handed_on_message(mode, leaving, stripped_topic);
                let stripped = mode == CommunicationMode::Async && self.client_config.namespace
                    is Some;
                let prefix = self.constants.retry_group_topic_prefix@;
                &&& stripped ==> behind.topic == stripped_topic
                &&& !stripped ==> behind.topic == leaving.topic
                &&& behind == (MessageView {
                    topic: behind.topic,
                    properties: behind.properties,
                    ..leaving
                })
                &&& leaving.topic == prefix + leaving.topic.skip(prefix.len() as int)
                    ==> behind.properties == leaving.properties.remove(
                    self.constants.property_reconsume_time@,
                ).remove(self.constants.property_max_reconsume_times@)
                &&& leaving.topic.len() < prefix.len() || (0 <= i < prefix.len() && leaving.topic[i]
                    != prefix[i]) ==> behind.properties == leaving.properties
            }),
    {
        let prefix = self.constants.retry_group_topic_prefix@;
        if leaving.topic == prefix + leaving.topic.skip(prefix.len() as int) {
            assert(leaving.topic.len() >= prefix.len());
            assert(leaving.topic.take(prefix.len() as int) =~= prefix);
        }
        if leaving.topic.len() >= prefix.len() && 0 <= i < prefix.len() {
            assert(leaving.topic.take(prefix.len() as int)[i] == leaving.topic[i]);
        }
    }
}

impl<S, C> DefaultMQProducerImpl<S, C> {
    /// Time adds up: what a send took before an attempt, what the attempt took until
    /// it was handed on, and what the transport is given make up the send's timeout.
    pub proof fn law_time_adds_up(
        &self,
        attempts: SendAttempts,
        cost_before: u64,
        step: SendStep,
        transmission: Transmission,
        cost_time: u64,
    )
        requires
            is_timed_step(attempts, cost_before, step),
            step is Transmit,
            transmission.timeout == step->Transmit_timeout,
            cost_time <= transmission.timeout,
        ensures
            cost_before + cost_time + match self.dispatch_of(transmission, cost_time) {
                Dispatch::Simple { timeout } => timeout,
                Dispatch::WithCallback { timeout, .. } => timeout,
            } == attempts.task.timeout,
    {
    }
}

} // verus!
