//! One transmission of a message to a queue: finding the broker, preparing the
//! message, asking and telling the hooks, writing the request's header.

use tokio_util::bytes::Bytes;
use vstd::prelude::*;
use vstd::string::*;

use crate::config::{ProducerConfig, ProtocolConstants};
use crate::error::{is_client_exception, is_too_much_request, MQClientError, UNCODED};
use crate::hook::{
    answered, common_answer, told_after, told_before, CheckForbiddenContext, CheckForbiddenHook,
    MessageType, SendMessageContext, SendMessageHook,
};
use crate::message::{optional_text, Message, MessageKind, MessageView, Properties};
use crate::outside::{bytes_content, bytes_from_vec};
use crate::producer::DefaultMQProducerImpl;
use crate::send_default::SendOutcome;
use crate::text::{
    decimal, denoted_i32, has_prefix, law_written_number_reads_back, parse_i32, starts_with,
};
use crate::types::{CommunicationMode, MessageQueue};

verus! {

broadcast use vstd::string::group_string_axioms;

/// A transmission whose broker is being looked for.
pub struct BrokerLookup {
    pub mq: MessageQueue,
    pub communication_mode: CommunicationMode,
    /// The milliseconds that the transmission may take.
    pub timeout: u64,
    /// The topic's route was looked up again already.
    pub refreshed: bool,
}

/// How a transmission goes on once its broker was looked for.
pub enum BrokerStep {
    /// The broker has an address. The channel to it may be the one for important
    /// traffic, if that is enabled.
    Found { transmission: Transmission, vip_channel_enabled: bool },
    /// The route of the queue's topic is to be looked up again, and then the
    /// broker.
    RefreshRoute(BrokerLookup),
    /// There is no such broker.
    NotExist(MQClientError),
}

/// A transmission to a known broker.
pub struct Transmission {
    pub mq: MessageQueue,
    pub communication_mode: CommunicationMode,
    pub timeout: u64,
    pub broker_name: String,
    pub broker_addr: String,
}

/// A body to be compressed, and how hard to try.
pub struct CompressionJob {
    pub body: Bytes,
    pub level: i32,
}

/// A transmission that no hook has forbidden.
pub struct PreparedSend {
    pub transmission: Transmission,
    pub sys_flag: i32,
    pub batch: bool,
    pub topic_with_namespace: bool,
    /// What the send hooks were shown, if there are any.
    pub context: Option<SendMessageContext>,
}

/// The header of a request to store a message.
pub struct SendMessageRequestHeader {
    pub producer_group: String,
    pub topic: String,
    pub default_topic: String,
    pub default_topic_queue_nums: i32,
    pub queue_id: Option<i32>,
    pub sys_flag: i32,
    pub born_timestamp: i64,
    pub flag: i32,
    pub properties: Option<String>,
    pub reconsume_times: Option<i32>,
    pub unit_mode: Option<bool>,
    pub batch: Option<bool>,
    pub max_reconsume_times: Option<i32>,
    pub broker_name: Option<String>,
}

/// How a request is to be handed to the transport.
#[derive(Clone, Copy, PartialEq, Eq, Structural, Debug)]
pub enum Dispatch {
    /// In one go.
    Simple { timeout: u64 },
    /// With a callback, and so many repetitions by the transport itself.
    WithCallback { timeout: u64, retry_times: u32 },
}

// ---------------------------------------------------------------------------
// The rules
// ---------------------------------------------------------------------------

/// The text of a transmission to a broker that no one knows.
pub open spec fn no_broker_text(broker_name: Seq<char>) -> Seq<char> {
    "The broker["@ + broker_name + "] not exist"@
}

/// A body is worth compressing: that of a single message, if it is long enough.
pub open spec fn compression_due(config: ProducerConfig, msg: MessageView) -> bool {
    msg.kind == MessageKind::Single && msg.compressed_body is Some && msg.compressed_body->0.len()
        >= config.compress_msg_body_over_howmuch
}

/// A message after an attempt to compress it, which gave `compressed` or nothing.
pub open spec fn compressed_message(
    config: ProducerConfig,
    msg: MessageView,
    compressed: Option<Seq<u8>>,
) -> MessageView {
    if compression_due(config, msg) && compressed is Some {
        MessageView { compressed_body: compressed, ..msg }
    } else {
        msg
    }
}

/// What an optional run of bytes holds.
pub open spec fn optional_bytes(bytes: Option<Vec<u8>>) -> Option<Seq<u8>> {
    match bytes {
        Some(b) => Some(b@),
        None => None,
    }
}

/// A message that is marked as sent from a namespace, if there is one.
pub open spec fn marked_message(msg: MessageView, namespace: Option<Seq<char>>) -> MessageView {
    if namespace is Some {
        MessageView { instance_id: namespace, ..msg }
    } else {
        msg
    }
}

/// The message is the first half of a transaction.
pub open spec fn is_transaction_half(constants: ProtocolConstants, msg: MessageView) -> bool {
    msg.properties.contains_key(constants.property_transaction_prepared@)
        && msg.properties[constants.property_transaction_prepared@] == "true"@
}

/// The message is to be delivered later.
pub open spec fn is_delayed(constants: ProtocolConstants, msg: MessageView) -> bool {
    msg.properties.contains_key(constants.property_startde_liver_time@)
        || msg.properties.contains_key(constants.property_delay_time_level@)
}

/// The system flags of a request.
pub open spec fn system_flags(
    constants: ProtocolConstants,
    config: ProducerConfig,
    compressed: bool,
    transaction_half: bool,
) -> i32 {
    let body_flags: i32 = if compressed {
        constants.compressed_flag | config.compression_flag
    } else {
        0
    };
    if transaction_half {
        body_flags | constants.transaction_prepared_type
    } else {
        body_flags
    }
}

/// What send hooks are told of the kind of a message: that it is delayed weighs
/// more than that it is half a transaction.
pub open spec fn hook_message_type(
    constants: ProtocolConstants,
    msg: MessageView,
) -> Option<MessageType> {
    if is_delayed(constants, msg) {
        Some(MessageType::DelayMsg)
    } else if is_transaction_half(constants, msg) {
        Some(MessageType::TransMsgHalf)
    } else {
        None
    }
}

/// The message goes back to a consumer group that failed to handle it.
pub open spec fn is_retry(constants: ProtocolConstants, msg: MessageView) -> bool {
    has_prefix(msg.topic, constants.retry_group_topic_prefix@)
}

/// The count kept under a name: zero if it is kept but cannot be read.
pub open spec fn kept_count(
    properties: Map<Seq<char>, Seq<char>>,
    name: Seq<char>,
) -> Option<i32> {
    if properties.contains_key(name) {
        match denoted_i32(properties[name]) {
            Some(n) => Some(n),
            None => Some(0),
        }
    } else {
        None
    }
}

/// A message once its request's header is written: that of a retry has handed over
/// its counts.
pub open spec fn message_behind_header(
    constants: ProtocolConstants,
    msg: MessageView,
) -> MessageView {
    if is_retry(constants, msg) {
        MessageView {
            properties: msg.properties.remove(constants.property_reconsume_time@).remove(
                constants.property_max_reconsume_times@,
            ),
            ..msg
        }
    } else {
        msg
    }
}

/// How often a message was handled in vain, as its request's header says.
pub open spec fn header_reconsume_times(
    constants: ProtocolConstants,
    msg: MessageView,
) -> Option<i32> {
    let kept = kept_count(msg.properties, constants.property_reconsume_time@);
    if is_retry(constants, msg) && kept is Some {
        kept
    } else {
        Some(0)
    }
}

/// How often a message may be handled in vain, as its request's header says.
pub open spec fn header_max_reconsume_times(
    constants: ProtocolConstants,
    msg: MessageView,
) -> Option<i32> {
    if is_retry(constants, msg) {
        kept_count(
            msg.properties.remove(constants.property_reconsume_time@),
            constants.property_max_reconsume_times@,
        )
    } else {
        None
    }
}

/// What is handed over of a property that counts: the count, if it is kept.
fn read_count(msg: &Message, name: &String) -> (count: Option<i32>)
    ensures
        count == kept_count(msg.properties@, name@),
{
    match msg.properties.get(name) {
        Some(text) => match parse_i32(text.as_str()) {
            Some(n) => Some(n),
            None => Some(0),
        },
        None => None,
    }
}

impl<S, C> DefaultMQProducerImpl<S, C> {
    // -----------------------------------------------------------------------
    // The broker
    // -----------------------------------------------------------------------

    /// Begins a transmission to a queue.
    pub fn send_kernel_impl(
        &self,
        mq: &MessageQueue,
        communication_mode: CommunicationMode,
        timeout: u64,
    ) -> (lookup: BrokerLookup)
        ensures
            lookup == (BrokerLookup { mq: *mq, communication_mode, timeout, refreshed: false }),
    {
        BrokerLookup { mq: mq.duplicate(), communication_mode, timeout, refreshed: false }
    }

    /// Goes on once the queue's broker was looked for. A broker that is not found
    /// is looked for once more, along a fresh route.
    pub fn broker_looked_up(
        &self,
        lookup: BrokerLookup,
        broker_name: String,
        broker_addr: Option<String>,
    ) -> (step: BrokerStep)
        ensures
            match broker_addr {
                Some(broker_addr) => step == (BrokerStep::Found {
                    transmission: Transmission {
                        mq: lookup.mq,
                        communication_mode: lookup.communication_mode,
                        timeout: lookup.timeout,
                        broker_name,
                        broker_addr,
                    },
                    vip_channel_enabled: self.client_config.vip_channel_enabled,
                }),
                None => if lookup.refreshed {
                    &&& step matches BrokerStep::NotExist(e)
                    &&& is_client_exception(e, UNCODED, no_broker_text(broker_name@))
                } else {
                    step == BrokerStep::RefreshRoute(BrokerLookup { refreshed: true, ..lookup })
                },
            },
    {
        match broker_addr {
            Some(broker_addr) => BrokerStep::Found {
                transmission: Transmission {
                    mq: lookup.mq,
                    communication_mode: lookup.communication_mode,
                    timeout: lookup.timeout,
                    broker_name,
                    broker_addr,
                },
                vip_channel_enabled: self.client_config.vip_channel_enabled,
            },
            None => {
                if lookup.refreshed {
                    let mut text = "The broker[".to_string();
                    text.append(broker_name.as_str());
                    text.append("] not exist");
                    BrokerStep::NotExist(MQClientError::MQClientException(UNCODED, text))
                } else {
                    BrokerStep::RefreshRoute(BrokerLookup { refreshed: true, ..lookup })
                }
            },
        }
    }

    /// Fixes the address of the channel that the transmission takes.
    pub fn channel_chosen(&self, transmission: Transmission, broker_addr: String) -> (chosen:
        Transmission)
        ensures
            chosen == (Transmission { broker_addr, ..transmission }),
    {
        Transmission { broker_addr, ..transmission }
    }

    // -----------------------------------------------------------------------
    // The message
    // -----------------------------------------------------------------------

    /// Whether the message is to get a number that tells it from all others. The
    /// messages of a batch have theirs.
    pub fn needs_uniq_id(&self, msg: &Message) -> (yes: bool)
        ensures
            yes == (msg.kind != MessageKind::Batch),
    {
        msg.kind != MessageKind::Batch
    }

    /// Whether the message's body is worth compressing.
    pub fn is_compression_due(&self, msg: &Message) -> (yes: bool)
        ensures
            yes == compression_due(*self.producer_config, msg@),
    {
        if msg.kind != MessageKind::Single {
            return false;
        }
        match &msg.compressed_body {
            Some(body) => body.len()
                >= self.producer_config.compress_msg_body_over_howmuch as usize,
            None => false,
        }
    }

    /// What is to be compressed before the message leaves, if anything.
    pub fn compression_job(&self, msg: &Message) -> (job: Option<CompressionJob>)
        requires
            compression_due(*self.producer_config, msg@) ==> self.producer_config.has_compressor,
        ensures
            job is Some <==> compression_due(*self.producer_config, msg@),
            job matches Some(j) ==> bytes_content(j.body) == msg@.compressed_body->0 && j.level
                == self.producer_config.compress_level,
    {
        if !self.is_compression_due(msg) {
            return None;
        }
        match &msg.compressed_body {
            Some(body) => Some(
                CompressionJob {
                    body: body.clone(),
                    level: self.producer_config.compress_level,
                },
            ),
            None => None,
        }
    }

    /// Puts the compressed body in place of the message's own, if compression is
    /// due and gave something; says whether it did.
    pub fn try_to_compress_message(&self, msg: &mut Message, compressed: Option<Vec<u8>>) -> (done:
        bool)
        ensures
            done == (compression_due(*self.producer_config, old(msg)@) && compressed is Some),
            final(msg)@ == compressed_message(
                *self.producer_config,
                old(msg)@,
                optional_bytes(compressed),
            ),
    {
        if self.is_compression_due(msg) {
            if let Some(data) = compressed {
                msg.compressed_body = Some(bytes_from_vec(data));
                return true;
            }
        }
        false
    }

    // -----------------------------------------------------------------------
    // The hooks
    // -----------------------------------------------------------------------

    /// `context` shows a forbidding hook this transmission of `msg`.
    pub open spec fn shows_to_forbidding_hook(
        &self,
        context: CheckForbiddenContext<'_>,
        transmission: Transmission,
        msg: Message,
    ) -> bool {
        &&& optional_text(context.name_srv_addr) == optional_text(self.client_config.namesrv_addr)
        &&& optional_text(context.group) == Some(self.producer_config.producer_group@)
        &&& context.communication_mode == Some(transmission.communication_mode)
        &&& optional_text(context.broker_addr) == Some(transmission.broker_addr@)
        &&& context.message is Some && *context.message->0 == msg
        &&& context.mq is Some && *context.mq->0 == transmission.mq
        &&& context.unit_mode == self.client_config.unit_mode
    }

    /// `context` shows a send hook this transmission of `msg`, before it is made.
    pub open spec fn shows_to_send_hook(
        &self,
        context: SendMessageContext,
        transmission: Transmission,
        msg: MessageView,
    ) -> bool {
        &&& context.producer == Some(self.producer_id)
        &&& optional_text(context.producer_group) == Some(self.producer_config.producer_group@)
        &&& context.communication_mode == Some(transmission.communication_mode)
        &&& optional_text(context.born_host) == optional_text(self.client_config.client_ip)
        &&& optional_text(context.broker_addr) == Some(transmission.broker_addr@)
        &&& context.message is Some && context.message->0@ == msg
        &&& context.mq == Some(transmission.mq)
        &&& optional_text(context.namespace) == optional_text(self.client_config.namespace)
        &&& context.msg_type == hook_message_type(self.constants, msg)
        &&& context.send_result is None
    }

    /// The message as it leaves, given what its compression gave.
    pub open spec fn leaving_message(
        &self,
        msg: MessageView,
        compressed: Option<Seq<u8>>,
    ) -> MessageView {
        compressed_message(
            *self.producer_config,
            marked_message(msg, optional_text(self.client_config.namespace)),
            compressed,
        )
    }

    /// Whether a property of the message says `true`.
    fn says_true(&self, msg: &Message, name: &String) -> (yes: bool)
        ensures
            yes == (msg.properties@.contains_key(name@) && msg.properties@[name@] == "true"@),
    {
        match msg.properties.get(name) {
            Some(text) => text == "true".to_string(),
            None => false,
        }
    }

    fn send_message_context(&self, transmission: &Transmission, msg: &Message) -> (context:
        SendMessageContext)
        ensures
            self.shows_to_send_hook(context, *transmission, msg@),
    {
        let mut msg_type: Option<MessageType> = None;
        if self.says_true(msg, &self.constants.property_transaction_prepared) {
            msg_type = Some(MessageType::TransMsgHalf);
        }
        if msg.properties.get(&self.constants.property_startde_liver_time).is_some()
            || msg.properties.get(&self.constants.property_delay_time_level).is_some() {
            msg_type = Some(MessageType::DelayMsg);
        }
        SendMessageContext {
            producer: Some(self.producer_id),
            producer_group: Some(self.producer_config.producer_group.clone()),
            communication_mode: Some(transmission.communication_mode),
            born_host: self.client_config.client_ip.clone(),
            broker_addr: Some(transmission.broker_addr.clone()),
            message: Some(msg.duplicate()),
            mq: Some(transmission.mq.duplicate()),
            namespace: self.client_config.namespace.clone(),
            msg_type,
            send_result: None,
        }
    }
}

impl<S, C: CheckForbiddenHook> DefaultMQProducerImpl<S, C> {
    fn ask_forbidding_hooks(&self, transmission: &Transmission, msg: &Message) -> (answer: Result<
        (),
        MQClientError,
    >)
        ensures
            exists|context: CheckForbiddenContext<'_>, verdicts: Seq<Result<(), MQClientError>>|
                #![trigger answered(self.check_forbidden_hook_list@, context, verdicts)]
                self.shows_to_forbidding_hook(context, *transmission, *msg) && answered(
                    self.check_forbidden_hook_list@,
                    context,
                    verdicts,
                ) && common_answer(verdicts, self.check_forbidden_hook_list@.len(), answer),
    {
        let context = CheckForbiddenContext {
            name_srv_addr: self.client_config.namesrv_addr.clone(),
            group: Some(self.producer_config.producer_group.clone()),
            communication_mode: Some(transmission.communication_mode),
            broker_addr: Some(transmission.broker_addr.clone()),
            message: Some(msg),
            mq: Some(&transmission.mq),
            unit_mode: self.is_unit_mode(),
        };
        self.execute_check_forbidden_hook(&context)
    }
}

impl<S: SendMessageHook, C: CheckForbiddenHook> DefaultMQProducerImpl<S, C> {
    /// Prepares a message for its transmission: marks it with its namespace, puts
    /// the compressed body in place, asks the forbidding hooks and tells the send
    /// hooks, in this order. `compressed` is what its compression gave, if one was
    /// due. The contract does not say that the send hooks are told last.
    pub fn prepare(
        &self,
        transmission: Transmission,
        msg: &mut Message,
        compressed: Option<Vec<u8>>,
    ) -> (prepared: Result<PreparedSend, MQClientError>)
        ensures
            final(msg)@ == self.leaving_message(old(msg)@, optional_bytes(compressed)),
            exists|
                context: CheckForbiddenContext<'_>,
                verdicts: Seq<Result<(), MQClientError>>,
                answer: Result<(), MQClientError>,
            |
                #![trigger common_answer(verdicts, self.check_forbidden_hook_list@.len(), answer), answered(self.check_forbidden_hook_list@, context, verdicts)]
                {
                    &&& self.shows_to_forbidding_hook(context, transmission, *final(msg))
                    &&& answered(self.check_forbidden_hook_list@, context, verdicts)
                    &&& common_answer(verdicts, self.check_forbidden_hook_list@.len(), answer)
                    &&& match answer {
                        Ok(_) => prepared is Ok,
                        Err(e) => prepared == Result::<PreparedSend, MQClientError>::Err(e),
                    }
                },
            prepared matches Ok(p) ==> {
                &&& p.transmission == transmission
                &&& p.sys_flag == system_flags(
                    self.constants,
                    *self.producer_config,
                    compression_due(*self.producer_config, old(msg)@) && compressed is Some,
                    is_transaction_half(self.constants, old(msg)@),
                )
                &&& p.batch == (old(msg).kind == MessageKind::Batch)
                &&& p.topic_with_namespace == (self.client_config.namespace is Some)
                &&& if self.send_message_hook_list@.len() > 0 {
                    &&& p.context is Some
                    &&& self.shows_to_send_hook(p.context->0, transmission, final(msg)@)
                    &&& told_before(self.send_message_hook_list@, p.context)
                } else {
                    p.context is None
                }
            },
    {
        let batch: bool = msg.kind == MessageKind::Batch;
        let mut topic_with_namespace: bool = false;
        if let Some(namespace) = &self.client_config.namespace {
            msg.instance_id = Some(namespace.clone());
            topic_with_namespace = true;
        }
        let ghost marked = msg@;
        let mut sys_flag: i32 = 0;
        if self.try_to_compress_message(msg, compressed) {
            sys_flag = self.constants.compressed_flag | self.producer_config.compression_flag;
        }
        if self.says_true(msg, &self.constants.property_transaction_prepared) {
            sys_flag = sys_flag | self.constants.transaction_prepared_type;
        }
        match self.ask_forbidding_hooks(&transmission, msg) {
            Err(e) => Err(e),
            Ok(_) => {
                let context = if self.has_send_message_hook() {
                    let context = Some(self.send_message_context(&transmission, msg));
                    self.execute_send_message_hook_before(&context);
                    context
                } else {
                    None
                };
                Ok(PreparedSend { transmission, sys_flag, batch, topic_with_namespace, context })
            },
        }
    }
}

impl<S, C> DefaultMQProducerImpl<S, C> {
    // -----------------------------------------------------------------------
    // The request
    // -----------------------------------------------------------------------

    /// What is to be brought into the form in which properties travel: those of the
    /// prepared message, before it hands anything over to the header, and the mark of
    /// its namespace, for a form that keeps it among them.
    pub fn properties_to_encode<'a>(&self, _prepared: &PreparedSend, msg: &'a Message) -> (job: (
        &'a Properties,
        &'a Option<String>,
    ))
        ensures
            job.0@ == msg.properties@,
            *job.1 == msg.instance_id,
    {
        (&msg.properties, &msg.instance_id)
    }

    /// `header` describes the transmission of `msg` under these flags, apart from
    /// the time and from the properties that travel.
    pub open spec fn is_header_of(
        &self,
        header: SendMessageRequestHeader,
        transmission: Transmission,
        sys_flag: i32,
        batch: bool,
        msg: MessageView,
    ) -> bool {
        &&& header.producer_group@ == self.producer_config.producer_group@
        &&& header.topic@ == msg.topic
        &&& header.default_topic@ == self.producer_config.create_topic_key@
        &&& header.default_topic_queue_nums == self.producer_config.default_topic_queue_nums as i32
        &&& header.queue_id == Some(transmission.mq.queue_id)
        &&& header.sys_flag == sys_flag
        &&& header.flag == msg.flag
        &&& header.reconsume_times == header_reconsume_times(self.constants, msg)
        &&& header.unit_mode == Some(self.client_config.unit_mode)
        &&& header.batch == Some(batch)
        &&& header.max_reconsume_times == header_max_reconsume_times(self.constants, msg)
        &&& optional_text(header.broker_name) == Some(transmission.broker_name@)
    }

    /// Writes the header of the request. `properties` is the form in which those of
    /// `properties_to_encode` travel, `now` is the time in milliseconds. A message
    /// that goes back to a consumer group hands its counts over to the header.
    pub fn request_header(
        &self,
        prepared: &PreparedSend,
        msg: &mut Message,
        properties: String,
        now: u64,
    ) -> (header: SendMessageRequestHeader)
        ensures
            final(msg)@ == message_behind_header(self.constants, old(msg)@),
            self.is_header_of(
                header,
                prepared.transmission,
                prepared.sys_flag,
                prepared.batch,
                old(msg)@,
            ),
            header.properties == Some(properties),
            header.born_timestamp == now as i64,
    {
        let mut header = SendMessageRequestHeader {
            producer_group: self.producer_config.producer_group.clone(),
            topic: msg.topic.clone(),
            default_topic: self.producer_config.create_topic_key.clone(),
            default_topic_queue_nums: self.producer_config.default_topic_queue_nums as i32,
            queue_id: Some(prepared.transmission.mq.queue_id),
            sys_flag: prepared.sys_flag,
            born_timestamp: now as i64,
            flag: msg.flag,
            properties: Some(properties),
            reconsume_times: Some(0),
            unit_mode: Some(self.is_unit_mode()),
            batch: Some(prepared.batch),
            max_reconsume_times: None,
            broker_name: Some(prepared.transmission.broker_name.clone()),
        };
        if starts_with(
            header.topic.as_str(),
            self.constants.retry_group_topic_prefix.as_str(),
        ) {
            let ghost kept = msg.properties@;
            let reconsume_times = read_count(msg, &self.constants.property_reconsume_time);
            if reconsume_times.is_some() {
                header.reconsume_times = reconsume_times;
                msg.properties.remove(&self.constants.property_reconsume_time);
            }
            assert(msg.properties@ =~= kept.remove(self.constants.property_reconsume_time@));
            let ghost kept = msg.properties@;
            let max_reconsume_times = read_count(
                msg,
                &self.constants.property_max_reconsume_times,
            );
            if max_reconsume_times.is_some() {
                header.max_reconsume_times = max_reconsume_times;
                msg.properties.remove(&self.constants.property_max_reconsume_times);
            }
            assert(msg.properties@ =~= kept.remove(self.constants.property_max_reconsume_times@));
        }
        header
    }

    /// What the namespace is to be taken out of before a message with a callback
    /// leaves: its topic, with the namespace itself.
    pub fn namespace_to_strip(&self, prepared: &PreparedSend, msg: &Message) -> (job: Option<
        (String, String),
    >)
        ensures
            job is Some <==> prepared.transmission.communication_mode == CommunicationMode::Async
                && prepared.topic_with_namespace,
            job matches Some(j) ==> j.0@ == msg.topic@ && j.1@ == match self.client_config.namespace {
                Some(n) => n@,
                None => Seq::<char>::empty(),
            },
    {
        if prepared.transmission.communication_mode == CommunicationMode::Async
            && prepared.topic_with_namespace {
            let namespace = match &self.client_config.namespace {
                Some(n) => n.clone(),
                None => String::new(),
            };
            return Some((msg.topic.clone(), namespace));
        }
        None
    }

    /// How a request is handed on, `cost_time` milliseconds after its transmission
    /// began: with the time that is left.
    pub open spec fn dispatch_of(&self, transmission: Transmission, cost_time: u64) -> Dispatch {
        if transmission.communication_mode == CommunicationMode::Async {
            Dispatch::WithCallback {
                timeout: (transmission.timeout - cost_time) as u64,
                retry_times: self.producer_config.retry_times_when_send_async_failed,
            }
        } else {
            Dispatch::Simple { timeout: (transmission.timeout - cost_time) as u64 }
        }
    }

    /// Hands the request on, `cost_time` milliseconds after the transmission began,
    /// with the time that is left. Without a callback it is an error if none is.
    pub fn dispatch(&self, prepared: &PreparedSend, cost_time: u64) -> (dispatch: Result<
        Dispatch,
        MQClientError,
    >)
        requires
            prepared.transmission.communication_mode == CommunicationMode::Async ==> cost_time
                <= prepared.transmission.timeout,
        ensures
            dispatch is Ok <==> cost_time <= prepared.transmission.timeout,
            dispatch matches Ok(d) ==> d == self.dispatch_of(prepared.transmission, cost_time),
            dispatch matches Err(e) ==> is_too_much_request(e, "sendKernelImpl call timeout"@),
    {
        let timeout: u64 = prepared.transmission.timeout;
        match prepared.transmission.communication_mode {
            CommunicationMode::Async => Ok(
                Dispatch::WithCallback {
                    timeout: timeout - cost_time,
                    retry_times: self.producer_config.retry_times_when_send_async_failed,
                },
            ),
            CommunicationMode::Oneway | CommunicationMode::Sync => {
                if timeout < cost_time {
                    return Err(
                        MQClientError::RemotingTooMuchRequestException(
                            "sendKernelImpl call timeout".to_string(),
                        ),
                    );
                }
                Ok(Dispatch::Simple { timeout: timeout - cost_time })
            },
        }
    }
}

impl<S: SendMessageHook, C> DefaultMQProducerImpl<S, C> {
    /// Ends a transmission: tells the send hooks what came of it, and returns it.
    pub fn transmitted(&self, context: Option<SendMessageContext>, reply: SendOutcome) -> (outcome:
        SendOutcome)
        requires
            self.send_message_hook_list@.len() > 0 && reply is Ok ==> context is Some,
        ensures
            outcome == reply,
            self.send_message_hook_list@.len() > 0 ==> told_after(
                self.send_message_hook_list@,
                match reply {
                    Ok(answer) => Some(
                        SendMessageContext { send_result: answer, ..context->0 },
                    ),
                    Err(_) => context,
                },
            ),
    {
        let mut context = context;
        if self.has_send_message_hook() {
            if let Ok(answer) = &reply {
                if let Some(shown) = context {
                    context = Some(SendMessageContext { send_result: *answer, ..shown });
                }
            }
            self.execute_send_message_hook_after(&context);
        }
        reply
    }
}

// ---------------------------------------------------------------------------
// Laws
// ---------------------------------------------------------------------------

impl<S, C> DefaultMQProducerImpl<S, C> {
    /// Preparing a message changes nothing of it but the mark of its namespace and
    /// the body that travels.
    pub proof fn law_preparing_keeps_the_message(
        &self,
        msg: MessageView,
        compressed: Option<Seq<u8>>,
    )
        ensures
            self.leaving_message(msg, compressed) == (MessageView {
                instance_id: self.leaving_message(msg, compressed).instance_id,
                compressed_body: self.leaving_message(msg, compressed).compressed_body,
                ..msg
            }),
            self.client_config.namespace matches Some(n) ==> self.leaving_message(
                msg,
                compressed,
            ).instance_id == Some(n@),
            self.client_config.namespace is None ==> self.leaving_message(
                msg,
                compressed,
            ).instance_id == msg.instance_id,
    {
    }

    /// A batch, a short body and no body at all travel as they are, whatever a
    /// compressor would make of them.
    pub proof fn law_small_messages_travel_as_they_are(
        &self,
        msg: MessageView,
        compressed: Option<Seq<u8>>,
    )
        requires
            msg.kind == MessageKind::Batch || msg.compressed_body is None
                || msg.compressed_body->0.len()
                < self.producer_config.compress_msg_body_over_howmuch,
        ensures
            self.leaving_message(msg, compressed).compressed_body == msg.compressed_body,
    {
    }
}

/// The flag of transactions tells them from other messages, compressed or not, as
/// long as the flags do not overlap.
pub proof fn law_transaction_flag_tells_transactions(
    constants: ProtocolConstants,
    config: ProducerConfig,
    compressed: bool,
    transaction_half: bool,
)
    requires
        constants.transaction_prepared_type != 0,
        (constants.compressed_flag | config.compression_flag) & constants.transaction_prepared_type
            == 0,
    ensures
        (system_flags(constants, config, compressed, transaction_half)
            & constants.transaction_prepared_type != 0) == transaction_half,
{
    let body_flags: i32 = if compressed {
        constants.compressed_flag | config.compression_flag
    } else {
        0
    };
    let mark = constants.transaction_prepared_type;
    assert(0i32 & mark == 0) by (bit_vector);
    assert(body_flags & mark == 0 && mark != 0 ==> (body_flags | mark) & mark != 0) by (bit_vector);
}

/// A retry hands its counts over: none is left among its properties, the other
/// properties stay, and there is nothing to hand over a second time. Messages that
/// are no retries keep all their properties.
pub proof fn law_retry_hands_its_counts_over(
    constants: ProtocolConstants,
    msg: MessageView,
    name: Seq<char>,
)
    ensures
        is_retry(constants, msg) ==> {
            let behind = message_behind_header(constants, msg).properties;
            &&& !behind.contains_key(constants.property_reconsume_time@)
            &&& !behind.contains_key(constants.property_max_reconsume_times@)
            &&& name != constants.property_reconsume_time@ && name
                != constants.property_max_reconsume_times@ ==> {
                &&& behind.contains_key(name) == msg.properties.contains_key(name)
                &&& behind.contains_key(name) ==> behind[name] == msg.properties[name]
            }
        },
        !is_retry(constants, msg) ==> message_behind_header(constants, msg) == msg,
        message_behind_header(constants, message_behind_header(constants, msg))
            == message_behind_header(constants, msg),
{
    assert(message_behind_header(
        constants,
        message_behind_header(constants, msg),
    ).properties =~= message_behind_header(constants, msg).properties);
}

/// The count that a retry carries as decimal text is the count in its request's
/// header.
pub proof fn law_retry_count_reaches_the_header(
    constants: ProtocolConstants,
    msg: MessageView,
    n: nat,
)
    requires
        n <= i32::MAX,
        is_retry(constants, msg),
    ensures
        msg.properties.contains_key(constants.property_reconsume_time@)
            && msg.properties[constants.property_reconsume_time@] == decimal(n)
            ==> header_reconsume_times(constants, msg) == Some(n as i32),
        msg.properties.contains_key(constants.property_max_reconsume_times@)
            && msg.properties[constants.property_max_reconsume_times@] == decimal(n)
            && constants.property_max_reconsume_times@ != constants.property_reconsume_time@
            ==> header_max_reconsume_times(constants, msg) == Some(n as i32),
{
    law_written_number_reads_back(n);
}

/// A single message whose travelling body is long enough is compressed, whatever else
/// it holds: what the compressor gave takes the body's place. Without anything from
/// the compressor, and for every other message, the body stays.
pub proof fn law_long_bodies_are_compressed<S, C>(
    producer: &DefaultMQProducerImpl<S, C>,
    msg: MessageView,
    compressed: Option<Seq<u8>>,
)
    ensures
        ({
            let long = msg.kind == MessageKind::Single && msg.compressed_body is Some
                && msg.compressed_body->0.len()
                >= producer.producer_config.compress_msg_body_over_howmuch;
            let leaving = producer.leaving_message(msg, compressed);
            &&& long && compressed is Some ==> leaving.compressed_body == compressed
            &&& !(long && compressed is Some) ==> leaving.compressed_body == msg.compressed_body
            &&& compression_due(*producer.producer_config, msg) == long
            &&& compressed_message(*producer.producer_config, msg, compressed) == (MessageView {
                compressed_body: leaving.compressed_body,
                ..msg
            })
        }),
{
}

/// What leaves is the message: its kind, topic, flag, properties and body are as they
/// were, and its mark is the namespace of the settings, if there is one.
pub proof fn law_what_leaves_is_the_message<S, C>(
    producer: &DefaultMQProducerImpl<S, C>,
    msg: MessageView,
    compressed: Option<Seq<u8>>,
)
    ensures
        ({
            let leaving = producer.leaving_message(msg, compressed);
            &&& leaving.kind == msg.kind
            &&& leaving.topic == msg.topic
            &&& leaving.flag == msg.flag
            &&& leaving.properties == msg.properties
            &&& leaving.body == msg.body
            &&& match producer.client_config.namespace {
                Some(namespace) => leaving.instance_id == Some(namespace@),
                None => leaving.instance_id == msg.instance_id,
            }
        }),
{
}

/// The flags of a compressed body hold every bit of the flag for compression and of
/// the one for the compression in use; those of another body hold none but that of
/// transactions. Half a transaction adds the bits of its flag and takes none away.
pub proof fn law_flags_tell_how_a_body_travels(
    constants: ProtocolConstants,
    config: ProducerConfig,
    transaction_half: bool,
)
    ensures
        ({
            let plain = system_flags(constants, config, false, transaction_half);
            let compressed = system_flags(constants, config, true, transaction_half);
            let kinds: i32 = constants.compressed_flag | config.compression_flag;
            &&& compressed & kinds == kinds
            &&& compressed & constants.compressed_flag == constants.compressed_flag
            &&& compressed & config.compression_flag == config.compression_flag
            &&& compressed == plain | kinds
            &&& !transaction_half ==> plain == 0 && compressed == kinds
            &&& transaction_half ==> plain == constants.transaction_prepared_type && compressed
                == kinds | constants.transaction_prepared_type
        }),
{
    let own = constants.compressed_flag;
    let kind = config.compression_flag;
    let mark = constants.transaction_prepared_type;
    assert((own | kind) & (own | kind) == own | kind) by (bit_vector);
    assert((own | kind) & own == own && (own | kind) & kind == kind) by (bit_vector);
    assert(((own | kind) | mark) & (own | kind) == own | kind) by (bit_vector);
    assert(((own | kind) | mark) & own == own) by (bit_vector);
    assert(((own | kind) | mark) & kind == kind) by (bit_vector);
    assert(0i32 | (own | kind) == own | kind && 0i32 | mark == mark) by (bit_vector);
    assert(mark | (own | kind) == (own | kind) | mark) by (bit_vector);
}

/// A message is half a transaction exactly if its property for that says `true`, and
/// to be delivered later exactly if it has either property for that. Send hooks are
/// told of the delay first.
pub proof fn law_properties_tell_the_kind_of_message(
    constants: ProtocolConstants,
    msg: MessageView,
)
    ensures
        ({
            let half = msg.properties.contains_key(constants.property_transaction_prepared@)
                && msg.properties[constants.property_transaction_prepared@] == "true"@;
            let delayed = msg.properties.contains_key(constants.property_startde_liver_time@)
                || msg.properties.contains_key(constants.property_delay_time_level@);
            let told = hook_message_type(constants, msg);
            &&& is_transaction_half(constants, msg) == half
            &&& is_delayed(constants, msg) == delayed
            &&& delayed ==> told == Some(MessageType::DelayMsg)
            &&& !delayed && half ==> told == Some(MessageType::TransMsgHalf)
            &&& !delayed && !half ==> told is None
        }),
{
}

/// Every message whose topic begins with the prefix of retries hands its counts over,
/// whatever else is among its properties: the header has the number that each count's
/// text stands for, zero if it stands for none, and its default if there is no count.
/// Both counts are gone from the properties then; the rest of the message stays.
pub proof fn law_every_retry_hands_its_counts_over(
    constants: ProtocolConstants,
    msg: MessageView,
    group: Seq<char>,
    n: nat,
    name: Seq<char>,
)
    requires
        msg.topic == constants.retry_group_topic_prefix@ + group,
    ensures
        ({
            let count = constants.property_reconsume_time@;
            let most = constants.property_max_reconsume_times@;
            let times = header_reconsume_times(constants, msg);
            let max_times = header_max_reconsume_times(constants, msg);
            &&& msg.properties.contains_key(count) && msg.properties[count] == decimal(n) && n
                <= i32::MAX ==> times == Some(n as i32)
            &&& msg.properties.contains_key(count) ==> times == (match denoted_i32(
                msg.properties[count],
            ) {
                Some(number) => Some(number),
                None => Some(0i32),
            })
            &&& !msg.properties.contains_key(count) ==> times == Some(0i32)
            &&& count != most && msg.properties.contains_key(most) && msg.properties[most]
                == decimal(n) && n <= i32::MAX ==> max_times == Some(n as i32)
            &&& count != most && msg.properties.contains_key(most) ==> max_times == (
            match denoted_i32(msg.properties[most]) {
                Some(number) => Some(number),
                None => Some(0i32),
            })
            &&& !msg.properties.contains_key(most) || count == most ==> max_times is None
        }),
        ({
            let behind = message_behind_header(constants, msg);
            &&& behind == (MessageView { properties: behind.properties, ..msg })
            &&& behind.properties.contains_key(name) == (msg.properties.contains_key(name) && name
                != constants.property_reconsume_time@ && name
                != constants.property_max_reconsume_times@)
            &&& behind.properties.contains_key(name) ==> behind.properties[name]
                == msg.properties[name]
        }),
{
    let prefix = constants.retry_group_topic_prefix@;
    assert(msg.topic.take(prefix.len() as int) =~= prefix);
    if n <= i32::MAX {
        law_written_number_reads_back(n);
    }
}

/// A message whose topic does not begin with the prefix of retries, because it is
/// shorter or differs from it somewhere, keeps all its properties, and its header has
/// no counts of theirs.
pub proof fn law_other_messages_keep_their_counts(
    constants: ProtocolConstants,
    msg: MessageView,
    i: int,
)
    requires
        msg.topic.len() < constants.retry_group_topic_prefix@.len() || (0 <= i
            < constants.retry_group_topic_prefix@.len() && msg.topic[i]
            != constants.retry_group_topic_prefix@[i]),
    ensures
        header_reconsume_times(constants, msg) == Some(0i32),
        header_max_reconsume_times(constants, msg) is None,
        message_behind_header(constants, msg) == msg,
{
    let prefix = constants.retry_group_topic_prefix@;
    if prefix.len() <= msg.topic.len() {
        assert(msg.topic.take(prefix.len() as int)[i] == msg.topic[i]);
    }
}

/// The text of a transmission without a broker names the broker.
pub proof fn law_missing_broker_is_named(broker_name: Seq<char>)
    ensures
        no_broker_text(broker_name) == "The broker["@ + broker_name + "] not exist"@,
{
}

/// Forbidding hooks are shown the settings, the message itself, the queue, the mode and
/// the channel of the transmission they are asked about.
pub proof fn law_forbidding_hooks_see_the_transmission<S, C>(
    producer: &DefaultMQProducerImpl<S, C>,
    context: CheckForbiddenContext<'_>,
    transmission: Transmission,
    msg: Message,
)
    requires
        producer.shows_to_forbidding_hook(context, transmission, msg),
    ensures
        match (context.name_srv_addr, producer.client_config.namesrv_addr) {
            (Some(shown), Some(addr)) => shown@ == addr@,
            (None, None) => true,
            _ => false,
        },
        context.group is Some && context.group->0@ == producer.producer_config.producer_group@,
        context.communication_mode == Some(transmission.communication_mode),
        context.broker_addr is Some && context.broker_addr->0@ == transmission.broker_addr@,
        context.message is Some && *context.message->0 == msg,
        context.mq is Some && *context.mq->0 == transmission.mq,
        context.unit_mode == producer.client_config.unit_mode,
{
}

/// Send hooks are shown the producer, its settings, the message as it leaves, the
/// queue, the mode and the channel of the transmission, and no answer yet.
pub proof fn law_send_hooks_see_the_transmission<S, C>(
    producer: &DefaultMQProducerImpl<S, C>,
    context: SendMessageContext,
    transmission: Transmission,
    msg: MessageView,
)
    requires
        producer.shows_to_send_hook(context, transmission, msg),
    ensures
        context.producer == Some(producer.producer_id),
        context.producer_group is Some && context.producer_group->0@
            == producer.producer_config.producer_group@,
        context.communication_mode == Some(transmission.communication_mode),
        match (context.born_host, producer.client_config.client_ip) {
            (Some(shown), Some(ip)) => shown@ == ip@,
            (None, None) => true,
            _ => false,
        },
        context.broker_addr is Some && context.broker_addr->0@ == transmission.broker_addr@,
        context.message is Some && context.message->0@ == msg,
        context.mq == Some(transmission.mq),
        match (context.namespace, producer.client_config.namespace) {
            (Some(shown), Some(namespace)) => shown@ == namespace@,
            (None, None) => true,
            _ => false,
        },
        context.send_result is None,
        ({
            let properties = msg.properties;
            let delayed = properties.contains_key(producer.constants.property_startde_liver_time@)
                || properties.contains_key(producer.constants.property_delay_time_level@);
            let half = properties.contains_key(producer.constants.property_transaction_prepared@)
                && properties[producer.constants.property_transaction_prepared@] == "true"@;
            context.msg_type == if delayed {
                Some(MessageType::DelayMsg)
            } else if half {
                Some(MessageType::TransMsgHalf)
            } else {
                None
            }
        }),
{
}

/// A request's header says what the settings, the transmission and the message say,
/// field by field.
pub proof fn law_header_describes_the_transmission<S, C>(
    producer: &DefaultMQProducerImpl<S, C>,
    header: SendMessageRequestHeader,
    transmission: Transmission,
    sys_flag: i32,
    batch: bool,
    msg: MessageView,
)
    requires
        producer.is_header_of(header, transmission, sys_flag, batch, msg),
    ensures
        header.producer_group@ == producer.producer_config.producer_group@,
        header.topic@ == msg.topic,
        header.default_topic@ == producer.producer_config.create_topic_key@,
        header.default_topic_queue_nums == producer.producer_config.default_topic_queue_nums as i32,
        header.queue_id == Some(transmission.mq.queue_id),
        header.sys_flag == sys_flag,
        header.flag == msg.flag,
        header.unit_mode == Some(producer.client_config.unit_mode),
        header.batch == Some(batch),
        header.broker_name is Some && header.broker_name->0@ == transmission.broker_name@,
        header.reconsume_times == header_reconsume_times(producer.constants, msg),
        header.max_reconsume_times == header_max_reconsume_times(producer.constants, msg),
{
}

/// A request is handed on with the time that its transmission has left, and with the
/// retries of the settings if it has a callback.
pub proof fn law_requests_get_the_time_that_is_left<S, C>(
    producer: &DefaultMQProducerImpl<S, C>,
    transmission: Transmission,
    cost_time: u64,
)
    requires
        cost_time <= transmission.timeout,
    ensures
        ({
            let dispatch = producer.dispatch_of(transmission, cost_time);
            match transmission.communication_mode {
                CommunicationMode::Async => {
                    &&& dispatch is WithCallback
                    &&& dispatch->WithCallback_timeout + cost_time == transmission.timeout
                    &&& dispatch->retry_times
                        == producer.producer_config.retry_times_when_send_async_failed
                },
                CommunicationMode::Sync => dispatch is Simple && dispatch->Simple_timeout
                    + cost_time == transmission.timeout,
                CommunicationMode::Oneway => dispatch is Simple && dispatch->Simple_timeout
                    + cost_time == transmission.timeout,
            }
        }),
{
}

/// A broker with an address is the one that the transmission goes to, over the channel
/// that the settings allow. One without is looked for again, once, and then missed.
pub proof fn law_missing_brokers_are_looked_for_again<S, C>(
    producer: &DefaultMQProducerImpl<S, C>,
    lookup: BrokerLookup,
    broker_name: String,
    broker_addr: Option<String>,
    step: BrokerStep,
)
    requires
        call_ensures(
            DefaultMQProducerImpl::<S, C>::broker_looked_up,
            (producer, lookup, broker_name, broker_addr),
            step,
        ),
    ensures
        step is Found <==> broker_addr is Some,
        step matches BrokerStep::Found { transmission, vip_channel_enabled } ==> {
            &&& vip_channel_enabled == producer.client_config.vip_channel_enabled
            &&& transmission.broker_name == broker_name
            &&& Some(transmission.broker_addr) == broker_addr
            &&& transmission.mq == lookup.mq
            &&& transmission.communication_mode == lookup.communication_mode
            &&& transmission.timeout == lookup.timeout
        },
        step is RefreshRoute <==> broker_addr is None && !lookup.refreshed,
        step matches BrokerStep::RefreshRoute(again) ==> again.refreshed && again.mq == lookup.mq
            && again.communication_mode == lookup.communication_mode && again.timeout
            == lookup.timeout,
        step matches BrokerStep::NotExist(e) ==> match e {
            MQClientError::MQClientException(code, text) => code == -1 && text@ == "The broker["@
                + broker_name@ + "] not exist"@,
            _ => false,
        },
{
}

/// Every message but a batch gets a number of its own.
pub proof fn law_all_but_batches_are_numbered<S, C>(
    producer: &DefaultMQProducerImpl<S, C>,
    msg: Message,
    yes: bool,
)
    requires
        call_ensures(DefaultMQProducerImpl::<S, C>::needs_uniq_id, (producer, &msg), yes),
    ensures
        msg.kind == MessageKind::Batch <==> !yes,
{
}

/// What goes to the compressor is the travelling body of a long single message, at the
/// level of the settings, and nothing of any other message; a body is found to be due
/// exactly when it goes there.
pub proof fn law_compressor_gets_long_bodies<S, C>(
    producer: &DefaultMQProducerImpl<S, C>,
    msg: Message,
    due: bool,
    job: Option<CompressionJob>,
)
    requires
        call_ensures(DefaultMQProducerImpl::<S, C>::is_compression_due, (producer, &msg), due),
        call_ensures(DefaultMQProducerImpl::<S, C>::compression_job, (producer, &msg), job),
    ensures
        due <==> match msg.compressed_body {
            Some(body) => msg.kind == MessageKind::Single && bytes_content(body).len()
                >= producer.producer_config.compress_msg_body_over_howmuch,
            None => false,
        },
        due <==> job is Some,
        job matches Some(j) ==> msg.compressed_body is Some && bytes_content(j.body)
            == bytes_content(msg.compressed_body->0) && j.level
            == producer.producer_config.compress_level,
{
}

/// What is encoded are the properties and the mark of the message.
pub proof fn law_properties_of_the_message_are_encoded<S, C>(
    producer: &DefaultMQProducerImpl<S, C>,
    prepared: PreparedSend,
    msg: Message,
    properties: Properties,
    instance_id: Option<String>,
)
    requires
        call_ensures(
            DefaultMQProducerImpl::<S, C>::properties_to_encode,
            (producer, &prepared, &msg),
            (&properties, &instance_id),
        ),
    ensures
        properties@ == msg.properties@,
        instance_id == msg.instance_id,
{
}

/// The namespace of the settings is taken out of the message's topic exactly if the
/// message goes to a callback and was marked with a namespace.
pub proof fn law_callbacks_see_topics_without_namespace<S, C>(
    producer: &DefaultMQProducerImpl<S, C>,
    prepared: PreparedSend,
    msg: Message,
    job: Option<(String, String)>,
)
    requires
        call_ensures(
            DefaultMQProducerImpl::<S, C>::namespace_to_strip,
            (producer, &prepared, &msg),
            job,
        ),
    ensures
        job is Some <==> prepared.topic_with_namespace && prepared.transmission.communication_mode
            == CommunicationMode::Async,
        job matches Some((topic, namespace)) ==> topic@ == msg.topic@ && match
            producer.client_config.namespace {
            Some(n) => namespace@ == n@,
            None => namespace@.len() == 0,
        },
{
}

/// A request is handed on exactly if its transmission has not taken longer than it may,
/// and then with what is left of the time; otherwise it is said to be late.
pub proof fn law_late_requests_are_not_handed_on<S, C>(
    producer: &DefaultMQProducerImpl<S, C>,
    prepared: PreparedSend,
    cost_time: u64,
    dispatch: Result<Dispatch, MQClientError>,
)
    requires
        call_ensures(
            DefaultMQProducerImpl::<S, C>::dispatch,
            (producer, &prepared, cost_time),
            dispatch,
        ),
    ensures
        dispatch is Ok <==> cost_time <= prepared.transmission.timeout,
        match dispatch {
            Ok(Dispatch::Simple { timeout }) => timeout + cost_time
                == prepared.transmission.timeout && prepared.transmission.communication_mode
                != CommunicationMode::Async,
            Ok(Dispatch::WithCallback { timeout, retry_times }) => timeout + cost_time
                == prepared.transmission.timeout && prepared.transmission.communication_mode
                == CommunicationMode::Async && retry_times
                == producer.producer_config.retry_times_when_send_async_failed,
            Err(MQClientError::RemotingTooMuchRequestException(text)) => text@
                == "sendKernelImpl call timeout"@,
            Err(_) => false,
        },
{
}

/// The outcome of a transmission is what the transport gave.
pub proof fn law_outcome_is_the_transports<S: SendMessageHook, C>(
    producer: &DefaultMQProducerImpl<S, C>,
    context: Option<SendMessageContext>,
    reply: SendOutcome,
    outcome: SendOutcome,
)
    requires
        call_ensures(
            DefaultMQProducerImpl::<S, C>::transmitted,
            (producer, context, reply),
            outcome,
        ),
    ensures
        outcome == reply,
{
}

} // verus!
