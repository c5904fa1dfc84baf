//! One send, from the application's call to its result: up to so many attempts,
//! each on a queue of its own, until one of them settles the matter.

use vstd::prelude::*;
use vstd::string::*;

use crate::error::{is_client_exception, is_too_much_request, MQClientError, UNCODED};
use crate::message::Message;
use crate::outside::random_u64;
use crate::producer::{
    no_name_server_text, not_running_text, DefaultMQProducerImpl,
};
use crate::text::{append_decimal, append_joined, decimal, joined, texts};
use crate::types::{
    CommunicationMode, FaultUpdate, MessageQueue, QueueSelection, SendResult, SendStatus,
    ServiceState, TopicPublishInfo,
};

verus! {

broadcast use {vstd::string::group_string_axioms, vstd::std_specs::hash::group_hash_axioms};

/// What the caller of a send is told in the end.
pub type SendOutcome = Result<Option<SendResult>, MQClientError>;

/// A send that was taken on.
pub struct SendTask {
    /// Tells this send from others in the log.
    pub invoke_id: u64,
    /// The topic that the application named.
    pub topic: String,
    pub msg: Message,
    pub communication_mode: CommunicationMode,
    /// The milliseconds that the whole send may take.
    pub timeout: u64,
}

/// A send under way.
pub struct SendAttempts {
    pub task: SendTask,
    pub route: TopicPublishInfo,
    /// How many attempts there may be.
    pub times_total: u32,
    /// How many attempts are over.
    pub times: u32,
    /// The queue of the latest attempt.
    pub mq: Option<MessageQueue>,
    /// The broker of each attempt; no text for those not made.
    pub brokers_sent: Vec<String>,
    /// Time ran out between two attempts.
    pub call_timeout: bool,
    /// The latest answer of a broker.
    pub send_result: Option<SendResult>,
    /// The latest failure.
    pub exception: Option<MQClientError>,
}

/// How a send goes on once its topic's route was looked up.
pub enum RouteStep {
    /// There is a route: the first attempt is due.
    Attempt(SendAttempts),
    /// There is none.
    NoRoute(SendTask),
}

/// What a send needs next.
pub enum SendStep {
    /// A queue for the next attempt.
    Select(SendAttempts),
    /// The topic with its namespace, before a repeated attempt. The attempt
    /// began after `cost_time` milliseconds of the send.
    ResetTopic { attempts: SendAttempts, namespace: String, topic: String, cost_time: u64 },
    /// Transmission of the message to the attempt's queue, in `timeout`
    /// milliseconds.
    Transmit { attempts: SendAttempts, timeout: u64 },
    /// A closing word: no further attempt is made.
    GiveUp(SendAttempts),
    /// Nothing: this is the result.
    Return(SendOutcome),
}

// ---------------------------------------------------------------------------
// The rules
// ---------------------------------------------------------------------------

/// How many attempts a send has: repeated ones only if the caller waits for it.
pub open spec fn attempts_allowed(mode: CommunicationMode, retry_times: u32) -> int {
    if mode == CommunicationMode::Sync {
        retry_times + 1
    } else {
        1
    }
}

/// What the fault strategy is told of the broker after `reply`: whether to keep it
/// aside and whether it can be reached. Failures that say nothing of the broker are
/// not reported.
pub open spec fn fault_report(reply: SendOutcome, detector: bool) -> Option<(bool, bool)> {
    match reply {
        Ok(_) => Some((false, true)),
        Err(MQClientError::MQClientException(_, _)) => Some((false, true)),
        Err(MQClientError::MQBrokerException(_, _, _)) => Some((true, false)),
        Err(MQClientError::RemotingException(_)) => Some((true, !detector)),
        Err(_) => None,
    }
}

/// The broker took the message, but not as it was asked to.
pub open spec fn not_stored_ok(answer: Option<SendResult>) -> bool {
    answer is Some && answer->0.send_status != SendStatus::SendOk
}

/// Whether `reply` settles the send, and with which result. `earlier` is the last
/// answer that an earlier attempt got.
pub open spec fn settled_by(
    mode: CommunicationMode,
    earlier: Option<SendResult>,
    reply: SendOutcome,
    retry_not_stored: bool,
    retry_codes: Set<i32>,
) -> Option<SendOutcome> {
    match reply {
        Ok(answer) => if mode != CommunicationMode::Sync {
            Some(Ok(None))
        } else if not_stored_ok(answer) && retry_not_stored {
            None
        } else {
            Some(Ok(answer))
        },
        Err(error) => match error {
            MQClientError::MQClientException(_, _) => None,
            MQClientError::RemotingException(_) => None,
            MQClientError::MQBrokerException(code, _, _) => if retry_codes.contains(code) {
                None
            } else if earlier is Some {
                Some(Ok(earlier))
            } else {
                Some(Err(error))
            },
            _ => Some(Err(error)),
        },
    }
}

/// How far a send has come.
pub struct Progress {
    pub times: int,
    pub send_result: Option<SendResult>,
    pub exception: Option<MQClientError>,
    pub call_timeout: bool,
}

/// A send with no attempt made.
pub open spec fn no_progress() -> Progress {
    Progress { times: 0, send_result: None, exception: None, call_timeout: false }
}

/// How far a send has come after an attempt that did not settle it.
pub open spec fn progress_after(progress: Progress, reply: SendOutcome) -> Progress {
    match reply {
        Ok(answer) => Progress {
            times: progress.times + 1,
            send_result: answer,
            ..progress
        },
        Err(error) => Progress {
            times: progress.times + 1,
            exception: Some(error),
            ..progress
        },
    }
}

/// The text of a send that used up its attempts.
pub open spec fn still_failed_text(
    times_total: nat,
    cost: nat,
    topic: Seq<char>,
    brokers_sent: Seq<Seq<char>>,
    advice: Seq<char>,
) -> Seq<char> {
    "Send ["@ + decimal(times_total) + "] times, still failed, cost ["@ + decimal(cost)
        + "]ms, Topic:"@ + topic + ", BrokersSent: "@ + joined(brokers_sent, ","@) + " "@ + advice
}

/// The text of a send to a topic without a route.
pub open spec fn no_route_text(topic: Seq<char>, advice: Seq<char>) -> Seq<char> {
    "No route info of this topic:"@ + topic + ","@ + advice
}

/// `outcome` is what is returned when no further attempt is made: an answer that a
/// broker gave, else the complaint that time ran out, else `text` with a code that
/// says whether anything failed.
pub open spec fn is_give_up_outcome(
    progress: Progress,
    failed_code: i32,
    text: Seq<char>,
    outcome: SendOutcome,
) -> bool {
    if progress.send_result is Some {
        outcome == SendOutcome::Ok(progress.send_result)
    } else if progress.call_timeout {
        outcome is Err && is_too_much_request(outcome->Err_0, "sendDefaultImpl call timeout"@)
    } else {
        outcome is Err && is_client_exception(
            outcome->Err_0,
            if progress.exception is Some {
                failed_code
            } else {
                UNCODED
            },
            text,
        )
    }
}

impl SendAttempts {
    /// There is a place for the broker of every attempt, and no more attempts were
    /// made than allowed.
    pub open spec fn well_formed(&self) -> bool {
        &&& self.times <= self.times_total
        &&& self.brokers_sent@.len() == self.times_total
    }

    /// A further attempt is allowed.
    pub open spec fn may_try(&self) -> bool {
        self.times < self.times_total
    }

    /// How far the send has come.
    pub open spec fn progress(&self) -> Progress {
        Progress {
            times: self.times as int,
            send_result: self.send_result,
            exception: self.exception,
            call_timeout: self.call_timeout,
        }
    }
}

/// The step after an attempt's queue and topic are fixed: out of time, or off to
/// the broker with the time that is left.
pub open spec fn is_timed_step(attempts: SendAttempts, cost_time: u64, step: SendStep) -> bool {
    if attempts.task.timeout < cost_time {
        step == SendStep::GiveUp(SendAttempts { call_timeout: true, ..attempts })
    } else {
        step == (SendStep::Transmit {
            attempts,
            timeout: (attempts.task.timeout - cost_time) as u64,
        })
    }
}

fn timed_step(attempts: SendAttempts, cost_time: u64) -> (step: SendStep)
    ensures
        is_timed_step(attempts, cost_time, step),
{
    if attempts.task.timeout < cost_time {
        SendStep::GiveUp(SendAttempts { call_timeout: true, ..attempts })
    } else {
        let timeout: u64 = attempts.task.timeout - cost_time;
        SendStep::Transmit { attempts, timeout }
    }
}

fn no_brokers(count: u32) -> (names: Vec<String>)
    ensures
        names@.len() == count,
        forall|i: int| 0 <= i < count ==> (#[trigger] names@[i])@ == Seq::<char>::empty(),
{
    let mut names: Vec<String> = Vec::new();
    let mut i: u32 = 0;
    while i < count
        invariant
            i <= count,
            names@.len() == i,
            forall|j: int| 0 <= j < i ==> (#[trigger] names@[j])@ == Seq::<char>::empty(),
        decreases count - i,
    {
        names.push(String::new());
        i += 1;
    }
    names
}

impl<S, C> DefaultMQProducerImpl<S, C> {
    // -----------------------------------------------------------------------
    // Taking a send on
    // -----------------------------------------------------------------------

    /// Takes on a send, if the producer is running, and numbers it at random.
    pub fn send_default_impl(
        &self,
        msg: Message,
        communication_mode: CommunicationMode,
        timeout: u64,
    ) -> (taken: Result<SendTask, MQClientError>)
        ensures
            taken is Ok <==> self.service_state == ServiceState::Running,
            taken matches Ok(task) ==> {
                &&& task.topic == msg.topic
                &&& task.msg == msg
                &&& task.communication_mode == communication_mode
                &&& task.timeout == timeout
            },
            taken matches Err(e) ==> is_client_exception(
                e,
                UNCODED,
                not_running_text(
                    self.service_state,
                    self.constants.advice_client_service_not_ok@,
                ),
            ),
    {
        match self.make_sure_state_ok() {
            Err(e) => Err(e),
            Ok(_) => {
                let invoke_id: u64 = random_u64();
                let topic = msg.topic.clone();
                Ok(SendTask { invoke_id, topic, msg, communication_mode, timeout })
            },
        }
    }

    /// Takes on a send whose caller waits for the answer, for so many milliseconds
    /// at most.
    pub fn send_with_timeout(&self, msg: Message, timeout: u64) -> (taken: Result<
        SendTask,
        MQClientError,
    >)
        ensures
            taken is Ok <==> self.service_state == ServiceState::Running,
            taken matches Ok(task) ==> {
                &&& task.topic == msg.topic
                &&& task.msg == msg
                &&& task.communication_mode == CommunicationMode::Sync
                &&& task.timeout == timeout
            },
            taken matches Err(e) ==> is_client_exception(
                e,
                UNCODED,
                not_running_text(
                    self.service_state,
                    self.constants.advice_client_service_not_ok@,
                ),
            ),
    {
        self.send_default_impl(msg, CommunicationMode::Sync, timeout)
    }

    /// Takes on a send whose caller waits for the answer, for as long as the
    /// settings say.
    pub fn send(&self, msg: Message) -> (taken: Result<SendTask, MQClientError>)
        ensures
            taken is Ok <==> self.service_state == ServiceState::Running,
            taken matches Ok(task) ==> {
                &&& task.topic == msg.topic
                &&& task.msg == msg
                &&& task.communication_mode == CommunicationMode::Sync
                &&& task.timeout == self.producer_config.send_msg_timeout
            },
            taken matches Err(e) ==> is_client_exception(
                e,
                UNCODED,
                not_running_text(
                    self.service_state,
                    self.constants.advice_client_service_not_ok@,
                ),
            ),
    {
        self.send_with_timeout(msg, self.producer_config.send_msg_timeout as u64)
    }

    // -----------------------------------------------------------------------
    // The route
    // -----------------------------------------------------------------------

    /// Goes on with a send once its topic's route was looked up. The attempts of a
    /// send that is made must be countable.
    pub fn route_found(&self, task: SendTask, route: Option<TopicPublishInfo>) -> (step: RouteStep)
        requires
            task.communication_mode == CommunicationMode::Sync && route is Some && route->0.usable
                ==> self.producer_config.retry_times_when_send_failed < u32::MAX,
        ensures
            match step {
                RouteStep::Attempt(attempts) => {
                    &&& route is Some && route->0.usable
                    &&& attempts.task == task
                    &&& attempts.route == route->0
                    &&& attempts.times_total == attempts_allowed(
                        task.communication_mode,
                        self.producer_config.retry_times_when_send_failed,
                    )
                    &&& task.communication_mode == CommunicationMode::Sync
                        ==> attempts.times_total
                        == self.producer_config.retry_times_when_send_failed + 1
                    &&& task.communication_mode != CommunicationMode::Sync ==> attempts.times_total
                        == 1
                    &&& attempts.progress() == no_progress()
                    &&& attempts.times == 0
                    &&& attempts.send_result is None
                    &&& attempts.exception is None
                    &&& !attempts.call_timeout
                    &&& attempts.mq is None
                    &&& attempts.well_formed()
                    &&& attempts.may_try()
                    &&& forall|i: int|
                        0 <= i < attempts.times_total ==> (#[trigger] attempts.brokers_sent@[i])@
                            == Seq::<char>::empty()
                },
                RouteStep::NoRoute(same) => !(route is Some && route->0.usable) && same == task,
            },
    {
        match route {
            Some(route) => {
                if route.ok() {
                    let times_total: u32 = if task.communication_mode == CommunicationMode::Sync {
                        self.producer_config.retry_times_when_send_failed + 1
                    } else {
                        1
                    };
                    return RouteStep::Attempt(
                        SendAttempts {
                            task,
                            route,
                            times_total,
                            times: 0,
                            mq: None,
                            brokers_sent: no_brokers(times_total),
                            call_timeout: false,
                            send_result: None,
                            exception: None,
                        },
                    );
                }
            },
            None => {},
        }
        RouteStep::NoRoute(task)
    }

    /// The error of a send to a topic without a route. `name_servers` are the
    /// addresses that the producer's client knows: without any, their absence is
    /// the error.
    pub fn no_route(&self, task: &SendTask, name_servers: &Vec<String>) -> (error: MQClientError)
        ensures
            name_servers@.len() == 0 ==> is_client_exception(
                error,
                self.constants.no_name_server_exception,
                no_name_server_text(self.constants.advice_name_server_addr_not_exist@),
            ),
            name_servers@.len() > 0 ==> is_client_exception(
                error,
                self.constants.not_found_topic_exception,
                no_route_text(task.topic@, self.constants.advice_no_topic_route_info@),
            ),
    {
        match self.validate_name_server_setting(name_servers) {
            Err(e) => e,
            Ok(_) => {
                let mut text = "No route info of this topic:".to_string();
                text.append(task.topic.as_str());
                text.append(",");
                text.append(self.constants.advice_no_topic_route_info.as_str());
                MQClientError::MQClientException(self.constants.not_found_topic_exception, text)
            },
        }
    }

    // -----------------------------------------------------------------------
    // Attempts
    // -----------------------------------------------------------------------

    /// The question for the queue of the next attempt: not on the broker of the
    /// attempt before, and from a fresh position if there was one.
    pub fn next_selection(&self, attempts: &SendAttempts) -> (selection: QueueSelection)
        ensures
            selection.route == attempts.route,
            match attempts.mq {
                Some(mq) => selection.last_broker_name is Some
                    && selection.last_broker_name->0@ == mq.broker_name@,
                None => selection.last_broker_name is None,
            },
            selection.reset_index == (attempts.times > 0),
    {
        let last_broker_name = match &attempts.mq {
            Some(mq) => Some(mq.broker_name.as_str()),
            None => None,
        };
        self.select_one_message_queue(&attempts.route, last_broker_name, attempts.times > 0)
    }

    /// Goes on once the fault strategy picked a queue, or none, `cost_time`
    /// milliseconds into the send.
    pub fn queue_selected(
        &self,
        attempts: SendAttempts,
        selected: Option<MessageQueue>,
        cost_time: u64,
    ) -> (step: SendStep)
        requires
            attempts.well_formed(),
            attempts.may_try(),
        ensures
            match selected {
                None => step == SendStep::GiveUp(attempts),
                Some(mq) => exists|brokers_sent: Vec<String>|
                    {
                        let chosen = SendAttempts { mq: selected, brokers_sent, ..attempts };
                        &&& #[trigger] brokers_sent@ == attempts.brokers_sent@.update(
                            attempts.times as int,
                            mq.broker_name,
                        )
                        &&& if attempts.times > 0 {
                            &&& step matches SendStep::ResetTopic {
                                attempts: next,
                                namespace,
                                topic,
                                cost_time: cost,
                            }
                            &&& next == chosen
                            &&& cost == cost_time
                            &&& topic@ == attempts.task.topic@
                            &&& namespace@ == match self.client_config.namespace {
                                Some(n) => n@,
                                None => Seq::<char>::empty(),
                            }
                        } else {
                            is_timed_step(chosen, cost_time, step)
                        }
                    },
            },
    {
        match selected {
            None => SendStep::GiveUp(attempts),
            Some(mq) => {
                let mut chosen = attempts;
                let times: usize = chosen.times as usize;
                chosen.brokers_sent.set(times, mq.broker_name.clone());
                chosen.mq = Some(mq);
                let ghost brokers_sent = chosen.brokers_sent;
                assert(brokers_sent@ == attempts.brokers_sent@.update(
                    attempts.times as int,
                    mq.broker_name,
                ));
                if chosen.times > 0 {
                    let namespace = match &self.client_config.namespace {
                        Some(n) => n.clone(),
                        None => String::new(),
                    };
                    let topic = chosen.task.topic.clone();
                    SendStep::ResetTopic { attempts: chosen, namespace, topic, cost_time }
                } else {
                    timed_step(chosen, cost_time)
                }
            },
        }
    }

    /// Goes on once the topic of a repeated attempt has its namespace, as `topic`.
    pub fn topic_reset(&self, attempts: SendAttempts, topic: String, cost_time: u64) -> (step:
        SendStep)
        ensures
            is_timed_step(
                SendAttempts {
                    task: SendTask {
                        msg: Message { topic, ..attempts.task.msg },
                        ..attempts.task
                    },
                    ..attempts
                },
                cost_time,
                step,
            ),
    {
        let mut renamed = attempts;
        renamed.task.msg.topic = topic;
        timed_step(renamed, cost_time)
    }

    /// Goes on once the transmission of an attempt ended, `elapsed` milliseconds
    /// after it began; says what to tell the fault strategy.
    pub fn attempt_replied(
        &self,
        attempts: SendAttempts,
        reply: SendOutcome,
        elapsed: u64,
    ) -> (next: (Option<FaultUpdate>, SendStep))
        requires
            attempts.well_formed(),
            attempts.may_try(),
            attempts.mq is Some,
        ensures
            match fault_report(reply, self.mq_fault_strategy.start_detector_enable) {
                Some((isolation, reachable)) => {
                    &&& next.0 matches Some(update)
                    &&& update.broker_name@ == attempts.mq->0.broker_name@
                    &&& update.current_latency == elapsed
                    &&& update.isolation == isolation
                    &&& update.reachable == reachable
                },
                None => next.0 is None,
            },
            match settled_by(
                attempts.task.communication_mode,
                attempts.send_result,
                reply,
                self.producer_config.retry_another_broker_when_not_store_ok,
                self.producer_config.retry_response_codes@,
            ) {
                Some(outcome) => next.1 == SendStep::Return(outcome),
                None => {
                    let after = progress_after(attempts.progress(), reply);
                    let going_on = SendAttempts {
                        times: (attempts.times + 1) as u32,
                        send_result: after.send_result,
                        exception: after.exception,
                        ..attempts
                    };
                    &&& going_on.well_formed()
                    &&& going_on.progress() == after
                    &&& next.1 == if going_on.may_try() {
                        SendStep::Select(going_on)
                    } else {
                        SendStep::GiveUp(going_on)
                    }
                },
            },
    {
        let broker_name = match &attempts.mq {
            Some(mq) => mq.broker_name.clone(),
            None => String::new(),
        };
        let mut going_on = attempts;
        match reply {
            Ok(answer) => {
                let update = self.update_fault_item(broker_name.as_str(), elapsed, false, true);
                match going_on.task.communication_mode {
                    CommunicationMode::Sync => {
                        let mut again: bool = false;
                        if let Some(result) = answer {
                            again = result.send_status != SendStatus::SendOk
                                && self.producer_config.retry_another_broker_when_not_store_ok;
                        }
                        if !again {
                            return (Some(update), SendStep::Return(Ok(answer)));
                        }
                        going_on.send_result = answer;
                        (Some(update), next_attempt(going_on))
                    },
                    CommunicationMode::Async | CommunicationMode::Oneway => {
                        (Some(update), SendStep::Return(Ok(None)))
                    },
                }
            },
            Err(error) => match error {
                MQClientError::MQClientException(_, _) => {
                    let update = self.update_fault_item(broker_name.as_str(), elapsed, false, true);
                    going_on.exception = Some(error);
                    (Some(update), next_attempt(going_on))
                },
                MQClientError::MQBrokerException(code, _, _) => {
                    let update = self.update_fault_item(broker_name.as_str(), elapsed, true, false);
                    if self.producer_config.retry_response_codes.contains(&code) {
                        going_on.exception = Some(error);
                        return (Some(update), next_attempt(going_on));
                    }
                    if going_on.send_result.is_some() {
                        return (Some(update), SendStep::Return(Ok(going_on.send_result)));
                    }
                    (Some(update), SendStep::Return(Err(error)))
                },
                MQClientError::RemotingException(_) => {
                    let reachable: bool = !self.mq_fault_strategy.start_detector_enable;
                    let update = self.update_fault_item(
                        broker_name.as_str(),
                        elapsed,
                        true,
                        reachable,
                    );
                    going_on.exception = Some(error);
                    (Some(update), next_attempt(going_on))
                },
                _ => (None, SendStep::Return(Err(error))),
            },
        }
    }

    /// The result of a send for which no further attempt is made, `cost`
    /// milliseconds after it began.
    pub fn give_up(&self, attempts: &SendAttempts, cost: u128) -> (outcome: SendOutcome)
        ensures
            is_give_up_outcome(
                attempts.progress(),
                self.constants.broker_not_exist_exception,
                still_failed_text(
                    attempts.times_total as nat,
                    cost as nat,
                    attempts.task.topic@,
                    texts(attempts.brokers_sent@),
                    self.constants.advice_send_msg_failed@,
                ),
                outcome,
            ),
    {
        if attempts.send_result.is_some() {
            return Ok(attempts.send_result);
        }
        if attempts.call_timeout {
            return Err(
                MQClientError::RemotingTooMuchRequestException(
                    "sendDefaultImpl call timeout".to_string(),
                ),
            );
        }
        let mut text = "Send [".to_string();
        append_decimal(&mut text, attempts.times_total as u128);
        text.append("] times, still failed, cost [");
        append_decimal(&mut text, cost);
        text.append("]ms, Topic:");
        text.append(attempts.task.topic.as_str());
        text.append(", BrokersSent: ");
        append_joined(&mut text, &attempts.brokers_sent, ",");
        text.append(" ");
        text.append(self.constants.advice_send_msg_failed.as_str());
        let code: i32 = if attempts.exception.is_some() {
            self.constants.broker_not_exist_exception
        } else {
            UNCODED
        };
        Err(MQClientError::MQClientException(code, text))
    }
}

fn next_attempt(attempts: SendAttempts) -> (step: SendStep)
    requires
        attempts.may_try(),
    ensures
        ({
            let going_on = SendAttempts { times: (attempts.times + 1) as u32, ..attempts };
            step == if going_on.may_try() {
                SendStep::Select(going_on)
            } else {
                SendStep::GiveUp(going_on)
            }
        }),
{
    let times: u32 = attempts.times + 1;
    let going_on = SendAttempts { times, ..attempts };
    if going_on.times < going_on.times_total {
        SendStep::Select(going_on)
    } else {
        SendStep::GiveUp(going_on)
    }
}

} // verus!
