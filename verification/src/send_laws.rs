//! What holds of a whole send, whatever its attempts meet with.

use vstd::prelude::*;

use crate::error::{is_client_exception, MQClientError, UNCODED};
use crate::message::Message;
use crate::producer::{no_name_server_text, not_running_text, DefaultMQProducerImpl};
use crate::send_default::{
    attempts_allowed, fault_report, is_give_up_outcome, is_timed_step, no_progress, no_route_text, not_stored_ok,
    progress_after, settled_by, still_failed_text, Progress, RouteStep, SendAttempts, SendOutcome,
    SendStep, SendTask,
};
use crate::text::{decimal, joined, texts};
use crate::types::{
    CommunicationMode, FaultUpdate, MessageQueue, QueueSelection, SendResult, SendStatus,
    ServiceState, TopicPublishInfo,
};

verus! {

/// What an attempt meets with: the queue that the fault strategy picks, the
/// milliseconds that the send has taken by then, the topic with its namespace (for
/// a repeated attempt), what the transmission gives and the milliseconds it takes.
pub struct AttemptInput {
    pub queue: Option<MessageQueue>,
    pub cost_time: u64,
    pub topic: String,
    pub reply: SendOutcome,
    pub elapsed: u64,
}

/// What a send goes by.
pub struct SendRules {
    pub mode: CommunicationMode,
    pub timeout: u64,
    pub times_total: int,
    pub retry_not_stored: bool,
    pub retry_codes: Set<i32>,
}

/// How a send ends.
pub enum SendEnd {
    /// An attempt settled it.
    Settled(SendOutcome),
    /// No further attempt is made.
    GaveUp(Progress),
    /// It has not ended yet.
    Open(Progress),
}

/// Where a send stands that has come as far as `progress` and then meets with
/// `inputs`, one attempt after the other.
pub open spec fn run(rules: SendRules, progress: Progress, inputs: Seq<AttemptInput>) -> SendEnd
    decreases inputs.len(),
{
    if progress.times >= rules.times_total {
        SendEnd::GaveUp(progress)
    } else if inputs.len() == 0 {
        SendEnd::Open(progress)
    } else {
        let input = inputs[0];
        if input.queue is None {
            SendEnd::GaveUp(progress)
        } else if rules.timeout < input.cost_time {
            SendEnd::GaveUp(Progress { call_timeout: true, ..progress })
        } else {
            match settled_by(
                rules.mode,
                progress.send_result,
                input.reply,
                rules.retry_not_stored,
                rules.retry_codes,
            ) {
                Some(outcome) => SendEnd::Settled(outcome),
                None => run(rules, progress_after(progress, input.reply), inputs.drop_first()),
            }
        }
    }
}

/// The brokers of the attempts that such a send makes, in order.
pub open spec fn brokers_tried(
    rules: SendRules,
    progress: Progress,
    inputs: Seq<AttemptInput>,
) -> Seq<Seq<char>>
    decreases inputs.len(),
{
    if progress.times >= rules.times_total || inputs.len() == 0 || inputs[0].queue is None {
        Seq::empty()
    } else {
        let input = inputs[0];
        let settled = settled_by(
            rules.mode,
            progress.send_result,
            input.reply,
            rules.retry_not_stored,
            rules.retry_codes,
        ) is Some;
        let tried = seq![input.queue->0.broker_name@];
        if rules.timeout < input.cost_time || settled {
            tried
        } else {
            tried + brokers_tried(
                rules,
                progress_after(progress, input.reply),
                inputs.drop_first(),
            )
        }
    }
}

/// `names` with `tried` in place of what stands from `start` on.
pub open spec fn with_tried(
    names: Seq<Seq<char>>,
    start: int,
    tried: Seq<Seq<char>>,
) -> Seq<Seq<char>> {
    Seq::new(
        names.len(),
        |i: int|
            if start <= i < start + tried.len() {
                tried[i - start]
            } else {
                names[i]
            },
    )
}

/// What a whole send meets with: the route of its topic, the name servers that the
/// producer's client knows, its attempts, and the milliseconds that it takes if it
/// is given up.
pub struct SendInputs {
    pub route: Option<TopicPublishInfo>,
    pub name_servers: Vec<String>,
    pub attempts: Vec<AttemptInput>,
    pub cost: u128,
}

impl<S, C> DefaultMQProducerImpl<S, C> {
    /// What this producer's send goes by.
    pub open spec fn rules_of(&self, attempts: SendAttempts) -> SendRules {
        SendRules {
            mode: attempts.task.communication_mode,
            timeout: attempts.task.timeout,
            times_total: attempts.times_total as int,
            retry_not_stored: self.producer_config.retry_another_broker_when_not_store_ok,
            retry_codes: self.producer_config.retry_response_codes@,
        }
    }

    /// Plays a send through, attempt by attempt, against what the attempts are to
    /// meet with. It stands where the rules say, so what holds of every run of the
    /// rules holds of every send.
    pub fn rehearse(&self, attempts: SendAttempts, inputs: Vec<AttemptInput>) -> (end: SendStep)
        requires
            attempts.well_formed(),
        ensures
            match run(self.rules_of(attempts), attempts.progress(), inputs@) {
                SendEnd::Settled(outcome) => end == SendStep::Return(outcome),
                SendEnd::GaveUp(progress) => {
                    &&& end is GiveUp
                    &&& end->GiveUp_0.progress() == progress
                    &&& end->GiveUp_0.times_total == attempts.times_total
                    &&& end->GiveUp_0.task.topic == attempts.task.topic
                    &&& texts(end->GiveUp_0.brokers_sent@) == with_tried(
                        texts(attempts.brokers_sent@),
                        attempts.times as int,
                        brokers_tried(self.rules_of(attempts), attempts.progress(), inputs@),
                    )
                },
                SendEnd::Open(progress) => end is Select && end->Select_0.progress() == progress,
            },
    {
        let ghost rules = self.rules_of(attempts);
        let ghost expected = run(rules, attempts.progress(), inputs@);
        let ghost names = texts(attempts.brokers_sent@);
        let ghost start = attempts.times as int;
        let ghost all_tried = brokers_tried(rules, attempts.progress(), inputs@);
        let ghost mut tried: Seq<Seq<char>> = Seq::empty();
        let mut current = attempts;
        let mut ahead = inputs;
        assert(texts(current.brokers_sent@) =~= with_tried(names, start, tried));
        assert(all_tried =~= tried + brokers_tried(rules, current.progress(), ahead@));
        while current.times < current.times_total && ahead.len() > 0
            invariant
                rules == self.rules_of(attempts),
                expected == run(rules, attempts.progress(), inputs@),
                current.well_formed(),
                rules == self.rules_of(current),
                expected == run(rules, current.progress(), ahead@),
                names == texts(attempts.brokers_sent@),
                names.len() == attempts.times_total,
                start == attempts.times,
                all_tried == brokers_tried(rules, attempts.progress(), inputs@),
                current.task.topic == attempts.task.topic,
                current.times == start + tried.len(),
                texts(current.brokers_sent@) == with_tried(names, start, tried),
                all_tried == tried + brokers_tried(rules, current.progress(), ahead@),
            decreases ahead@.len(),
        {
            let ghost before = ahead@;
            let input = ahead.remove(0);
            assert(ahead@ =~= before.drop_first());
            let ghost tried_before = tried;
            proof {
                if input.queue is Some {
                    tried = tried.push(input.queue->0.broker_name@);
                }
            }
            let mut step = self.queue_selected(current, input.queue, input.cost_time);
            proof {
                assert forall|brokers_sent: Vec<String>|
                    input.queue is Some && #[trigger] brokers_sent@ == current.brokers_sent@.update(
                        current.times as int,
                        input.queue->0.broker_name,
                    ) implies texts(brokers_sent@) == with_tried(names, start, tried) by {
                    assert(texts(current.brokers_sent@) == with_tried(names, start, tried_before));
                    assert forall|i: int| 0 <= i < names.len() implies texts(brokers_sent@)[i]
                        == with_tried(names, start, tried)[i] by {
                        assert(texts(current.brokers_sent@)[i] == with_tried(
                            names,
                            start,
                            tried_before,
                        )[i]);
                    }
                    assert(texts(brokers_sent@) =~= with_tried(names, start, tried));
                }
                assert(tried_before + seq![input.queue->0.broker_name@] =~= tried_before.push(
                    input.queue->0.broker_name@,
                ));
            }
            if let SendStep::ResetTopic { attempts: chosen, namespace: _, topic: _, cost_time } = step {
                step = self.topic_reset(chosen, input.topic, cost_time);
            }
            match step {
                SendStep::Transmit { attempts: chosen, timeout: _ } => {
                    let ghost after = progress_after(current.progress(), input.reply);
                    assert(after.times >= rules.times_total ==> run(rules, after, ahead@)
                        == SendEnd::GaveUp(after));
                    let (_, next) = self.attempt_replied(chosen, input.reply, input.elapsed);
                    match next {
                        SendStep::Select(going_on) => {
                            current = going_on;
                        },
                        other => {
                            return other;
                        },
                    }
                },
                other => {
                    return other;
                },
            }
        }
        if current.times < current.times_total {
            SendStep::Select(current)
        } else {
            SendStep::GiveUp(current)
        }
    }
}

impl<S, C> DefaultMQProducerImpl<S, C> {
    /// What a send with this mode and this timeout goes by.
    pub open spec fn send_rules(&self, mode: CommunicationMode, timeout: u64) -> SendRules {
        SendRules {
            mode,
            timeout,
            times_total: attempts_allowed(
                mode,
                self.producer_config.retry_times_when_send_failed,
            ),
            retry_not_stored: self.producer_config.retry_another_broker_when_not_store_ok,
            retry_codes: self.producer_config.retry_response_codes@,
        }
    }

    /// The text of such a send that is given up after `cost` milliseconds. It lists
    /// the brokers tried, and leaves a place for each attempt that was not made.
    pub open spec fn given_up_text(
        &self,
        rules: SendRules,
        topic: Seq<char>,
        inputs: Seq<AttemptInput>,
        cost: nat,
    ) -> Seq<char> {
        still_failed_text(
            rules.times_total as nat,
            cost,
            topic,
            with_tried(
                Seq::new(rules.times_total as nat, |i: int| Seq::<char>::empty()),
                0,
                brokers_tried(rules, no_progress(), inputs),
            ),
            self.constants.advice_send_msg_failed@,
        )
    }

    /// Plays a whole send through, from the application's call to its outcome; there
    /// is none yet if it needs more attempts than are given.
    pub fn rehearse_send(
        &self,
        msg: Message,
        communication_mode: CommunicationMode,
        timeout: u64,
        inputs: SendInputs,
    ) -> (end: Option<SendOutcome>)
        requires
            self.service_state == ServiceState::Running && communication_mode
                == CommunicationMode::Sync && inputs.route is Some && inputs.route->0.usable
                ==> self.producer_config.retry_times_when_send_failed < u32::MAX,
        ensures
            self.service_state != ServiceState::Running ==> {
                &&& end matches Some(Err(e))
                &&& is_client_exception(
                    e,
                    UNCODED,
                    not_running_text(
                        self.service_state,
                        self.constants.advice_client_service_not_ok@,
                    ),
                )
            },
            self.service_state == ServiceState::Running && !(inputs.route is Some
                && inputs.route->0.usable) ==> {
                &&& end matches Some(Err(e))
                &&& if inputs.name_servers@.len() == 0 {
                    is_client_exception(
                        e,
                        self.constants.no_name_server_exception,
                        no_name_server_text(self.constants.advice_name_server_addr_not_exist@),
                    )
                } else {
                    is_client_exception(
                        e,
                        self.constants.not_found_topic_exception,
                        no_route_text(msg.topic@, self.constants.advice_no_topic_route_info@),
                    )
                }
            },
            self.service_state == ServiceState::Running && inputs.route is Some
                && inputs.route->0.usable ==> {
                let rules = self.send_rules(communication_mode, timeout);
                match run(rules, no_progress(), inputs.attempts@) {
                    SendEnd::Settled(outcome) => end == Some(outcome),
                    SendEnd::GaveUp(progress) => end is Some && is_give_up_outcome(
                        progress,
                        self.constants.broker_not_exist_exception,
                        self.given_up_text(
                            rules,
                            msg.topic@,
                            inputs.attempts@,
                            inputs.cost as nat,
                        ),
                        end->0,
                    ),
                    SendEnd::Open(_) => end is None,
                }
            },
    {
        let task = match self.send_default_impl(msg, communication_mode, timeout) {
            Err(e) => {
                return Some(Err(e));
            },
            Ok(task) => task,
        };
        match self.route_found(task, inputs.route) {
            RouteStep::NoRoute(task) => Some(Err(self.no_route(&task, &inputs.name_servers))),
            RouteStep::Attempt(attempts) => {
                proof {
                    let rules = self.send_rules(communication_mode, timeout);
                    assert(self.rules_of(attempts) == rules);
                    assert(texts(attempts.brokers_sent@) =~= Seq::new(
                        rules.times_total as nat,
                        |i: int| Seq::<char>::empty(),
                    ));
                }
                match self.rehearse(attempts, inputs.attempts) {
                    SendStep::Return(outcome) => Some(outcome),
                    SendStep::GiveUp(attempts) => Some(self.give_up(&attempts, inputs.cost)),
                    _ => None,
                }
            },
        }
    }
}

/// A send ends within the attempts it is allowed.
pub proof fn law_attempts_are_bounded(
    rules: SendRules,
    progress: Progress,
    inputs: Seq<AttemptInput>,
)
    requires
        inputs.len() >= rules.times_total - progress.times,
    ensures
        !(run(rules, progress, inputs) is Open),
    decreases inputs.len(),
{
    if progress.times < rules.times_total {
        law_attempts_are_bounded(
            rules,
            progress_after(progress, inputs[0].reply),
            inputs.drop_first(),
        );
    }
}

/// Once a send has ended, nothing that a later attempt would meet with makes a
/// difference.
pub proof fn law_later_attempts_do_not_matter(
    rules: SendRules,
    progress: Progress,
    inputs: Seq<AttemptInput>,
    more: Seq<AttemptInput>,
)
    requires
        !(run(rules, progress, inputs) is Open),
    ensures
        run(rules, progress, inputs + more) == run(rules, progress, inputs),
    decreases inputs.len(),
{
    if progress.times < rules.times_total && inputs.len() > 0 {
        assert((inputs + more)[0] == inputs[0]);
        assert((inputs + more).drop_first() =~= inputs.drop_first() + more);
        if !(run(rules, progress_after(progress, inputs[0].reply), inputs.drop_first()) is Open) {
            law_later_attempts_do_not_matter(
                rules,
                progress_after(progress, inputs[0].reply),
                inputs.drop_first(),
                more,
            );
        }
    }
}

/// A send whose caller does not wait is attempted once: it is settled by that
/// attempt, with no answer if the transmission went well.
pub proof fn law_unawaited_send_is_attempted_once(
    rules: SendRules,
    retry_times: u32,
    input: AttemptInput,
    inputs: Seq<AttemptInput>,
)
    requires
        rules.mode != CommunicationMode::Sync,
        rules.times_total == attempts_allowed(rules.mode, retry_times),
        inputs.len() > 0,
        inputs[0] == input,
    ensures
        !(run(rules, no_progress(), inputs) is Open),
        input.queue is Some && input.cost_time <= rules.timeout && input.reply is Ok ==> run(
            rules,
            no_progress(),
            inputs,
        ) == SendEnd::Settled(Ok(None)),
{
    law_attempts_are_bounded(rules, no_progress(), inputs);
}

/// A message that a broker stored as asked is not sent again: the broker's answer
/// is the result.
pub proof fn law_stored_message_is_not_sent_again(
    rules: SendRules,
    progress: Progress,
    inputs: Seq<AttemptInput>,
    answer: SendResult,
)
    requires
        rules.mode == CommunicationMode::Sync,
        progress.times < rules.times_total,
        inputs.len() > 0,
        inputs[0].queue is Some,
        inputs[0].cost_time <= rules.timeout,
        inputs[0].reply == SendOutcome::Ok(Some(answer)),
        answer.send_status == SendStatus::SendOk || !rules.retry_not_stored,
    ensures
        run(rules, progress, inputs) == SendEnd::Settled(Ok(Some(answer))),
{
}

/// The latest answer that a broker gave in these attempts; `earlier` if none did.
pub open spec fn latest_answer(
    earlier: Option<SendResult>,
    attempts: Seq<AttemptInput>,
) -> Option<SendResult>
    decreases attempts.len(),
{
    if attempts.len() == 0 {
        earlier
    } else {
        match attempts.last().reply {
            Ok(answer) => answer,
            Err(_) => latest_answer(earlier, attempts.drop_last()),
        }
    }
}

proof fn lemma_latest_answer_of_rest(progress: Progress, attempts: Seq<AttemptInput>)
    requires
        attempts.len() > 0,
    ensures
        latest_answer(progress.send_result, attempts) == latest_answer(
            progress_after(progress, attempts[0].reply).send_result,
            attempts.drop_first(),
        ),
    decreases attempts.len(),
{
    if attempts.len() == 1 {
        assert(attempts.drop_last().len() == 0);
        assert(latest_answer(progress.send_result, attempts.drop_last()) == progress.send_result);
    } else {
        lemma_latest_answer_of_rest(progress, attempts.drop_last());
        assert(attempts.drop_first().last() == attempts.last());
        assert(attempts.drop_first().drop_last() =~= attempts.drop_last().drop_first());
    }
}

/// A send that is given up has made one attempt for each that it counts, and
/// remembers the latest answer of theirs.
proof fn lemma_latest_answer_is_remembered(
    rules: SendRules,
    progress: Progress,
    inputs: Seq<AttemptInput>,
)
    requires
        run(rules, progress, inputs) is GaveUp,
    ensures
        ({
            let last = run(rules, progress, inputs)->GaveUp_0;
            let made = last.times - progress.times;
            &&& 0 <= made <= inputs.len()
            &&& last.send_result == latest_answer(progress.send_result, inputs.take(made))
        }),
    decreases inputs.len(),
{
    let last = run(rules, progress, inputs)->GaveUp_0;
    let made = last.times - progress.times;
    if progress.times < rules.times_total && inputs.len() > 0 && inputs[0].queue is Some
        && rules.timeout >= inputs[0].cost_time {
        let rest = inputs.drop_first();
        lemma_latest_answer_is_remembered(rules, progress_after(progress, inputs[0].reply), rest);
        lemma_latest_answer_of_rest(progress, inputs.take(made));
        assert(inputs.take(made).drop_first() =~= rest.take(made - 1));
    } else {
        assert(inputs.take(made).len() == 0);
    }
}

/// An answer from a broker is not lost: a send that is given up after a broker gave
/// one, in an attempt that it made or before, returns the latest, not an error.
pub proof fn law_answer_is_not_lost(
    rules: SendRules,
    progress: Progress,
    inputs: Seq<AttemptInput>,
    failed_code: i32,
    text: Seq<char>,
    outcome: SendOutcome,
)
    requires
        run(rules, progress, inputs) matches SendEnd::GaveUp(last) && is_give_up_outcome(
            last,
            failed_code,
            text,
            outcome,
        ),
    ensures
        ({
            let made = run(rules, progress, inputs)->GaveUp_0.times - progress.times;
            let latest = latest_answer(progress.send_result, inputs.take(made));
            &&& 0 <= made <= inputs.len()
            &&& latest is Some ==> outcome == SendOutcome::Ok(latest)
            &&& latest is None ==> outcome is Err
        }),
{
    lemma_latest_answer_is_remembered(rules, progress, inputs);
}

/// `answer` is what one of the attempts got from a broker, which took the message
/// but did not store it as asked.
pub open spec fn got_not_stored_answer(inputs: Seq<AttemptInput>, answer: SendResult) -> bool {
    exists|i: int|
        0 <= i < inputs.len() && (#[trigger] inputs[i]).reply == SendOutcome::Ok(Some(answer))
            && not_stored_ok(Some(answer))
}

/// No answer is made up: one that a given-up send returns was given by a broker in
/// one of its attempts, to a caller who waits and wants such answers retried.
pub proof fn law_answer_is_not_made_up(
    rules: SendRules,
    progress: Progress,
    inputs: Seq<AttemptInput>,
)
    requires
        run(rules, progress, inputs) is GaveUp,
    ensures
        ({
            let last = run(rules, progress, inputs)->GaveUp_0;
            last.send_result != progress.send_result ==> {
                &&& rules.mode == CommunicationMode::Sync
                &&& rules.retry_not_stored
                &&& last.send_result is Some
                &&& got_not_stored_answer(inputs, last.send_result->0)
            }
        }),
    decreases inputs.len(),
{
    if progress.times < rules.times_total && inputs.len() > 0 && inputs[0].queue is Some
        && rules.timeout >= inputs[0].cost_time {
        let next = progress_after(progress, inputs[0].reply);
        let rest = inputs.drop_first();
        law_answer_is_not_made_up(rules, next, rest);
        let last = run(rules, progress, inputs)->GaveUp_0;
        if last.send_result != next.send_result {
            let answer = last.send_result->0;
            let i = choose|i: int|
                0 <= i < rest.len() && (#[trigger] rest[i]).reply == SendOutcome::Ok(Some(answer))
                    && not_stored_ok(Some(answer));
            assert(inputs[i + 1] == rest[i]);
        }
    }
}

/// A send that is given up without an answer says truly whether an attempt failed:
/// the failure it remembers is that of one of its attempts.
pub proof fn law_failure_is_not_made_up(
    rules: SendRules,
    progress: Progress,
    inputs: Seq<AttemptInput>,
)
    requires
        run(rules, progress, inputs) is GaveUp,
    ensures
        ({
            let last = run(rules, progress, inputs)->GaveUp_0;
            last.exception != progress.exception ==> last.exception is Some && exists|i: int|
                0 <= i < inputs.len() && (#[trigger] inputs[i]).reply == SendOutcome::Err(
                    last.exception->0,
                )
        }),
    decreases inputs.len(),
{
    if progress.times < rules.times_total && inputs.len() > 0 && inputs[0].queue is Some
        && rules.timeout >= inputs[0].cost_time {
        let next = progress_after(progress, inputs[0].reply);
        let rest = inputs.drop_first();
        law_failure_is_not_made_up(rules, next, rest);
        let last = run(rules, progress, inputs)->GaveUp_0;
        if last.exception != next.exception {
            let i = choose|i: int|
                0 <= i < rest.len() && (#[trigger] rest[i]).reply == SendOutcome::Err(
                    last.exception->0,
                );
            assert(inputs[i + 1] == rest[i]);
        }
    }
}

/// A send without an answer that no queue is found for, on its first attempt, ends
/// in an error without a code of its own.
pub proof fn law_no_queue_is_an_uncoded_error(
    rules: SendRules,
    inputs: Seq<AttemptInput>,
    failed_code: i32,
    text: Seq<char>,
    outcome: SendOutcome,
)
    requires
        rules.times_total > 0,
        inputs.len() > 0,
        inputs[0].queue is None,
        is_give_up_outcome(no_progress(), failed_code, text, outcome),
    ensures
        run(rules, no_progress(), inputs) == SendEnd::GaveUp(no_progress()),
        outcome is Err && is_client_exception(outcome->Err_0, UNCODED, text),
{
}

/// A send without an answer whose time is up when an attempt is due ends in the
/// complaint that it is, whatever failed before.
pub proof fn law_late_send_says_so(
    rules: SendRules,
    progress: Progress,
    inputs: Seq<AttemptInput>,
    failed_code: i32,
    text: Seq<char>,
    outcome: SendOutcome,
)
    requires
        progress.send_result is None,
        progress.times < rules.times_total,
        inputs.len() > 0,
        inputs[0].queue is Some,
        rules.timeout < inputs[0].cost_time,
        is_give_up_outcome(
            Progress { call_timeout: true, ..progress },
            failed_code,
            text,
            outcome,
        ),
    ensures
        run(rules, progress, inputs) == SendEnd::GaveUp(Progress { call_timeout: true, ..progress }),
        outcome matches Err(MQClientError::RemotingTooMuchRequestException(_)),
{
}

// ---------------------------------------------------------------------------
// How often a send is tried, and what ends it
// ---------------------------------------------------------------------------

/// A send goes by the settings: one attempt and as many more as there are retries if
/// the caller waits, one in all if not, in the time that the caller gave.
pub proof fn law_send_goes_by_the_settings<S, C>(
    producer: &DefaultMQProducerImpl<S, C>,
    mode: CommunicationMode,
    timeout: u64,
    attempts: SendAttempts,
)
    ensures
        ({
            let rules = producer.send_rules(mode, timeout);
            &&& mode == CommunicationMode::Sync ==> rules.times_total
                == producer.producer_config.retry_times_when_send_failed + 1
            &&& mode == CommunicationMode::Async ==> rules.times_total == 1
            &&& mode == CommunicationMode::Oneway ==> rules.times_total == 1
            &&& rules.mode == mode
            &&& rules.timeout == timeout
            &&& rules.retry_not_stored
                == producer.producer_config.retry_another_broker_when_not_store_ok
            &&& rules.retry_codes == producer.producer_config.retry_response_codes@
        }),
        ({
            let rules = producer.rules_of(attempts);
            &&& rules.times_total == attempts.times_total
            &&& rules.mode == attempts.task.communication_mode
            &&& rules.timeout == attempts.task.timeout
            &&& rules.retry_not_stored
                == producer.producer_config.retry_another_broker_when_not_store_ok
            &&& rules.retry_codes == producer.producer_config.retry_response_codes@
        }),
        attempts.may_try() <==> attempts.times < attempts.times_total,
        attempts.progress() == (Progress {
            times: attempts.times as int,
            send_result: attempts.send_result,
            exception: attempts.exception,
            call_timeout: attempts.call_timeout,
        }),
        no_progress() == (Progress {
            times: 0,
            send_result: None,
            exception: None,
            call_timeout: false,
        }),
{
}

proof fn lemma_retried_attempts_lead_on(
    rules: SendRules,
    progress: Progress,
    inputs: Seq<AttemptInput>,
    k: int,
)
    requires
        0 <= k <= inputs.len(),
        progress.times + k <= rules.times_total,
        forall|i: int|
            #![trigger inputs[i]]
            0 <= i < k ==> inputs[i].queue is Some && inputs[i].cost_time <= rules.timeout
                && match inputs[i].reply {
                Err(MQClientError::MQClientException(_, _)) => true,
                Err(MQClientError::RemotingException(_)) => true,
                Err(MQClientError::MQBrokerException(code, _, _)) => rules.retry_codes.contains(
                    code,
                ),
                Ok(Some(answer)) => rules.mode == CommunicationMode::Sync
                    && rules.retry_not_stored && answer.send_status != SendStatus::SendOk,
                _ => false,
            },
    ensures
        exists|after: Progress|
            {
                &&& #[trigger] run(rules, after, inputs.skip(k)) == run(rules, progress, inputs)
                &&& after.times == progress.times + k
                &&& after.call_timeout == progress.call_timeout
                &&& after.send_result == latest_answer(progress.send_result, inputs.take(k))
                &&& (forall|i: int| 0 <= i < k ==> (#[trigger] inputs[i]).reply is Err)
                    ==> after.send_result == progress.send_result
                &&& k > 0 && inputs[k - 1].reply is Err ==> after.exception == Some(
                    inputs[k - 1].reply->Err_0,
                )
                &&& k == 0 ==> after == progress
            },
    decreases k,
{
    if k == 0 {
        assert(inputs.skip(0) =~= inputs);
        assert(inputs.take(0).len() == 0);
        assert(run(rules, progress, inputs.skip(k)) == run(rules, progress, inputs));
    } else {
        assert(inputs[0].queue is Some);
        let next = progress_after(progress, inputs[0].reply);
        let rest = inputs.drop_first();
        assert forall|i: int| #![trigger rest[i]] 0 <= i < k - 1 implies rest[i].queue is Some
            && rest[i].cost_time <= rules.timeout && match rest[i].reply {
            Err(MQClientError::MQClientException(_, _)) => true,
            Err(MQClientError::RemotingException(_)) => true,
            Err(MQClientError::MQBrokerException(code, _, _)) => rules.retry_codes.contains(code),
            Ok(Some(answer)) => rules.mode == CommunicationMode::Sync && rules.retry_not_stored
                && answer.send_status != SendStatus::SendOk,
            _ => false,
        } by {
            assert(rest[i] == inputs[i + 1]);
        }
        lemma_retried_attempts_lead_on(rules, next, rest, k - 1);
        let after = choose|after: Progress|
            {
                &&& #[trigger] run(rules, after, rest.skip(k - 1)) == run(rules, next, rest)
                &&& after.times == next.times + k - 1
                &&& after.call_timeout == next.call_timeout
                &&& after.send_result == latest_answer(next.send_result, rest.take(k - 1))
                &&& (forall|i: int| 0 <= i < k - 1 ==> (#[trigger] rest[i]).reply is Err)
                    ==> after.send_result == next.send_result
                &&& k - 1 > 0 && rest[k - 2].reply is Err ==> after.exception == Some(
                    rest[k - 2].reply->Err_0,
                )
                &&& k - 1 == 0 ==> after == next
            };
        assert(rest.skip(k - 1) =~= inputs.skip(k));
        assert(run(rules, progress, inputs) == run(rules, next, rest));
        lemma_latest_answer_of_rest(progress, inputs.take(k));
        assert(inputs.take(k).drop_first() =~= rest.take(k - 1));
        if forall|i: int| 0 <= i < k ==> (#[trigger] inputs[i]).reply is Err {
            assert forall|i: int| 0 <= i < k - 1 implies (#[trigger] rest[i]).reply is Err by {
                assert(inputs[i + 1].reply is Err);
            }
            assert(inputs[0].reply is Err);
        }
        if k > 1 {
            assert(rest[k - 2] == inputs[k - 1]);
        }
        assert(run(rules, after, inputs.skip(k)) == run(rules, progress, inputs));
    }
}

/// Retries are used: a send whose caller waits, and whose first attempts fail in ways
/// that are retried, no more of them than there are retries in the settings, ends
/// with the answer of the broker that then stores the message.
pub proof fn law_failed_attempts_are_made_good<S, C>(
    producer: &DefaultMQProducerImpl<S, C>,
    timeout: u64,
    inputs: Seq<AttemptInput>,
    k: int,
    answer: SendResult,
)
    requires
        0 <= k <= producer.producer_config.retry_times_when_send_failed,
        k < inputs.len(),
        forall|i: int|
            #![trigger inputs[i]]
            0 <= i <= k ==> inputs[i].queue is Some && inputs[i].cost_time <= timeout,
        forall|i: int|
            #![trigger inputs[i]]
            0 <= i < k ==> match inputs[i].reply {
                Err(MQClientError::MQClientException(_, _)) => true,
                Err(MQClientError::RemotingException(_)) => true,
                Err(MQClientError::MQBrokerException(code, _, _)) =>
                    producer.producer_config.retry_response_codes@.contains(code),
                Ok(Some(a)) => producer.producer_config.retry_another_broker_when_not_store_ok
                    && a.send_status != SendStatus::SendOk,
                _ => false,
            },
        inputs[k].reply == SendOutcome::Ok(Some(answer)),
        answer.send_status == SendStatus::SendOk,
    ensures
        run(producer.send_rules(CommunicationMode::Sync, timeout), no_progress(), inputs)
            == SendEnd::Settled(Ok(Some(answer))),
{
    let rules = producer.send_rules(CommunicationMode::Sync, timeout);
    lemma_retried_attempts_lead_on(rules, no_progress(), inputs, k);
    assert(inputs.skip(k)[0] == inputs[k]);
}

/// Retries are not exceeded: a send whose caller waits, and whose first attempt and
/// all its retries fail in ways that are retried, is given up, after one attempt more
/// than there are retries in the settings. The last failure is remembered, and a send
/// that no broker answered has no answer.
pub proof fn law_retries_are_not_exceeded<S, C>(
    producer: &DefaultMQProducerImpl<S, C>,
    timeout: u64,
    inputs: Seq<AttemptInput>,
)
    requires
        inputs.len() > producer.producer_config.retry_times_when_send_failed,
        forall|i: int|
            #![trigger inputs[i]]
            0 <= i <= producer.producer_config.retry_times_when_send_failed
                ==> inputs[i].queue is Some && inputs[i].cost_time <= timeout
                && match inputs[i].reply {
                Err(MQClientError::MQClientException(_, _)) => true,
                Err(MQClientError::RemotingException(_)) => true,
                Err(MQClientError::MQBrokerException(code, _, _)) =>
                    producer.producer_config.retry_response_codes@.contains(code),
                _ => false,
            },
    ensures
        ({
            let retries = producer.producer_config.retry_times_when_send_failed as int;
            let end = run(
                producer.send_rules(CommunicationMode::Sync, timeout),
                no_progress(),
                inputs,
            );
            &&& end is GaveUp
            &&& end->GaveUp_0.times == retries + 1
            &&& end->GaveUp_0.send_result is None
            &&& end->GaveUp_0.exception == Some(inputs[retries].reply->Err_0)
            &&& !end->GaveUp_0.call_timeout
        }),
{
    let rules = producer.send_rules(CommunicationMode::Sync, timeout);
    let k = producer.producer_config.retry_times_when_send_failed + 1;
    assert forall|i: int| #![trigger inputs[i]] 0 <= i < k implies inputs[i].queue is Some
        && inputs[i].cost_time <= rules.timeout && match inputs[i].reply {
        Err(MQClientError::MQClientException(_, _)) => true,
        Err(MQClientError::RemotingException(_)) => true,
        Err(MQClientError::MQBrokerException(code, _, _)) => rules.retry_codes.contains(code),
        Ok(Some(answer)) => rules.mode == CommunicationMode::Sync && rules.retry_not_stored
            && answer.send_status != SendStatus::SendOk,
        _ => false,
    } by {
        assert(i <= producer.producer_config.retry_times_when_send_failed);
    }
    lemma_retried_attempts_lead_on(rules, no_progress(), inputs, k);
    assert(inputs[k - 1].reply is Err);
    assert forall|i: int| 0 <= i < k implies (#[trigger] inputs[i]).reply is Err by {
        assert(i <= producer.producer_config.retry_times_when_send_failed);
    }
}

/// What comes of one attempt, for each reply: which settle the send and with what,
/// and what the send remembers of those that do not.
pub proof fn law_replies_settle_or_lead_on(
    rules: SendRules,
    progress: Progress,
    inputs: Seq<AttemptInput>,
)
    requires
        progress.times < rules.times_total,
        inputs.len() > 0,
        inputs[0].queue is Some,
        inputs[0].cost_time <= rules.timeout,
    ensures
        ({
            let end = run(rules, progress, inputs);
            let rest = inputs.drop_first();
            let failed = |e: MQClientError|
                run(
                    rules,
                    Progress {
                        times: progress.times + 1,
                        send_result: progress.send_result,
                        exception: Some(e),
                        call_timeout: progress.call_timeout,
                    },
                    rest,
                );
            match inputs[0].reply {
                Ok(answer) => if rules.mode == CommunicationMode::Async || rules.mode
                    == CommunicationMode::Oneway {
                    end == SendEnd::Settled(Ok(None))
                } else if answer is None || answer->0.send_status == SendStatus::SendOk
                    || !rules.retry_not_stored {
                    end == SendEnd::Settled(Ok(answer))
                } else {
                    end == run(
                        rules,
                        Progress {
                            times: progress.times + 1,
                            send_result: answer,
                            exception: progress.exception,
                            call_timeout: progress.call_timeout,
                        },
                        rest,
                    )
                },
                Err(MQClientError::MQClientException(code, text)) => end == failed(
                    MQClientError::MQClientException(code, text),
                ),
                Err(MQClientError::RemotingException(text)) => end == failed(
                    MQClientError::RemotingException(text),
                ),
                Err(MQClientError::MQBrokerException(code, text, addr)) => {
                    let error = MQClientError::MQBrokerException(code, text, addr);
                    if rules.retry_codes.contains(code) {
                        end == failed(error)
                    } else if progress.send_result is Some {
                        end == SendEnd::Settled(Ok(progress.send_result))
                    } else {
                        end == SendEnd::Settled(Err(error))
                    }
                },
                Err(error) => end == SendEnd::Settled(Err(error)),
            }
        }),
{
}

/// A send is given up, as far as it has come, when its attempts are used up, when no
/// queue is found, and when its time is up, which it then remembers; it is open while
/// an attempt is due.
pub proof fn law_when_a_send_is_given_up(
    rules: SendRules,
    progress: Progress,
    inputs: Seq<AttemptInput>,
)
    ensures
        progress.times >= rules.times_total ==> run(rules, progress, inputs) == SendEnd::GaveUp(
            progress,
        ),
        progress.times < rules.times_total && inputs.len() == 0 ==> run(rules, progress, inputs)
            == SendEnd::Open(progress),
        progress.times < rules.times_total && inputs.len() > 0 && inputs[0].queue is None ==> run(
            rules,
            progress,
            inputs,
        ) == SendEnd::GaveUp(progress),
        progress.times < rules.times_total && inputs.len() > 0 && inputs[0].queue is Some
            && inputs[0].cost_time > rules.timeout ==> run(rules, progress, inputs)
            == SendEnd::GaveUp(
            Progress {
                times: progress.times,
                send_result: progress.send_result,
                exception: progress.exception,
                call_timeout: true,
            },
        ),
{
}

/// What a given-up send returns: the answer it has, or else the complaint that its
/// time was up, or else the text that lists its attempts, with the code for failures
/// if anything failed and without one if nothing did.
pub proof fn law_given_up_send_says_why(
    progress: Progress,
    failed_code: i32,
    text: Seq<char>,
    outcome: SendOutcome,
)
    ensures
        is_give_up_outcome(progress, failed_code, text, outcome) <==> match outcome {
            Ok(answer) => answer is Some && progress.send_result == answer,
            Err(MQClientError::RemotingTooMuchRequestException(t)) => progress.send_result is None
                && progress.call_timeout && t@ == "sendDefaultImpl call timeout"@,
            Err(MQClientError::MQClientException(code, t)) => progress.send_result is None
                && !progress.call_timeout && t@ == text && code == (if progress.exception is Some {
                failed_code
            } else {
                -1i32
            }),
            Err(_) => false,
        },
{
}

/// The texts of a send that is given up, and of one without a route, name the topic,
/// the attempts, the time and the brokers, and end in the advice.
pub proof fn law_texts_of_failed_sends(
    times_total: nat,
    cost: nat,
    topic: Seq<char>,
    brokers_sent: Seq<Seq<char>>,
    advice: Seq<char>,
)
    ensures
        still_failed_text(times_total, cost, topic, brokers_sent, advice) == "Send ["@ + decimal(
            times_total,
        ) + "] times, still failed, cost ["@ + decimal(cost) + "]ms, Topic:"@ + topic
            + ", BrokersSent: "@ + joined(brokers_sent, ","@) + " "@ + advice,
        no_route_text(topic, advice) == "No route info of this topic:"@ + topic + ","@ + advice,
{
}

/// The brokers that a send is said to have tried are those of its attempts, in order.
/// They are as many as the attempts that it counts when it is given up, and one more
/// if its time was up when the next was due.
pub proof fn law_tried_brokers_are_those_of_the_attempts(
    rules: SendRules,
    progress: Progress,
    inputs: Seq<AttemptInput>,
)
    ensures
        ({
            let tried = brokers_tried(rules, progress, inputs);
            &&& tried.len() <= inputs.len()
            &&& forall|i: int|
                #![trigger tried[i]]
                #![trigger inputs[i]]
                0 <= i < tried.len() ==> inputs[i].queue is Some && tried[i]
                    == inputs[i].queue->0.broker_name@
            &&& run(rules, progress, inputs) matches SendEnd::GaveUp(last) ==> {
                let made = last.times - progress.times;
                let late = progress.times + made < rules.times_total && made < inputs.len()
                    && inputs[made].queue is Some;
                tried.len() == made + (if late {
                    1int
                } else {
                    0
                })
            }
        }),
    decreases inputs.len(),
{
    let tried = brokers_tried(rules, progress, inputs);
    if progress.times < rules.times_total && inputs.len() > 0 && inputs[0].queue is Some
        && inputs[0].cost_time <= rules.timeout && settled_by(
        rules.mode,
        progress.send_result,
        inputs[0].reply,
        rules.retry_not_stored,
        rules.retry_codes,
    ) is None {
        let next = progress_after(progress, inputs[0].reply);
        let rest = inputs.drop_first();
        law_tried_brokers_are_those_of_the_attempts(rules, next, rest);
        let tried_later = brokers_tried(rules, next, rest);
        assert(run(rules, progress, inputs) == run(rules, next, rest));
        assert(tried == seq![inputs[0].queue->0.broker_name@] + tried_later);
        if run(rules, progress, inputs) is GaveUp {
            lemma_latest_answer_is_remembered(rules, next, rest);
        }
        assert forall|i: int|
            #![trigger tried[i]]
            #![trigger inputs[i]]
            0 <= i < tried.len() implies inputs[i].queue is Some && tried[i]
            == inputs[i].queue->0.broker_name@ by {
            if i > 0 {
                assert(tried[i] == tried_later[i - 1]);
                assert(rest[i - 1] == inputs[i]);
            }
        }
        if run(rules, progress, inputs) is GaveUp {
            let made = run(rules, progress, inputs)->GaveUp_0.times - progress.times;
            assert(made >= 1);
            assert(made < inputs.len() ==> rest[made - 1] == inputs[made]);
            assert(tried.len() == 1 + tried_later.len());
        }
    } else {
        assert(run(rules, progress, inputs) is GaveUp ==> run(
            rules,
            progress,
            inputs,
        )->GaveUp_0.times == progress.times);
        assert forall|i: int|
            #![trigger tried[i]]
            #![trigger inputs[i]]
            0 <= i < tried.len() implies inputs[i].queue is Some && tried[i]
            == inputs[i].queue->0.broker_name@ by {
            assert(i == 0);
            assert(inputs[0].queue is Some);
        }
    }
}

/// The list in a given-up send's text has a place for every attempt: the broker's
/// name for each that was made, and what stood there before for the others.
pub proof fn law_every_attempt_has_a_place(
    names: Seq<Seq<char>>,
    start: int,
    tried: Seq<Seq<char>>,
    i: int,
)
    requires
        0 <= i < names.len(),
    ensures
        with_tried(names, start, tried).len() == names.len(),
        start <= i < start + tried.len() ==> with_tried(names, start, tried)[i] == tried[i - start],
        i < start || i >= start + tried.len() ==> with_tried(names, start, tried)[i] == names[i],
{
}

/// A given-up send's text counts the attempts that the settings allow, and lists an
/// empty name for each that was not made.
pub proof fn law_given_up_text_lists_all_attempts<S, C>(
    producer: &DefaultMQProducerImpl<S, C>,
    rules: SendRules,
    topic: Seq<char>,
    inputs: Seq<AttemptInput>,
    cost: nat,
)
    requires
        rules.times_total >= 0,
    ensures
        exists|names: Seq<Seq<char>>|
            {
                &&& producer.given_up_text(rules, topic, inputs, cost) == "Send ["@ + decimal(
                    rules.times_total as nat,
                ) + "] times, still failed, cost ["@ + decimal(cost) + "]ms, Topic:"@ + topic
                    + ", BrokersSent: "@ + #[trigger] joined(names, ","@) + " "@
                    + producer.constants.advice_send_msg_failed@
                &&& names.len() == rules.times_total
                &&& forall|i: int|
                    0 <= i < names.len() ==> #[trigger] names[i] == if i < brokers_tried(
                        rules,
                        no_progress(),
                        inputs,
                    ).len() {
                        inputs[i].queue->0.broker_name@
                    } else {
                        Seq::<char>::empty()
                    }
            },
{
    let tried = brokers_tried(rules, no_progress(), inputs);
    let names = with_tried(
        Seq::new(rules.times_total as nat, |i: int| Seq::<char>::empty()),
        0,
        tried,
    );
    law_tried_brokers_are_those_of_the_attempts(rules, no_progress(), inputs);
    assert(producer.given_up_text(rules, topic, inputs, cost) == "Send ["@ + decimal(
        rules.times_total as nat,
    ) + "] times, still failed, cost ["@ + decimal(cost) + "]ms, Topic:"@ + topic
        + ", BrokersSent: "@ + joined(names, ","@) + " "@
        + producer.constants.advice_send_msg_failed@);
}

/// The fault strategy hears of every reply that says something of the broker: the
/// broker is kept aside if it refused or could not be reached, and counts as reachable
/// after an answer, after a failure on the client's side, and after a failed transport
/// if no detector is there to find out.
pub proof fn law_fault_reports_follow_from_replies(reply: SendOutcome, detector: bool)
    ensures
        ({
            let report = fault_report(reply, detector);
            match reply {
                Ok(_) => report == Some((false, true)),
                Err(MQClientError::MQClientException(_, _)) => report == Some((false, true)),
                Err(MQClientError::MQBrokerException(_, _, _)) => report == Some((true, false)),
                Err(MQClientError::RemotingException(_)) => report == Some((true, !detector)),
                Err(MQClientError::RemotingTooMuchRequestException(_)) => report is None,
                Err(MQClientError::RequestTimeoutException(_, _)) => report is None,
                Err(MQClientError::OffsetNotFoundException(_, _, _)) => report is None,
            }
        }),
{
}

/// An attempt that is in time goes to its broker with the time that is left, and
/// changes nothing of the send; one that is late ends it, and the send remembers only
/// that.
pub proof fn law_attempts_get_the_time_that_is_left(
    attempts: SendAttempts,
    cost_time: u64,
    step: SendStep,
)
    requires
        is_timed_step(attempts, cost_time, step),
    ensures
        cost_time <= attempts.task.timeout ==> step is Transmit && step->Transmit_attempts
            == attempts && step->Transmit_timeout + cost_time == attempts.task.timeout,
        cost_time > attempts.task.timeout ==> {
            &&& step is GiveUp
            &&& step->GiveUp_0.call_timeout
            &&& step->GiveUp_0.task == attempts.task
            &&& step->GiveUp_0.route == attempts.route
            &&& step->GiveUp_0.times_total == attempts.times_total
            &&& step->GiveUp_0.times == attempts.times
            &&& step->GiveUp_0.mq == attempts.mq
            &&& step->GiveUp_0.brokers_sent == attempts.brokers_sent
            &&& step->GiveUp_0.send_result == attempts.send_result
            &&& step->GiveUp_0.exception == attempts.exception
        },
{
}

// ---------------------------------------------------------------------------
// What the steps of a send give
// ---------------------------------------------------------------------------

/// A send that is taken on is the one that was asked for, and it is taken on exactly if
/// the producer runs. A send without a timeout has that of the settings, and one that
/// does not say otherwise is waited for.
pub proof fn law_taken_send_is_the_one_asked_for<S, C>(
    producer: &DefaultMQProducerImpl<S, C>,
    msg: Message,
    mode: CommunicationMode,
    timeout: u64,
    taken: Result<SendTask, MQClientError>,
)
    requires
        call_ensures(
            DefaultMQProducerImpl::<S, C>::send_default_impl,
            (producer, msg, mode, timeout),
            taken,
        ) || (mode == CommunicationMode::Sync && call_ensures(
            DefaultMQProducerImpl::<S, C>::send_with_timeout,
            (producer, msg, timeout),
            taken,
        )) || (mode == CommunicationMode::Sync && timeout
            == producer.producer_config.send_msg_timeout && call_ensures(
            DefaultMQProducerImpl::<S, C>::send,
            (producer, msg),
            taken,
        )),
    ensures
        taken is Ok <==> producer.service_state == ServiceState::Running,
        taken matches Ok(task) ==> task.msg == msg && task.topic == msg.topic
            && task.communication_mode == mode && task.timeout == timeout,
        taken matches Err(e) ==> e is MQClientException && e->MQClientException_0 == -1,
{
}

/// A route that messages can be sent along leads to attempts, one more than there are
/// retries in the settings if the caller waits, and one if not. Nothing has been tried,
/// answered or failed by then. Any other route leads to none.
pub proof fn law_usable_routes_lead_to_attempts<S, C>(
    producer: &DefaultMQProducerImpl<S, C>,
    task: SendTask,
    route: Option<TopicPublishInfo>,
    step: RouteStep,
)
    requires
        call_ensures(DefaultMQProducerImpl::<S, C>::route_found, (producer, task, route), step),
    ensures
        step is Attempt <==> route is Some && route->0.usable,
        step matches RouteStep::NoRoute(same) ==> same == task,
        step matches RouteStep::Attempt(attempts) ==> {
            &&& attempts.task == task
            &&& Some(attempts.route) == route
            &&& attempts.times == 0
            &&& attempts.times_total == match task.communication_mode {
                CommunicationMode::Sync => producer.producer_config.retry_times_when_send_failed
                    + 1,
                CommunicationMode::Async => 1,
                CommunicationMode::Oneway => 1,
            }
            &&& attempts.mq is None && attempts.send_result is None && attempts.exception is None
                && !attempts.call_timeout
        },
{
}

/// A repeated attempt asks for a queue away from the broker of the one before, from a
/// fresh position; the first asks without either.
pub proof fn law_repeated_attempts_look_elsewhere<S, C>(
    producer: &DefaultMQProducerImpl<S, C>,
    attempts: SendAttempts,
    selection: QueueSelection,
)
    requires
        call_ensures(
            DefaultMQProducerImpl::<S, C>::next_selection,
            (producer, &attempts),
            selection,
        ),
    ensures
        selection.route == attempts.route,
        selection.reset_index <==> attempts.times > 0,
        attempts.mq is None <==> selection.last_broker_name is None,
        attempts.mq matches Some(mq) ==> selection.last_broker_name->0@ == mq.broker_name@,
{
}

/// A repeated attempt sends to the topic that the application named, with the
/// namespace of the settings; the first sends to the topic as it is. Either notes the
/// queue and its broker, in the place of the attempt.
pub proof fn law_repeated_attempts_reset_the_topic<S, C>(
    producer: &DefaultMQProducerImpl<S, C>,
    attempts: SendAttempts,
    mq: MessageQueue,
    cost_time: u64,
    step: SendStep,
)
    requires
        attempts.well_formed(),
        attempts.times < attempts.times_total,
        call_ensures(
            DefaultMQProducerImpl::<S, C>::queue_selected,
            (producer, attempts, Some(mq), cost_time),
            step,
        ),
    ensures
        attempts.times > 0 <==> step is ResetTopic,
        step matches SendStep::ResetTopic { attempts: next, namespace, topic, cost_time: cost } ==> {
            &&& topic@ == attempts.task.topic@
            &&& namespace@ == match producer.client_config.namespace {
                Some(n) => n@,
                None => Seq::<char>::empty(),
            }
            &&& cost == cost_time
            &&& next.task == attempts.task
            &&& next.mq == Some(mq)
            &&& next.brokers_sent@[attempts.times as int] == mq.broker_name
        },
        step matches SendStep::Transmit { attempts: next, timeout } ==> {
            &&& timeout + cost_time == attempts.task.timeout
            &&& next.task == attempts.task
            &&& next.mq == Some(mq)
            &&& next.brokers_sent@[attempts.times as int] == mq.broker_name
        },
        step is Select || step is Return ==> false,
        attempts.times == 0 && cost_time > attempts.task.timeout ==> step is GiveUp,
{
}

/// The fault strategy is told of the broker of the attempt, with the time that the
/// attempt took, and of no reply that says nothing of the broker.
pub proof fn law_faults_are_those_of_the_attempt<S, C>(
    producer: &DefaultMQProducerImpl<S, C>,
    attempts: SendAttempts,
    reply: SendOutcome,
    elapsed: u64,
    next: (Option<FaultUpdate>, SendStep),
)
    requires
        attempts.mq is Some,
        call_ensures(
            DefaultMQProducerImpl::<S, C>::attempt_replied,
            (producer, attempts, reply, elapsed),
            next,
        ),
    ensures
        next.0 matches Some(update) ==> {
            &&& update.broker_name@ == attempts.mq->0.broker_name@
            &&& update.current_latency == elapsed
            &&& update.isolation <==> (reply matches Err(MQClientError::MQBrokerException(_, _, _)))
                || (reply matches Err(MQClientError::RemotingException(_)))
            &&& update.reachable <==> reply is Ok || (reply matches Err(
                MQClientError::MQClientException(_, _),
            )) || ((reply matches Err(MQClientError::RemotingException(_)))
                && !producer.mq_fault_strategy.start_detector_enable)
        },
        next.0 is None <==> match reply {
            Err(MQClientError::RemotingTooMuchRequestException(_)) => true,
            Err(MQClientError::RequestTimeoutException(_, _)) => true,
            Err(MQClientError::OffsetNotFoundException(_, _, _)) => true,
            _ => false,
        },
{
}

/// A send that is waited for returns the answer of the broker that stores the message,
/// however many of its attempts failed before in ways that are retried, up to the
/// retries of the settings.
pub proof fn law_awaited_send_returns_the_stored_answer<S, C>(
    producer: &DefaultMQProducerImpl<S, C>,
    msg: Message,
    timeout: u64,
    inputs: SendInputs,
    end: Option<SendOutcome>,
    k: int,
    answer: SendResult,
)
    requires
        producer.service_state == ServiceState::Running,
        inputs.route is Some && inputs.route->0.usable,
        call_ensures(
            DefaultMQProducerImpl::<S, C>::rehearse_send,
            (producer, msg, CommunicationMode::Sync, timeout, inputs),
            end,
        ),
        0 <= k <= producer.producer_config.retry_times_when_send_failed,
        k < inputs.attempts@.len(),
        forall|i: int|
            #![trigger inputs.attempts@[i]]
            0 <= i <= k ==> inputs.attempts@[i].queue is Some && inputs.attempts@[i].cost_time
                <= timeout,
        forall|i: int|
            #![trigger inputs.attempts@[i]]
            0 <= i < k ==> match inputs.attempts@[i].reply {
                Err(MQClientError::MQClientException(_, _)) => true,
                Err(MQClientError::RemotingException(_)) => true,
                Err(MQClientError::MQBrokerException(code, _, _)) =>
                    producer.producer_config.retry_response_codes@.contains(code),
                Ok(Some(a)) => producer.producer_config.retry_another_broker_when_not_store_ok
                    && a.send_status != SendStatus::SendOk,
                _ => false,
            },
        inputs.attempts@[k].reply == SendOutcome::Ok(Some(answer)),
        answer.send_status == SendStatus::SendOk,
    ensures
        end == Some(SendOutcome::Ok(Some(answer))),
{
    law_failed_attempts_are_made_good(producer, timeout, inputs.attempts@, k, answer);
}

/// A send that is waited for, and whose first attempt and all retries of the settings
/// fail in ways that are retried, returns an error with the code for failures; its text
/// counts the attempts and names the topic.
pub proof fn law_awaited_send_fails_after_its_retries<S, C>(
    producer: &DefaultMQProducerImpl<S, C>,
    msg: Message,
    timeout: u64,
    inputs: SendInputs,
    end: Option<SendOutcome>,
)
    requires
        producer.service_state == ServiceState::Running,
        inputs.route is Some && inputs.route->0.usable,
        call_ensures(
            DefaultMQProducerImpl::<S, C>::rehearse_send,
            (producer, msg, CommunicationMode::Sync, timeout, inputs),
            end,
        ),
        inputs.attempts@.len() > producer.producer_config.retry_times_when_send_failed,
        forall|i: int|
            #![trigger inputs.attempts@[i]]
            0 <= i <= producer.producer_config.retry_times_when_send_failed
                ==> inputs.attempts@[i].queue is Some && inputs.attempts@[i].cost_time <= timeout
                && match inputs.attempts@[i].reply {
                Err(MQClientError::MQClientException(_, _)) => true,
                Err(MQClientError::RemotingException(_)) => true,
                Err(MQClientError::MQBrokerException(code, _, _)) =>
                    producer.producer_config.retry_response_codes@.contains(code),
                _ => false,
            },
    ensures
        ({
            let total = (producer.producer_config.retry_times_when_send_failed + 1) as nat;
            &&& end is Some && end->0 is Err && end->0->Err_0 is MQClientException
            &&& end->0->Err_0->MQClientException_0 == producer.constants.broker_not_exist_exception
            &&& exists|names: Seq<Seq<char>>|
                {
                    &&& end->0->Err_0->MQClientException_1@ == "Send ["@ + decimal(total)
                        + "] times, still failed, cost ["@ + decimal(inputs.cost as nat)
                        + "]ms, Topic:"@ + msg.topic@ + ", BrokersSent: "@ + #[trigger] joined(
                        names,
                        ","@,
                    ) + " "@ + producer.constants.advice_send_msg_failed@
                    &&& names.len() == total
                    &&& forall|i: int|
                        0 <= i < total ==> #[trigger] names[i]
                            == inputs.attempts@[i].queue->0.broker_name@
                }
        }),
{
    let rules = producer.send_rules(CommunicationMode::Sync, timeout);
    let attempts = inputs.attempts@;
    law_retries_are_not_exceeded(producer, timeout, attempts);
    law_tried_brokers_are_those_of_the_attempts(rules, no_progress(), attempts);
    law_given_up_text_lists_all_attempts(
        producer,
        rules,
        msg.topic@,
        attempts,
        inputs.cost as nat,
    );
    let total = (producer.producer_config.retry_times_when_send_failed + 1) as nat;
    assert(rules.times_total as nat == total);
    assert(brokers_tried(rules, no_progress(), attempts).len() == total);
}

/// A send of a producer that does not run, and one to a topic without a route that
/// messages can be sent along, return an error at once, whatever attempts would meet
/// with: the one for the state, for missing name servers, or for the missing route.
pub proof fn law_send_needs_a_running_producer_and_a_route<S, C>(
    producer: &DefaultMQProducerImpl<S, C>,
    msg: Message,
    mode: CommunicationMode,
    timeout: u64,
    inputs: SendInputs,
    end: Option<SendOutcome>,
)
    requires
        call_ensures(
            DefaultMQProducerImpl::<S, C>::rehearse_send,
            (producer, msg, mode, timeout, inputs),
            end,
        ),
        producer.service_state != ServiceState::Running || inputs.route is None
            || !inputs.route->0.usable,
    ensures
        end is Some && end->0 is Err && end->0->Err_0 is MQClientException,
        ({
            let code = end->0->Err_0->MQClientException_0;
            let text = end->0->Err_0->MQClientException_1@;
            if producer.service_state != ServiceState::Running {
                code == -1
            } else if inputs.name_servers@.len() == 0 {
                code == producer.constants.no_name_server_exception && text
                    == "No name server address, please set it. "@
                    + producer.constants.advice_name_server_addr_not_exist@
            } else {
                code == producer.constants.not_found_topic_exception && text
                    == "No route info of this topic:"@ + msg.topic@ + ","@
                    + producer.constants.advice_no_topic_route_info@
            }
        }),
{
}

} // verus!
