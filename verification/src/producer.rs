//! The producer itself: its parts, its rules about its own state, its hooks.

use std::sync::Arc;
use tokio::sync::{RwLock, Semaphore};
use vstd::prelude::*;
use vstd::string::*;

use crate::config::{ClientConfig, ProducerConfig, ProtocolConstants};
use crate::error::{is_client_exception, MQClientError, UNCODED};
use crate::hook::{
    answered, common_answer, told_after, told_before, CheckForbiddenContext, CheckForbiddenHook,
    SendMessageContext, SendMessageHook,
};
use crate::outside::{lock_table, max_permits, routes_when_locked, semaphore_permits};
use crate::topic_route::PublishInfoTable;
use crate::types::{
    state_name, FaultUpdate, MQFaultStrategy, QueueSelection, ServiceState, TopicPublishInfo,
};

verus! {

broadcast use vstd::string::group_string_axioms;

/// A producer, with send hooks of type `S` and forbidding hooks of type `C`.
///
/// What it does outside itself (asking name servers, talking to brokers, reading
/// the clock) it hands to its caller, who hands back what came of it. Producers,
/// clients, RPC hooks and transaction hooks are known by the numbers under which the
/// caller keeps them.
pub struct DefaultMQProducerImpl<S, C> {
    pub producer_id: u64,
    pub client_config: ClientConfig,
    pub producer_config: Arc<ProducerConfig>,
    pub constants: ProtocolConstants,
    /// The producer's routes, which it shares with its clones.
    pub topic_publish_info_table: Arc<RwLock<PublishInfoTable>>,
    pub send_message_hook_list: Vec<S>,
    /// The numbers of the hooks that hear of the ends of transactions.
    pub end_transaction_hook_list: Vec<u64>,
    pub check_forbidden_hook_list: Vec<C>,
    pub rpc_hook: Option<u64>,
    pub service_state: ServiceState,
    pub client_instance: Option<u64>,
    pub mq_fault_strategy: MQFaultStrategy,
    pub semaphore_async_send_num: Arc<Semaphore>,
    pub semaphore_async_send_size: Arc<Semaphore>,
}

/// The fewest sends that may be under way at once.
pub const MIN_ASYNC_SEND_NUM: u32 = 10;

/// The fewest bytes that may be under way at once.
pub const MIN_ASYNC_SEND_SIZE: u32 = 1048576;

/// `value`, raised to `floor` if it is below.
pub open spec fn at_least(value: u32, floor: u32) -> u32 {
    if value < floor {
        floor
    } else {
        value
    }
}

fn raise_to(value: u32, floor: u32) -> (raised: u32)
    ensures
        raised == at_least(value, floor),
{
    if value < floor {
        floor
    } else {
        value
    }
}

/// What a producer that is not running says.
pub open spec fn not_running_text(state: ServiceState, advice: Seq<char>) -> Seq<char> {
    "The producer service state not OK, "@ + state_name(state) + " "@ + advice
}

/// What a producer without name servers says.
pub open spec fn no_name_server_text(advice: Seq<char>) -> Seq<char> {
    "No name server address, please set it. "@ + advice
}

/// What a producer in the reserved group says.
pub open spec fn default_group_text(group: Seq<char>) -> Seq<char> {
    "The specified group name["@ + group
        + "] is equal to default group, please specify another one."@
}

/// `copies` are clones of `items`, one of each, in order.
pub open spec fn are_clones<T: Clone>(items: Seq<T>, copies: Seq<T>) -> bool {
    &&& copies.len() == items.len()
    &&& forall|i: int| 0 <= i < items.len() ==> cloned(#[trigger] items[i], copies[i])
}

impl<S, C> DefaultMQProducerImpl<S, C> {
    /// A running producer has a client.
    pub open spec fn well_formed(&self) -> bool {
        self.service_state == ServiceState::Running ==> self.client_instance is Some
    }

    /// A producer that was not started yet, without hooks and without routes.
    /// No RPC hook is kept, whichever was given.
    pub fn new(
        producer_id: u64,
        client_config: ClientConfig,
        producer_config: ProducerConfig,
        rpc_hook: Option<u64>,
        constants: ProtocolConstants,
        mq_fault_strategy: MQFaultStrategy,
    ) -> (producer: Self)
        requires
            at_least(producer_config.back_pressure_for_async_send_num, MIN_ASYNC_SEND_NUM)
                <= max_permits(),
            at_least(producer_config.back_pressure_for_async_send_size, MIN_ASYNC_SEND_SIZE)
                <= max_permits(),
        ensures
            producer.well_formed(),
            producer.producer_id == producer_id,
            producer.client_config == client_config,
            *producer.producer_config == producer_config,
            producer.constants == constants,
            routes_when_locked(*producer.topic_publish_info_table) == Map::<
                Seq<char>,
                TopicPublishInfo,
            >::empty(),
            producer.send_message_hook_list@ == Seq::<S>::empty(),
            producer.end_transaction_hook_list@ == Seq::<u64>::empty(),
            producer.check_forbidden_hook_list@ == Seq::<C>::empty(),
            producer.rpc_hook is None,
            producer.service_state == ServiceState::CreateJust,
            producer.client_instance is None,
            producer.mq_fault_strategy == mq_fault_strategy,
            semaphore_permits(*producer.semaphore_async_send_num) == at_least(
                producer_config.back_pressure_for_async_send_num,
                MIN_ASYNC_SEND_NUM,
            ),
            semaphore_permits(*producer.semaphore_async_send_size) == at_least(
                producer_config.back_pressure_for_async_send_size,
                MIN_ASYNC_SEND_SIZE,
            ),
    {
        let send_num: u32 = raise_to(
            producer_config.back_pressure_for_async_send_num,
            MIN_ASYNC_SEND_NUM,
        );
        let send_size: u32 = raise_to(
            producer_config.back_pressure_for_async_send_size,
            MIN_ASYNC_SEND_SIZE,
        );
        DefaultMQProducerImpl {
            producer_id,
            client_config,
            producer_config: Arc::new(producer_config),
            constants,
            topic_publish_info_table: Arc::new(lock_table(PublishInfoTable::new())),
            send_message_hook_list: Vec::new(),
            end_transaction_hook_list: Vec::new(),
            check_forbidden_hook_list: Vec::new(),
            rpc_hook: None,
            service_state: ServiceState::CreateJust,
            client_instance: None,
            mq_fault_strategy,
            semaphore_async_send_num: Arc::new(Semaphore::new(send_num as usize)),
            semaphore_async_send_size: Arc::new(Semaphore::new(send_size as usize)),
        }
    }

    /// Refuses work unless the producer is running.
    pub fn make_sure_state_ok(&self) -> (verdict: Result<(), MQClientError>)
        ensures
            verdict is Ok <==> self.service_state == ServiceState::Running,
            verdict matches Err(e) ==> is_client_exception(
                e,
                UNCODED,
                not_running_text(
                    self.service_state,
                    self.constants.advice_client_service_not_ok@,
                ),
            ),
    {
        if self.service_state != ServiceState::Running {
            let mut text = "The producer service state not OK, ".to_string();
            text.append(self.service_state.name());
            text.append(" ");
            text.append(self.constants.advice_client_service_not_ok.as_str());
            return Err(MQClientError::MQClientException(UNCODED, text));
        }
        Ok(())
    }

    /// Refuses to go on without a name server. `name_servers` are the addresses
    /// that the producer's client knows.
    pub fn validate_name_server_setting(&self, name_servers: &Vec<String>) -> (verdict: Result<
        (),
        MQClientError,
    >)
        ensures
            verdict is Ok <==> name_servers@.len() > 0,
            verdict matches Err(e) ==> is_client_exception(
                e,
                self.constants.no_name_server_exception,
                no_name_server_text(self.constants.advice_name_server_addr_not_exist@),
            ),
    {
        if name_servers.len() == 0 {
            let mut text = "No name server address, please set it. ".to_string();
            text.append(self.constants.advice_name_server_addr_not_exist.as_str());
            return Err(
                MQClientError::MQClientException(self.constants.no_name_server_exception, text),
            );
        }
        Ok(())
    }

    /// Judges the producer's settings. `group_check` says whether the group's name
    /// is a valid one; a valid name must also not be the reserved one.
    pub fn check_config(&self, group_check: Result<(), MQClientError>) -> (verdict: Result<
        (),
        MQClientError,
    >)
        ensures
            group_check is Err ==> verdict == group_check,
            group_check is Ok ==> (verdict is Ok <==> self.producer_config.producer_group@
                != self.constants.default_producer_group@),
            group_check is Ok ==> (verdict matches Err(e) ==> is_client_exception(
                e,
                UNCODED,
                default_group_text(self.constants.default_producer_group@),
            )),
    {
        match group_check {
            Err(e) => Err(e),
            Ok(_) => {
                if self.producer_config.producer_group == self.constants.default_producer_group {
                    let mut text = "The specified group name[".to_string();
                    text.append(self.constants.default_producer_group.as_str());
                    text.append("] is equal to default group, please specify another one.");
                    return Err(MQClientError::MQClientException(UNCODED, text));
                }
                Ok(())
            },
        }
    }

    /// Whether the producer belongs to one unit of a divided deployment.
    pub fn is_unit_mode(&self) -> (yes: bool)
        ensures
            yes == self.client_config.unit_mode,
    {
        self.client_config.unit_mode
    }

    // -----------------------------------------------------------------------
    // The fault strategy
    // -----------------------------------------------------------------------

    /// Switches the weighing of latencies on or off.
    pub fn set_send_latency_fault_enable(&mut self, send_latency_fault_enable: bool)
        ensures
            old(self).well_formed() ==> final(self).well_formed(),
            *final(self) == (DefaultMQProducerImpl {
                mq_fault_strategy: MQFaultStrategy {
                    send_latency_fault_enable,
                    ..old(self).mq_fault_strategy
                },
                ..*old(self)
            }),
    {
        self.mq_fault_strategy.send_latency_fault_enable = send_latency_fault_enable;
    }

    /// The report that a broker took `current_latency` milliseconds, and whether
    /// it is to be kept aside and can be reached.
    pub fn update_fault_item(
        &self,
        broker_name: &str,
        current_latency: u64,
        isolation: bool,
        reachable: bool,
    ) -> (update: FaultUpdate)
        ensures
            update.broker_name@ == broker_name@,
            update.current_latency == current_latency,
            update.isolation == isolation,
            update.reachable == reachable,
    {
        FaultUpdate { broker_name: broker_name.to_string(), current_latency, isolation, reachable }
    }

    /// The question for a queue of a route.
    pub fn select_one_message_queue(
        &self,
        tp_info: &TopicPublishInfo,
        last_broker_name: Option<&str>,
        reset_index: bool,
    ) -> (selection: QueueSelection)
        ensures
            selection.route == *tp_info,
            match last_broker_name {
                Some(name) => selection.last_broker_name is Some
                    && selection.last_broker_name->0@ == name@,
                None => selection.last_broker_name is None,
            },
            selection.reset_index == reset_index,
    {
        let last_broker_name = match last_broker_name {
            Some(name) => Some(name.to_string()),
            None => None,
        };
        QueueSelection { route: *tp_info, last_broker_name, reset_index }
    }

    // -----------------------------------------------------------------------
    // Hooks
    // -----------------------------------------------------------------------

    /// Whether anyone is to be told of messages.
    pub fn has_send_message_hook(&self) -> (yes: bool)
        ensures
            yes == (self.send_message_hook_list@.len() > 0),
    {
        self.send_message_hook_list.len() != 0
    }

    /// Whether anyone is to be asked about messages.
    pub fn has_check_forbidden_hook(&self) -> (yes: bool)
        ensures
            yes == (self.check_forbidden_hook_list@.len() > 0),
    {
        self.check_forbidden_hook_list.len() != 0
    }
}

/// A clone has state and settings of its own, and shares the routes, the semaphores
/// and the producer's settings. Its hooks are clones of the hooks. Its fault strategy
/// is set up as the other's is at the moment; that later changes of one reach the
/// other is left to the caller, who keeps the strategy.
impl<S: Clone, C: Clone> Clone for DefaultMQProducerImpl<S, C> {
    fn clone(&self) -> (copy: Self)
        ensures
            copy.shares_routes_with(self),
            self.well_formed() ==> copy.well_formed(),
            copy == (DefaultMQProducerImpl {
                send_message_hook_list: copy.send_message_hook_list,
                end_transaction_hook_list: copy.end_transaction_hook_list,
                check_forbidden_hook_list: copy.check_forbidden_hook_list,
                ..*self
            }),
            copy.end_transaction_hook_list@ == self.end_transaction_hook_list@,
            are_clones(self.send_message_hook_list@, copy.send_message_hook_list@),
            are_clones(self.check_forbidden_hook_list@, copy.check_forbidden_hook_list@),
    {
        DefaultMQProducerImpl {
            producer_id: self.producer_id,
            client_config: self.client_config.duplicate(),
            producer_config: self.producer_config.clone(),
            constants: self.constants.duplicate(),
            topic_publish_info_table: self.topic_publish_info_table.clone(),
            send_message_hook_list: self.send_message_hook_list.clone(),
            end_transaction_hook_list: self.end_transaction_hook_list.clone(),
            check_forbidden_hook_list: self.check_forbidden_hook_list.clone(),
            rpc_hook: self.rpc_hook,
            service_state: self.service_state,
            client_instance: self.client_instance,
            mq_fault_strategy: self.mq_fault_strategy,
            semaphore_async_send_num: self.semaphore_async_send_num.clone(),
            semaphore_async_send_size: self.semaphore_async_send_size.clone(),
        }
    }
}

impl<S: SendMessageHook, C> DefaultMQProducerImpl<S, C> {
    /// Tells every send hook of a message that is about to leave. The contract says
    /// that each was told, not in which order or how often.
    pub fn execute_send_message_hook_before(&self, context: &Option<SendMessageContext>)
        ensures
            told_before(self.send_message_hook_list@, *context),
    {
        let mut i: usize = 0;
        while i < self.send_message_hook_list.len()
            invariant
                i <= self.send_message_hook_list@.len(),
                told_before(self.send_message_hook_list@.take(i as int), *context),
            decreases self.send_message_hook_list@.len() - i,
        {
            self.send_message_hook_list[i].send_message_before(context);
            proof {
                let hooks = self.send_message_hook_list@;
                let told = hooks.take(i + 1);
                assert forall|j: int| 0 <= j < told.len() implies call_ensures(
                    S::send_message_before,
                    (&#[trigger] told[j], context),
                    (),
                ) by {
                    if j < i {
                        assert(told[j] == hooks.take(i as int)[j]);
                    }
                }
            }
            i += 1;
        }
        assert(self.send_message_hook_list@.take(i as int) =~= self.send_message_hook_list@);
    }

    /// Tells every send hook of a message that has left, or failed to. The contract
    /// says that each was told, not in which order or how often.
    pub fn execute_send_message_hook_after(&self, context: &Option<SendMessageContext>)
        ensures
            told_after(self.send_message_hook_list@, *context),
    {
        let mut i: usize = 0;
        while i < self.send_message_hook_list.len()
            invariant
                i <= self.send_message_hook_list@.len(),
                told_after(self.send_message_hook_list@.take(i as int), *context),
            decreases self.send_message_hook_list@.len() - i,
        {
            self.send_message_hook_list[i].send_message_after(context);
            proof {
                let hooks = self.send_message_hook_list@;
                let told = hooks.take(i + 1);
                assert forall|j: int| 0 <= j < told.len() implies call_ensures(
                    S::send_message_after,
                    (&#[trigger] told[j], context),
                    (),
                ) by {
                    if j < i {
                        assert(told[j] == hooks.take(i as int)[j]);
                    }
                }
            }
            i += 1;
        }
        assert(self.send_message_hook_list@.take(i as int) =~= self.send_message_hook_list@);
    }
}

impl<S, C: CheckForbiddenHook> DefaultMQProducerImpl<S, C> {
    /// Asks the forbidding hooks, in order, until one refuses. The contract gives the
    /// common answer and says which hooks gave the answers behind it; that no hook is
    /// asked twice, or after a refusal, it does not say.
    pub fn execute_check_forbidden_hook(&self, context: &CheckForbiddenContext<'_>) -> (answer:
        Result<(), MQClientError>)
        ensures
            exists|verdicts: Seq<Result<(), MQClientError>>|
                #![trigger answered(self.check_forbidden_hook_list@, *context, verdicts)]
                answered(self.check_forbidden_hook_list@, *context, verdicts) && common_answer(
                    verdicts,
                    self.check_forbidden_hook_list@.len(),
                    answer,
                ),
    {
        let ghost mut verdicts: Seq<Result<(), MQClientError>> = Seq::empty();
        let mut i: usize = 0;
        while i < self.check_forbidden_hook_list.len()
            invariant
                i <= self.check_forbidden_hook_list@.len(),
                verdicts.len() == i,
                answered(self.check_forbidden_hook_list@, *context, verdicts),
                forall|j: int| 0 <= j < i ==> (#[trigger] verdicts[j]) is Ok,
            decreases self.check_forbidden_hook_list@.len() - i,
        {
            let verdict = self.check_forbidden_hook_list[i].check_forbidden(context);
            proof {
                verdicts = verdicts.push(verdict);
                assert(answered(self.check_forbidden_hook_list@, *context, verdicts));
            }
            if verdict.is_err() {
                return verdict;
            }
            i += 1;
        }
        Ok(())
    }
}

// ---------------------------------------------------------------------------
// Laws
// ---------------------------------------------------------------------------

/// A semaphore's permits are as configured, but never below the floor: ten sends, and
/// two to the power of twenty bytes.
pub proof fn law_permits_do_not_fall_below_the_floor(value: u32, floor: u32)
    ensures
        at_least(value, floor) >= value,
        at_least(value, floor) >= floor,
        at_least(value, floor) == value || at_least(value, floor) == floor,
        MIN_ASYNC_SEND_NUM == 10,
        MIN_ASYNC_SEND_SIZE == 1024 * 1024,
{
}

/// The texts of refusals name what is wrong and end in the advice.
pub proof fn law_texts_of_refusals(state: ServiceState, group: Seq<char>, advice: Seq<char>)
    ensures
        not_running_text(state, advice) == "The producer service state not OK, "@ + (match state {
            ServiceState::CreateJust => "CreateJust"@,
            ServiceState::Running => "Running"@,
            ServiceState::ShutdownAlready => "ShutdownAlready"@,
            ServiceState::StartFailed => "StartFailed"@,
        }) + " "@ + advice,
        no_name_server_text(advice) == "No name server address, please set it. "@ + advice,
        default_group_text(group) == "The specified group name["@ + group
            + "] is equal to default group, please specify another one."@,
{
}

/// A producer is well formed exactly if it has a client whenever it runs.
pub proof fn law_running_producer_has_a_client<S, C>(producer: &DefaultMQProducerImpl<S, C>)
    ensures
        producer.well_formed() <==> (producer.service_state != ServiceState::Running
            || producer.client_instance is Some),
{
}

/// Copies of a list are clones, entry by entry.
pub proof fn law_clones_are_entry_by_entry<T: Clone>(items: Seq<T>, copies: Seq<T>, i: int)
    requires
        are_clones(items, copies),
    ensures
        copies.len() == items.len(),
        0 <= i < items.len() ==> cloned(items[i], copies[i]),
{
}

/// Work is refused exactly if the producer does not run, a missing name server exactly
/// if there is none, and a group exactly if its name is invalid or the reserved one.
pub proof fn law_what_is_refused<S, C>(
    producer: &DefaultMQProducerImpl<S, C>,
    work: Result<(), MQClientError>,
    name_servers: Vec<String>,
    servers: Result<(), MQClientError>,
    group_check: Result<(), MQClientError>,
    group: Result<(), MQClientError>,
)
    requires
        call_ensures(DefaultMQProducerImpl::<S, C>::make_sure_state_ok, (producer,), work),
        call_ensures(
            DefaultMQProducerImpl::<S, C>::validate_name_server_setting,
            (producer, &name_servers),
            servers,
        ),
        call_ensures(DefaultMQProducerImpl::<S, C>::check_config, (producer, group_check), group),
    ensures
        work is Err <==> producer.service_state != ServiceState::Running,
        work matches Err(e) ==> e is MQClientException && e->MQClientException_0 == -1,
        servers is Err <==> name_servers@.len() == 0,
        servers matches Err(e) ==> e is MQClientException && e->MQClientException_0
            == producer.constants.no_name_server_exception,
        group is Err <==> group_check is Err || producer.producer_config.producer_group@
            == producer.constants.default_producer_group@,
        group_check is Err ==> group == group_check,
        group_check is Ok ==> (group matches Err(e) ==> e is MQClientException
            && e->MQClientException_0 == -1),
{
}

/// What the fault strategy is told, and asked, is what the producer was given to tell
/// and to ask.
pub proof fn law_fault_strategy_gets_what_was_given<S, C>(
    producer: &DefaultMQProducerImpl<S, C>,
    broker_name: &str,
    latency: u64,
    isolation: bool,
    reachable: bool,
    update: FaultUpdate,
    route: TopicPublishInfo,
    last_broker: Option<&str>,
    reset_index: bool,
    selection: QueueSelection,
)
    requires
        call_ensures(
            DefaultMQProducerImpl::<S, C>::update_fault_item,
            (producer, broker_name, latency, isolation, reachable),
            update,
        ),
        call_ensures(
            DefaultMQProducerImpl::<S, C>::select_one_message_queue,
            (producer, &route, last_broker, reset_index),
            selection,
        ),
    ensures
        update.broker_name@ == broker_name@,
        update.current_latency == latency,
        update.isolation == isolation,
        update.reachable == reachable,
        selection.route == route,
        selection.reset_index == reset_index,
        match (selection.last_broker_name, last_broker) {
            (Some(name), Some(last)) => name@ == last@,
            (None, None) => true,
            _ => false,
        },
{
}

} // verus!
