//! Starting a producer: the settings are judged, a client is found, the producer
//! is registered with it, and the client and the detector of faults are started.
//! While a start is under way the producer counts as one that failed to start, and
//! only such a producer can take the steps.

use vstd::prelude::*;
use vstd::string::*;

use crate::config::ClientConfig;
use crate::error::{is_client_exception, MQClientError, UNCODED};
use crate::producer::{default_group_text, DefaultMQProducerImpl};
use crate::types::{state_name, MQFaultStrategy, ServiceState};

verus! {

broadcast use vstd::string::group_string_axioms;

/// A start that waits for a verdict on the name of the producer's group.
pub struct GroupCheck {
    pub producer_group: String,
    pub start_factory: bool,
}

/// A start that waits for the name under which this process's client is known.
pub struct InstanceRename {
    pub start_factory: bool,
}

/// A start that waits for a client with these settings, found or made.
pub struct InstanceRequest {
    pub client_config: ClientConfig,
    pub rpc_hook: Option<u64>,
    pub start_factory: bool,
}

/// A start that waits for the client to take the producer on.
pub struct Registration {
    pub producer: u64,
    pub producer_group: String,
    pub client_instance: u64,
    pub start_factory: bool,
}

/// A start that waits for the client to start.
pub struct FactoryStart {
    pub client_instance: u64,
}

/// A start that waits for the detector of faults to start.
pub struct DetectorStart {}

/// How a start goes on once the settings were judged.
pub enum ConfigStep {
    Rename(InstanceRename),
    Request(InstanceRequest),
}

/// How a start goes on once the producer was registered.
pub enum RegisteredStep {
    StartFactory(FactoryStart),
    StartDetector(DetectorStart),
}

// ---------------------------------------------------------------------------
// The rules
// ---------------------------------------------------------------------------

/// The text of a start in a state that allows none.
pub open spec fn no_start_text(state: ServiceState, advice: Seq<char>) -> Seq<char> {
    if state == ServiceState::StartFailed {
        "The producer service state not OK, maybe started once,"@ + state_name(state) + ","@
            + advice
    } else {
        "The producer service state is "@ + state_name(state)
    }
}

/// The text of a start in a group that the client has a producer for.
pub open spec fn group_taken_text(group: Seq<char>, advice: Seq<char>) -> Seq<char> {
    "The producer group["@ + group
        + "] has been created before, specify another name please. "@ + advice
}

/// A fault strategy that reaches brokers through a client.
pub open spec fn wired_strategy(strategy: MQFaultStrategy, client_instance: u64) -> MQFaultStrategy {
    MQFaultStrategy {
        resolver: Some(client_instance),
        service_detector: Some(client_instance),
        ..strategy
    }
}

/// Where a start leads from `state`.
pub open spec fn state_after_start(
    state: ServiceState,
    config_ok: bool,
    register_ok: bool,
    start_factory: bool,
    factory_ok: bool,
) -> ServiceState {
    if state != ServiceState::CreateJust {
        state
    } else if !config_ok {
        ServiceState::StartFailed
    } else if !register_ok {
        ServiceState::CreateJust
    } else if start_factory && !factory_ok {
        ServiceState::StartFailed
    } else {
        ServiceState::Running
    }
}

/// What a start meets with: the verdict on the group's name, the name of the
/// client, its number, whether it takes the producer on, whether it starts.
pub struct StartInputs {
    pub group_check: Result<(), MQClientError>,
    pub instance_name: String,
    pub client_instance: u64,
    pub register_ok: bool,
    pub factory: Result<(), MQClientError>,
}

impl<S, C> DefaultMQProducerImpl<S, C> {
    /// The settings pass: the group's name is valid and not the reserved one.
    pub open spec fn config_ok(&self, group_check: Result<(), MQClientError>) -> bool {
        group_check is Ok && self.producer_config.producer_group@
            != self.constants.default_producer_group@
    }

    /// The producer is one of the client's own, which shares its name.
    pub open spec fn is_inner(&self) -> bool {
        self.producer_config.producer_group@ == self.constants.client_inner_producer_group@
    }

    /// The settings under which a client is looked for.
    pub open spec fn started_client_config(&self, instance_name: String) -> ClientConfig {
        if self.is_inner() {
            self.client_config
        } else {
            ClientConfig { instance_name, ..self.client_config }
        }
    }

    /// `e` is the error of a start that meets with `inputs` and fails: of the first
    /// thing that stands in its way.
    pub open spec fn is_start_error(&self, inputs: StartInputs, e: MQClientError) -> bool {
        if self.service_state != ServiceState::CreateJust {
            is_client_exception(
                e,
                UNCODED,
                no_start_text(self.service_state, self.constants.advice_client_service_not_ok@),
            )
        } else if inputs.group_check is Err {
            e == inputs.group_check->Err_0
        } else if !self.config_ok(inputs.group_check) {
            is_client_exception(
                e,
                UNCODED,
                default_group_text(self.constants.default_producer_group@),
            )
        } else if !inputs.register_ok {
            is_client_exception(
                e,
                UNCODED,
                group_taken_text(
                    self.producer_config.producer_group@,
                    self.constants.advice_group_name_duplicate@,
                ),
            )
        } else {
            inputs.factory == Result::<(), MQClientError>::Err(e)
        }
    }

    /// Begins a start that includes the client's.
    pub fn start(&mut self) -> (begun: Result<GroupCheck, MQClientError>)
        ensures
            old(self).well_formed() ==> final(self).well_formed(),
            begun is Ok <==> old(self).service_state == ServiceState::CreateJust,
            begun matches Ok(check) ==> {
                &&& check.producer_group@ == old(self).producer_config.producer_group@
                &&& check.start_factory
                &&& *final(self) == (DefaultMQProducerImpl {
                    service_state: ServiceState::StartFailed,
                    ..*old(self)
                })
            },
            begun matches Err(e) ==> *final(self) == *old(self) && is_client_exception(
                e,
                UNCODED,
                no_start_text(
                    old(self).service_state,
                    old(self).constants.advice_client_service_not_ok@,
                ),
            ),
    {
        self.start_with_factory(true)
    }

    /// Begins a start. Until it ends well the producer counts as one that failed
    /// to start.
    pub fn start_with_factory(&mut self, start_factory: bool) -> (begun: Result<
        GroupCheck,
        MQClientError,
    >)
        ensures
            old(self).well_formed() ==> final(self).well_formed(),
            begun is Ok <==> old(self).service_state == ServiceState::CreateJust,
            begun matches Ok(check) ==> {
                &&& check.producer_group@ == old(self).producer_config.producer_group@
                &&& check.start_factory == start_factory
                &&& *final(self) == (DefaultMQProducerImpl {
                    service_state: ServiceState::StartFailed,
                    ..*old(self)
                })
            },
            begun matches Err(e) ==> *final(self) == *old(self) && is_client_exception(
                e,
                UNCODED,
                no_start_text(
                    old(self).service_state,
                    old(self).constants.advice_client_service_not_ok@,
                ),
            ),
    {
        proof {
            reveal_strlit("The producer service state is Running");
            reveal_strlit("The producer service state is ShutdownAlready");
            reveal_strlit("The producer service state is ");
            reveal_strlit("Running");
            reveal_strlit("ShutdownAlready");
        }
        match self.service_state {
            ServiceState::CreateJust => {
                self.service_state = ServiceState::StartFailed;
                Ok(
                    GroupCheck {
                        producer_group: self.producer_config.producer_group.clone(),
                        start_factory,
                    },
                )
            },
            ServiceState::Running => {
                let text = "The producer service state is Running".to_string();
                assert(text@ =~= no_start_text(
                    self.service_state,
                    self.constants.advice_client_service_not_ok@,
                ));
                Err(MQClientError::MQClientException(UNCODED, text))
            },
            ServiceState::ShutdownAlready => {
                let text = "The producer service state is ShutdownAlready".to_string();
                assert(text@ =~= no_start_text(
                    self.service_state,
                    self.constants.advice_client_service_not_ok@,
                ));
                Err(MQClientError::MQClientException(UNCODED, text))
            },
            ServiceState::StartFailed => {
                let mut text = "The producer service state not OK, maybe started once,".to_string();
                text.append(self.service_state.name());
                text.append(",");
                text.append(self.constants.advice_client_service_not_ok.as_str());
                Err(MQClientError::MQClientException(UNCODED, text))
            },
        }
    }

    fn instance_request(&self, start_factory: bool) -> (request: InstanceRequest)
        ensures
            request == (InstanceRequest {
                client_config: self.client_config,
                rpc_hook: self.rpc_hook,
                start_factory,
            }),
    {
        InstanceRequest {
            client_config: self.client_config.duplicate(),
            rpc_hook: self.rpc_hook,
            start_factory,
        }
    }

    /// Goes on once the name of the producer's group was judged.
    pub fn group_checked(
        &self,
        check: GroupCheck,
        group_check: Result<(), MQClientError>,
    ) -> (step: Result<ConfigStep, MQClientError>)
        ensures
            step is Ok <==> self.config_ok(group_check),
            step matches Ok(s) ==> s == if self.is_inner() {
                ConfigStep::Request(
                    InstanceRequest {
                        client_config: self.client_config,
                        rpc_hook: self.rpc_hook,
                        start_factory: check.start_factory,
                    },
                )
            } else {
                ConfigStep::Rename(InstanceRename { start_factory: check.start_factory })
            },
            step is Ok <==> group_check is Ok && self.producer_config.producer_group@
                != self.constants.default_producer_group@,
            step matches Ok(s) ==> (s is Rename <==> self.producer_config.producer_group@
                != self.constants.client_inner_producer_group@),
            step matches Err(e) ==> if group_check is Err {
                group_check == Result::<(), MQClientError>::Err(e)
            } else {
                is_client_exception(
                    e,
                    UNCODED,
                    default_group_text(self.constants.default_producer_group@),
                )
            },
    {
        match self.check_config(group_check) {
            Err(e) => Err(e),
            Ok(_) => {
                if self.producer_config.producer_group
                    != self.constants.client_inner_producer_group {
                    Ok(ConfigStep::Rename(InstanceRename { start_factory: check.start_factory }))
                } else {
                    Ok(ConfigStep::Request(self.instance_request(check.start_factory)))
                }
            },
        }
    }

    /// Goes on once the client's name for this process is known.
    pub fn instance_renamed(&mut self, rename: InstanceRename, instance_name: String) -> (request:
        InstanceRequest)
        requires
            old(self).service_state == ServiceState::StartFailed,
        ensures
            old(self).well_formed() ==> final(self).well_formed(),
            *final(self) == (DefaultMQProducerImpl {
                client_config: ClientConfig { instance_name, ..old(self).client_config },
                ..*old(self)
            }),
            request == (InstanceRequest {
                client_config: final(self).client_config,
                rpc_hook: old(self).rpc_hook,
                start_factory: rename.start_factory,
            }),
    {
        self.client_config.instance_name = instance_name;
        self.instance_request(rename.start_factory)
    }

    /// Goes on once there is a client: the fault strategy, too, reaches brokers
    /// through it.
    pub fn instance_acquired(&mut self, request: InstanceRequest, client_instance: u64) -> (
    registration: Registration)
        requires
            old(self).service_state == ServiceState::StartFailed,
        ensures
            final(self).well_formed(),
            *final(self) == (DefaultMQProducerImpl {
                client_instance: Some(client_instance),
                mq_fault_strategy: wired_strategy(old(self).mq_fault_strategy, client_instance),
                ..*old(self)
            }),
            registration == (Registration {
                producer: old(self).producer_id,
                producer_group: old(self).producer_config.producer_group,
                client_instance,
                start_factory: request.start_factory,
            }),
    {
        self.mq_fault_strategy.resolver = Some(client_instance);
        self.mq_fault_strategy.service_detector = Some(client_instance);
        self.client_instance = Some(client_instance);
        Registration {
            producer: self.producer_id,
            producer_group: self.producer_config.producer_group.clone(),
            client_instance,
            start_factory: request.start_factory,
        }
    }

    /// Goes on once the client took the producer on, or did not because it has one
    /// of the same group. In that case the producer is as before its start, but for
    /// its client, and may be started again.
    pub fn registered(&mut self, registration: Registration, register_ok: bool) -> (step: Result<
        RegisteredStep,
        MQClientError,
    >)
        requires
            old(self).service_state == ServiceState::StartFailed,
        ensures
            old(self).well_formed() ==> final(self).well_formed(),
            step is Ok <==> register_ok,
            step matches Ok(s) ==> *final(self) == *old(self) && s
                == if registration.start_factory {
                RegisteredStep::StartFactory(
                    FactoryStart { client_instance: registration.client_instance },
                )
            } else {
                RegisteredStep::StartDetector(DetectorStart {  })
            },
            step matches Err(e) ==> *final(self) == (DefaultMQProducerImpl {
                service_state: ServiceState::CreateJust,
                ..*old(self)
            }) && is_client_exception(
                e,
                UNCODED,
                group_taken_text(
                    old(self).producer_config.producer_group@,
                    old(self).constants.advice_group_name_duplicate@,
                ),
            ),
    {
        if !register_ok {
            self.service_state = ServiceState::CreateJust;
            let mut text = "The producer group[".to_string();
            text.append(self.producer_config.producer_group.as_str());
            text.append("] has been created before, specify another name please. ");
            text.append(self.constants.advice_group_name_duplicate.as_str());
            return Err(MQClientError::MQClientException(UNCODED, text));
        }
        if registration.start_factory {
            Ok(
                RegisteredStep::StartFactory(
                    FactoryStart { client_instance: registration.client_instance },
                ),
            )
        } else {
            Ok(RegisteredStep::StartDetector(DetectorStart {  }))
        }
    }

    /// Goes on once the client has started, or has not.
    pub fn factory_started(&self, _start: FactoryStart, factory: Result<(), MQClientError>) -> (
    step: Result<DetectorStart, MQClientError>)
        ensures
            match factory {
                Ok(_) => step == Result::<DetectorStart, MQClientError>::Ok(DetectorStart {  }),
                Err(e) => step == Result::<DetectorStart, MQClientError>::Err(e),
            },
    {
        match factory {
            Ok(_) => Ok(DetectorStart {  }),
            Err(e) => Err(e),
        }
    }

    /// Ends a start once the detector of faults was told to start.
    pub fn detector_started(&mut self, _start: DetectorStart)
        requires
            old(self).service_state == ServiceState::StartFailed,
            old(self).client_instance is Some,
        ensures
            final(self).well_formed(),
            *final(self) == (DefaultMQProducerImpl {
                service_state: ServiceState::Running,
                mq_fault_strategy: MQFaultStrategy {
                    detector_started: true,
                    ..old(self).mq_fault_strategy
                },
                ..*old(self)
            }),
    {
        self.mq_fault_strategy.detector_started = true;
        self.service_state = ServiceState::Running;
    }

    /// Plays a start through, step by step, against what it is to meet with.
    pub fn rehearse_start(&mut self, start_factory: bool, inputs: StartInputs) -> (outcome: Result<
        (),
        MQClientError,
    >)
        ensures
            old(self).well_formed() ==> final(self).well_formed(),
            final(self).service_state == state_after_start(
                old(self).service_state,
                old(self).config_ok(inputs.group_check),
                inputs.register_ok,
                start_factory,
                inputs.factory is Ok,
            ),
            outcome is Ok <==> old(self).service_state == ServiceState::CreateJust
                && final(self).service_state == ServiceState::Running,
            outcome matches Err(e) ==> old(self).is_start_error(inputs, e),
            old(self).service_state == ServiceState::CreateJust && old(self).config_ok(
                inputs.group_check,
            ) ==> *final(self) == (DefaultMQProducerImpl {
                client_config: old(self).started_client_config(inputs.instance_name),
                client_instance: Some(inputs.client_instance),
                service_state: final(self).service_state,
                mq_fault_strategy: MQFaultStrategy {
                    detector_started: outcome is Ok
                        || old(self).mq_fault_strategy.detector_started,
                    ..wired_strategy(old(self).mq_fault_strategy, inputs.client_instance)
                },
                ..*old(self)
            }),
            old(self).service_state == ServiceState::CreateJust && inputs.group_check is Ok
                && old(self).producer_config.producer_group@ != old(
                self,
            ).constants.default_producer_group@ ==> final(self).client_config.instance_name == if old(
                self,
            ).producer_config.producer_group@ == old(self).constants.client_inner_producer_group@ {
                old(self).client_config.instance_name
            } else {
                inputs.instance_name
            },
            !(old(self).service_state == ServiceState::CreateJust && old(self).config_ok(
                inputs.group_check,
            )) ==> *final(self) == (DefaultMQProducerImpl {
                service_state: final(self).service_state,
                ..*old(self)
            }),
    {
        let check = match self.start_with_factory(start_factory) {
            Err(e) => {
                return Err(e);
            },
            Ok(check) => check,
        };
        let request = match self.group_checked(check, inputs.group_check) {
            Err(e) => {
                return Err(e);
            },
            Ok(ConfigStep::Rename(rename)) => self.instance_renamed(rename, inputs.instance_name),
            Ok(ConfigStep::Request(request)) => request,
        };
        let registration = self.instance_acquired(request, inputs.client_instance);
        let detector = match self.registered(registration, inputs.register_ok) {
            Err(e) => {
                return Err(e);
            },
            Ok(RegisteredStep::StartFactory(factory)) => {
                match self.factory_started(factory, inputs.factory) {
                    Err(e) => {
                        return Err(e);
                    },
                    Ok(detector) => detector,
                }
            },
            Ok(RegisteredStep::StartDetector(detector)) => detector,
        };
        self.detector_started(detector);
        Ok(())
    }
}

/// A producer is started once: where it runs, was shut down or failed to start, a
/// start changes nothing. Only one whose group was taken may try again.
pub proof fn law_producer_starts_once(
    state: ServiceState,
    config_ok: bool,
    register_ok: bool,
    start_factory: bool,
    factory_ok: bool,
    config_ok_again: bool,
    register_ok_again: bool,
    start_factory_again: bool,
    factory_ok_again: bool,
)
    ensures
        ({
            let after = state_after_start(
                state,
                config_ok,
                register_ok,
                start_factory,
                factory_ok,
            );
            let after_again = state_after_start(
                after,
                config_ok_again,
                register_ok_again,
                start_factory_again,
                factory_ok_again,
            );
            &&& after_again != after ==> state == ServiceState::CreateJust && config_ok
                && !register_ok
            &&& after == ServiceState::Running && state != ServiceState::Running ==> state
                == ServiceState::CreateJust && config_ok && register_ok && (start_factory
                ==> factory_ok)
        }),
{
}

/// The settings pass exactly if the group's name is valid and not the reserved one.
/// Every producer whose group is not that of the client's own producers looks for a
/// client under the name of the process, whatever its other settings; one of the
/// client's own keeps the name it has. No other setting changes.
pub proof fn law_only_inner_producers_keep_their_name<S, C>(
    producer: &DefaultMQProducerImpl<S, C>,
    group_check: Result<(), MQClientError>,
    instance_name: String,
)
    ensures
        producer.config_ok(group_check) <==> (group_check is Ok
            && producer.producer_config.producer_group@
            != producer.constants.default_producer_group@),
        ({
            let config = producer.started_client_config(instance_name);
            let inner = producer.producer_config.producer_group@
                == producer.constants.client_inner_producer_group@;
            &&& producer.is_inner() == inner
            &&& !inner ==> config.instance_name == instance_name
            &&& inner ==> config.instance_name == producer.client_config.instance_name
            &&& config == (ClientConfig {
                instance_name: config.instance_name,
                ..producer.client_config
            })
        }),
{
}

/// Where a start leads, state by state. A producer runs after it if it ran before, or
/// if it was new and nothing stood in its way. It is new again if only its group was
/// taken. Every other start of a new producer fails, and no start leads to or from a
/// shutdown.
pub proof fn law_where_a_start_leads(
    state: ServiceState,
    config_ok: bool,
    register_ok: bool,
    start_factory: bool,
    factory_ok: bool,
)
    ensures
        ({
            let after = state_after_start(
                state,
                config_ok,
                register_ok,
                start_factory,
                factory_ok,
            );
            let new = state == ServiceState::CreateJust;
            &&& after == ServiceState::Running <==> (state == ServiceState::Running || (new
                && config_ok && register_ok && (factory_ok || !start_factory)))
            &&& after == ServiceState::CreateJust <==> (new && config_ok && !register_ok)
            &&& after == ServiceState::StartFailed <==> (state == ServiceState::StartFailed || (new
                && (!config_ok || (register_ok && start_factory && !factory_ok))))
            &&& after == ServiceState::ShutdownAlready <==> state == ServiceState::ShutdownAlready
        }),
{
}

/// A start that fails says what stood in its way: the state it began in, the verdict on
/// the group's name, the reserved group, the taken group, or the client that did not
/// start, whichever came first.
pub proof fn law_failed_start_says_why<S, C>(
    producer: &DefaultMQProducerImpl<S, C>,
    inputs: StartInputs,
    e: MQClientError,
)
    requires
        producer.is_start_error(inputs, e),
    ensures
        ({
            let group = producer.producer_config.producer_group@;
            let text = match e {
                MQClientError::MQClientException(_, t) => t@,
                _ => Seq::<char>::empty(),
            };
            let uncoded = e matches MQClientError::MQClientException(code, _) && code == -1;
            match producer.service_state {
                ServiceState::Running => uncoded && text == "The producer service state is "@
                    + "Running"@,
                ServiceState::ShutdownAlready => uncoded && text
                    == "The producer service state is "@ + "ShutdownAlready"@,
                ServiceState::StartFailed => uncoded && text
                    == "The producer service state not OK, maybe started once,"@
                    + "StartFailed"@ + ","@ + producer.constants.advice_client_service_not_ok@,
                ServiceState::CreateJust => if inputs.group_check is Err {
                    e == inputs.group_check->Err_0
                } else if group == producer.constants.default_producer_group@ {
                    uncoded && text == "The specified group name["@ + group
                        + "] is equal to default group, please specify another one."@
                } else if !inputs.register_ok {
                    uncoded && text == "The producer group["@ + group
                        + "] has been created before, specify another name please. "@
                        + producer.constants.advice_group_name_duplicate@
                } else {
                    inputs.factory is Err && e == inputs.factory->Err_0
                },
            }
        }),
{
}

/// The fault strategy reaches brokers through the client, and keeps its settings.
pub proof fn law_strategy_is_wired_to_the_client(strategy: MQFaultStrategy, client_instance: u64)
    ensures
        ({
            let wired = wired_strategy(strategy, client_instance);
            &&& wired.resolver == Some(client_instance)
            &&& wired.service_detector == Some(client_instance)
            &&& wired.send_latency_fault_enable == strategy.send_latency_fault_enable
            &&& wired.start_detector_enable == strategy.start_detector_enable
            &&& wired.detector_started == strategy.detector_started
        }),
{
}

/// A start whose settings pass renames the client of every producer but the client's
/// own, and asks for that of the client's own under the settings as they are; it goes
/// on with the client's start exactly if it was to. Settings that do not pass end it.
pub proof fn law_start_renames_all_but_inner_producers<S, C>(
    producer: &DefaultMQProducerImpl<S, C>,
    check: GroupCheck,
    group_check: Result<(), MQClientError>,
    step: Result<ConfigStep, MQClientError>,
)
    requires
        call_ensures(
            DefaultMQProducerImpl::<S, C>::group_checked,
            (producer, check, group_check),
            step,
        ),
    ensures
        ({
            let group = producer.producer_config.producer_group@;
            let passes = group_check is Ok && group != producer.constants.default_producer_group@;
            let inner = group == producer.constants.client_inner_producer_group@;
            match step {
                Ok(ConfigStep::Rename(rename)) => passes && !inner && rename.start_factory
                    == check.start_factory,
                Ok(ConfigStep::Request(request)) => passes && inner && request.start_factory
                    == check.start_factory && request.client_config == producer.client_config
                    && request.rpc_hook == producer.rpc_hook,
                Err(e) => !passes && (group_check is Err ==> e == group_check->Err_0),
            }
        }),
{
}

/// A start goes on once the client has started, and ends with the client's error if it
/// has not.
pub proof fn law_start_needs_a_started_client<S, C>(
    producer: &DefaultMQProducerImpl<S, C>,
    start: FactoryStart,
    factory: Result<(), MQClientError>,
    step: Result<DetectorStart, MQClientError>,
)
    requires
        call_ensures(
            DefaultMQProducerImpl::<S, C>::factory_started,
            (producer, start, factory),
            step,
        ),
    ensures
        step is Ok <==> factory is Ok,
        step is Err ==> step->Err_0 == factory->Err_0,
{
}

} // verus!
