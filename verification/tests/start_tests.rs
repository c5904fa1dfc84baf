use std::collections::HashSet;

use rocketmq_client::config::{ClientConfig, ProducerConfig, ProtocolConstants};
use rocketmq_client::error::MQClientError;
use rocketmq_client::hook::{
    CheckForbiddenContext, CheckForbiddenHook, SendMessageContext, SendMessageHook,
};
use rocketmq_client::producer::DefaultMQProducerImpl;
use rocketmq_client::start::{ConfigStep, RegisteredStep, StartInputs};
use rocketmq_client::types::{MQFaultStrategy, ServiceState};

struct NoHook;

impl SendMessageHook for NoHook {
    fn send_message_before(&self, _context: &Option<SendMessageContext>) {}
    fn send_message_after(&self, _context: &Option<SendMessageContext>) {}
}

impl CheckForbiddenHook for NoHook {
    fn check_forbidden(&self, _context: &CheckForbiddenContext<'_>) -> Result<(), MQClientError> {
        Ok(())
    }
}

type Producer = DefaultMQProducerImpl<NoHook, NoHook>;

fn client_config() -> ClientConfig {
    ClientConfig {
        namesrv_addr: Some("127.0.0.1:9876".to_string()),
        client_ip: Some("10.0.0.7".to_string()),
        instance_name: "DEFAULT".to_string(),
        namespace: None,
        unit_mode: false,
        vip_channel_enabled: false,
    }
}

fn producer_config() -> ProducerConfig {
    ProducerConfig {
        producer_group: "orders".to_string(),
        create_topic_key: "TBW102".to_string(),
        default_topic_queue_nums: 4,
        send_msg_timeout: 3000,
        compress_msg_body_over_howmuch: 4096,
        compress_level: 5,
        compression_flag: 0x300,
        has_compressor: true,
        retry_times_when_send_failed: 2,
        retry_times_when_send_async_failed: 3,
        retry_another_broker_when_not_store_ok: false,
        retry_response_codes: HashSet::from([14, 2]),
        back_pressure_for_async_send_num: 10000,
        back_pressure_for_async_send_size: 104857600,
    }
}

fn constants() -> ProtocolConstants {
    ProtocolConstants {
        broker_not_exist_exception: 10003,
        not_found_topic_exception: 10005,
        no_name_server_exception: 10004,
        compressed_flag: 1,
        transaction_prepared_type: 4,
        default_producer_group: "DEFAULT_PRODUCER".to_string(),
        client_inner_producer_group: "CLIENT_INNER_PRODUCER".to_string(),
        retry_group_topic_prefix: "%RETRY%".to_string(),
        property_transaction_prepared: "TRAN_MSG".to_string(),
        property_startde_liver_time: "__STARTDELIVERTIME".to_string(),
        property_delay_time_level: "DELAY".to_string(),
        property_reconsume_time: "RECONSUME_TIME".to_string(),
        property_max_reconsume_times: "MAX_RECONSUME_TIMES".to_string(),
        advice_send_msg_failed: "see send".to_string(),
        advice_no_topic_route_info: "see route".to_string(),
        advice_name_server_addr_not_exist: "see servers".to_string(),
        advice_client_service_not_ok: "see service".to_string(),
        advice_group_name_duplicate: "see group".to_string(),
    }
}

fn strategy() -> MQFaultStrategy {
    MQFaultStrategy {
        send_latency_fault_enable: false,
        start_detector_enable: true,
        resolver: None,
        service_detector: None,
        detector_started: false,
    }
}

fn producer_of(group: &str) -> Producer {
    let mut config = producer_config();
    config.producer_group = group.to_string();
    Producer::new(77, client_config(), config, Some(9), constants(), strategy())
}

fn good() -> StartInputs {
    StartInputs {
        group_check: Ok(()),
        instance_name: "1234#99".to_string(),
        client_instance: 6,
        register_ok: true,
        factory: Ok(()),
    }
}

fn error_text(outcome: Result<(), MQClientError>) -> String {
    match outcome {
        Err(MQClientError::MQClientException(-1, text)) => text,
        _ => panic!("a client exception was expected"),
    }
}

#[test]
fn a_new_producer_is_empty_and_idle() {
    let producer = producer_of("orders");
    assert_eq!(producer.service_state, ServiceState::CreateJust);
    assert_eq!(producer.client_instance, None);
    assert_eq!(producer.rpc_hook, None);
    assert!(!producer.has_send_message_hook());
    assert!(!producer.has_check_forbidden_hook());
    assert_eq!(producer.topic_publish_info_table.try_read().unwrap().len(), 0);
    assert!(producer.end_transaction_hook_list.is_empty());
    assert_eq!(producer.mq_fault_strategy, strategy());
}

#[test]
fn semaphores_have_the_configured_permits_and_a_floor() {
    let producer = producer_of("orders");
    assert_eq!(producer.semaphore_async_send_num.available_permits(), 10000);
    assert_eq!(producer.semaphore_async_send_size.available_permits(), 104857600);
    let mut config = producer_config();
    config.back_pressure_for_async_send_num = 9;
    config.back_pressure_for_async_send_size = 0;
    let small = Producer::new(1, client_config(), config, None, constants(), strategy());
    assert_eq!(small.semaphore_async_send_num.available_permits(), 10);
    assert_eq!(small.semaphore_async_send_size.available_permits(), 1024 * 1024);
}

#[test]
fn a_start_that_meets_no_obstacle_ends_in_running() {
    for start_factory in [true, false] {
        let mut producer = producer_of("orders");
        assert!(producer.rehearse_start(start_factory, good()).is_ok());
        assert_eq!(producer.service_state, ServiceState::Running);
        assert_eq!(producer.client_instance, Some(6));
        assert_eq!(producer.client_config.instance_name, "1234#99");
        assert_eq!(producer.mq_fault_strategy.resolver, Some(6));
        assert_eq!(producer.mq_fault_strategy.service_detector, Some(6));
        assert!(producer.mq_fault_strategy.detector_started);
        assert!(producer.make_sure_state_ok().is_ok());
        let again = producer.rehearse_start(start_factory, good());
        assert_eq!(error_text(again), "The producer service state is Running");
        assert_eq!(producer.service_state, ServiceState::Running);
    }
}

#[test]
fn an_inner_producer_keeps_its_instance_name() {
    let mut producer = producer_of("CLIENT_INNER_PRODUCER");
    assert!(producer.rehearse_start(false, good()).is_ok());
    assert_eq!(producer.client_config.instance_name, "DEFAULT");
}

#[test]
fn the_reserved_group_is_refused() {
    let mut producer = producer_of("DEFAULT_PRODUCER");
    assert_eq!(
        error_text(producer.rehearse_start(true, good())),
        "The specified group name[DEFAULT_PRODUCER] is equal to default group, please specify \
         another one."
    );
    assert_eq!(producer.service_state, ServiceState::StartFailed);
    assert_eq!(producer.client_instance, None);
    assert_eq!(
        error_text(producer.rehearse_start(true, good())),
        "The producer service state not OK, maybe started once,StartFailed,see service"
    );
}

#[test]
fn an_invalid_group_is_refused_with_the_verdict_on_it() {
    let mut producer = producer_of("DEFAULT_PRODUCER");
    let mut inputs = good();
    inputs.group_check = Err(MQClientError::MQClientException(-1, "blank".to_string()));
    assert_eq!(error_text(producer.rehearse_start(true, inputs)), "blank");
    assert_eq!(producer.service_state, ServiceState::StartFailed);
}

#[test]
fn a_taken_group_may_be_tried_again() {
    let mut producer = producer_of("orders");
    let mut inputs = good();
    inputs.register_ok = false;
    assert_eq!(
        error_text(producer.rehearse_start(true, inputs)),
        "The producer group[orders] has been created before, specify another name please. see \
         group"
    );
    assert_eq!(producer.service_state, ServiceState::CreateJust);
    assert_eq!(producer.client_instance, Some(6));
    assert!(!producer.mq_fault_strategy.detector_started);
    assert!(producer.rehearse_start(true, good()).is_ok());
    assert_eq!(producer.service_state, ServiceState::Running);
}

#[test]
fn a_client_that_does_not_start_fails_the_start() {
    let mut inputs = good();
    inputs.factory = Err(MQClientError::RemotingException("refused".to_string()));
    let mut producer = producer_of("orders");
    assert!(matches!(
        producer.rehearse_start(true, inputs),
        Err(MQClientError::RemotingException(_))
    ));
    assert_eq!(producer.service_state, ServiceState::StartFailed);
    let mut unaffected = good();
    unaffected.factory = Err(MQClientError::RemotingException("refused".to_string()));
    let mut producer = producer_of("orders");
    assert!(producer.rehearse_start(false, unaffected).is_ok());
}

#[test]
fn a_producer_that_was_shut_down_does_not_start() {
    let mut producer = producer_of("orders");
    producer.service_state = ServiceState::ShutdownAlready;
    assert_eq!(
        error_text(producer.rehearse_start(true, good())),
        "The producer service state is ShutdownAlready"
    );
    assert_eq!(producer.service_state, ServiceState::ShutdownAlready);
}

#[test]
fn the_steps_of_a_start_carry_what_they_need() {
    let mut producer = producer_of("orders");
    let check = producer.start().ok().unwrap();
    assert_eq!(producer.service_state, ServiceState::StartFailed);
    assert_eq!(check.producer_group, "orders");
    assert!(check.start_factory);
    let rename = match producer.group_checked(check, Ok(())) {
        Ok(ConfigStep::Rename(rename)) => rename,
        _ => panic!("the client is to be renamed"),
    };
    let request = producer.instance_renamed(rename, "p1".to_string());
    assert_eq!(request.client_config.instance_name, "p1");
    assert_eq!(request.rpc_hook, None);
    let registration = producer.instance_acquired(request, 4);
    assert_eq!(registration.producer, 77);
    assert_eq!(registration.producer_group, "orders");
    match producer.registered(registration, true) {
        Ok(RegisteredStep::StartFactory(factory)) => {
            assert_eq!(factory.client_instance, 4);
            let detector = producer.factory_started(factory, Ok(())).ok().unwrap();
            assert_eq!(producer.service_state, ServiceState::StartFailed);
            producer.detector_started(detector);
        }
        _ => panic!("the client is to be started"),
    }
    assert_eq!(producer.service_state, ServiceState::Running);
}

#[test]
fn name_servers_must_be_set() {
    let producer = producer_of("orders");
    assert!(producer.validate_name_server_setting(&vec!["a:1".to_string()]).is_ok());
    match producer.validate_name_server_setting(&vec![]) {
        Err(MQClientError::MQClientException(10004, text)) => {
            assert_eq!(text, "No name server address, please set it. see servers")
        }
        _ => panic!("a name server is missing"),
    }
}

#[test]
fn switches_and_reports_of_the_fault_strategy() {
    let mut producer = producer_of("orders");
    producer.set_send_latency_fault_enable(true);
    assert!(producer.mq_fault_strategy.send_latency_fault_enable);
    assert!(producer.mq_fault_strategy.start_detector_enable);
    producer.set_send_latency_fault_enable(false);
    assert!(!producer.mq_fault_strategy.send_latency_fault_enable);
    let update = producer.update_fault_item("b", 12, true, false);
    assert_eq!(update.broker_name, "b");
    assert_eq!((update.current_latency, update.isolation, update.reachable), (12, true, false));
    assert!(!producer.is_unit_mode());
}
