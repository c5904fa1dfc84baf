use std::collections::HashSet;

use rocketmq_client::config::{ClientConfig, ProducerConfig, ProtocolConstants};
use rocketmq_client::error::MQClientError;
use rocketmq_client::hook::{
    CheckForbiddenContext, CheckForbiddenHook, SendMessageContext, SendMessageHook,
};
use rocketmq_client::message::{Message, MessageKind, Properties};
use rocketmq_client::producer::DefaultMQProducerImpl;
use rocketmq_client::send_default::{RouteStep, SendAttempts, SendOutcome, SendStep};
use rocketmq_client::send_laws::{AttemptInput, SendInputs};
use rocketmq_client::types::{
    CommunicationMode, MQFaultStrategy, MessageQueue, SendResult, SendStatus, ServiceState,
    TopicPublishInfo,
};

struct NoHook;

impl SendMessageHook for NoHook {
    fn send_message_before(&self, _context: &Option<SendMessageContext>) {}
    fn send_message_after(&self, _context: &Option<SendMessageContext>) {}
}

impl CheckForbiddenHook for NoHook {
    fn check_forbidden(&self, _context: &CheckForbiddenContext<'_>) -> Result<(), MQClientError> {
        Ok(())
    }
}

type Producer = DefaultMQProducerImpl<NoHook, NoHook>;

fn client_config() -> ClientConfig {
    ClientConfig {
        namesrv_addr: Some("127.0.0.1:9876".to_string()),
        client_ip: Some("10.0.0.7".to_string()),
        instance_name: "DEFAULT".to_string(),
        namespace: None,
        unit_mode: false,
        vip_channel_enabled: false,
    }
}

fn producer_config() -> ProducerConfig {
    ProducerConfig {
        producer_group: "orders".to_string(),
        create_topic_key: "TBW102".to_string(),
        default_topic_queue_nums: 4,
        send_msg_timeout: 3000,
        compress_msg_body_over_howmuch: 4096,
        compress_level: 5,
        compression_flag: 0x300,
        has_compressor: true,
        retry_times_when_send_failed: 2,
        retry_times_when_send_async_failed: 3,
        retry_another_broker_when_not_store_ok: false,
        retry_response_codes: HashSet::from([14, 2]),
        back_pressure_for_async_send_num: 10000,
        back_pressure_for_async_send_size: 104857600,
    }
}

fn constants() -> ProtocolConstants {
    ProtocolConstants {
        broker_not_exist_exception: 10003,
        not_found_topic_exception: 10005,
        no_name_server_exception: 10004,
        compressed_flag: 1,
        transaction_prepared_type: 4,
        default_producer_group: "DEFAULT_PRODUCER".to_string(),
        client_inner_producer_group: "CLIENT_INNER_PRODUCER".to_string(),
        retry_group_topic_prefix: "%RETRY%".to_string(),
        property_transaction_prepared: "TRAN_MSG".to_string(),
        property_startde_liver_time: "__STARTDELIVERTIME".to_string(),
        property_delay_time_level: "DELAY".to_string(),
        property_reconsume_time: "RECONSUME_TIME".to_string(),
        property_max_reconsume_times: "MAX_RECONSUME_TIMES".to_string(),
        advice_send_msg_failed: "see send".to_string(),
        advice_no_topic_route_info: "see route".to_string(),
        advice_name_server_addr_not_exist: "see servers".to_string(),
        advice_client_service_not_ok: "see service".to_string(),
        advice_group_name_duplicate: "see group".to_string(),
    }
}

fn strategy(detector: bool) -> MQFaultStrategy {
    MQFaultStrategy {
        send_latency_fault_enable: false,
        start_detector_enable: detector,
        resolver: None,
        service_detector: None,
        detector_started: false,
    }
}

fn producer(config: ProducerConfig, detector: bool) -> Producer {
    let mut producer =
        Producer::new(1, client_config(), config, None, constants(), strategy(detector));
    producer.service_state = ServiceState::Running;
    producer.client_instance = Some(1);
    producer
}

fn message(topic: &str) -> Message {
    Message {
        kind: MessageKind::Single,
        topic: topic.to_string(),
        flag: 0,
        properties: Properties::new(),
        instance_id: None,
        body: None,
        compressed_body: None,
    }
}

fn queue(broker: &str) -> MessageQueue {
    MessageQueue { topic: "T".to_string(), broker_name: broker.to_string(), queue_id: 3 }
}

fn route() -> TopicPublishInfo {
    TopicPublishInfo { have_topic_router_info: true, usable: true, route_id: 5 }
}

fn attempts(producer: &Producer, mode: CommunicationMode, timeout: u64) -> SendAttempts {
    let task = match producer.send_default_impl(message("T"), mode, timeout) {
        Ok(task) => task,
        Err(_) => panic!("the producer runs"),
    };
    match producer.route_found(task, Some(route())) {
        RouteStep::Attempt(attempts) => attempts,
        RouteStep::NoRoute(_) => panic!("the route is usable"),
    }
}

fn answer(status: SendStatus, receipt: u64) -> SendOutcome {
    Ok(Some(SendResult { send_status: status, receipt }))
}

fn client_error() -> SendOutcome {
    Err(MQClientError::MQClientException(-1, "no".to_string()))
}

fn broker_error(code: i32) -> SendOutcome {
    Err(MQClientError::MQBrokerException(code, "busy".to_string(), "addr".to_string()))
}

fn remoting_error() -> SendOutcome {
    Err(MQClientError::RemotingException("reset".to_string()))
}

fn attempt(broker: &str, cost_time: u64, reply: SendOutcome) -> AttemptInput {
    AttemptInput {
        queue: Some(queue(broker)),
        cost_time,
        topic: "T".to_string(),
        reply,
        elapsed: 7,
    }
}

fn play(
    producer: &Producer,
    mode: CommunicationMode,
    timeout: u64,
    inputs: Vec<AttemptInput>,
) -> Option<SendOutcome> {
    producer.rehearse_send(
        message("T"),
        mode,
        timeout,
        SendInputs {
            route: Some(route()),
            name_servers: vec!["127.0.0.1:9876".to_string()],
            attempts: inputs,
            cost: 41,
        },
    )
}

fn client_exception(outcome: &SendOutcome) -> (i32, &str) {
    match outcome {
        Err(MQClientError::MQClientException(code, text)) => (*code, text.as_str()),
        _ => panic!("a client exception was expected"),
    }
}

fn receipt(outcome: &SendOutcome) -> Option<u64> {
    match outcome {
        Ok(answer) => answer.map(|a| a.receipt),
        Err(_) => panic!("an answer was expected"),
    }
}

#[test]
fn a_producer_that_does_not_run_takes_no_send() {
    for (state, name) in [
        (ServiceState::CreateJust, "CreateJust"),
        (ServiceState::ShutdownAlready, "ShutdownAlready"),
        (ServiceState::StartFailed, "StartFailed"),
    ] {
        let mut producer = producer(producer_config(), false);
        producer.service_state = state;
        let refused = producer.send(message("T"));
        match refused {
            Err(MQClientError::MQClientException(-1, text)) => assert_eq!(
                text,
                format!("The producer service state not OK, {name} see service")
            ),
            _ => panic!("the send was to be refused"),
        }
        assert!(producer.send_with_timeout(message("T"), 5).is_err());
    }
}

#[test]
fn a_send_waits_as_long_as_the_settings_say() {
    let producer = producer(producer_config(), false);
    let task = producer.send(message("T")).ok().unwrap();
    assert_eq!(task.timeout, 3000);
    assert_eq!(task.communication_mode, CommunicationMode::Sync);
    assert_eq!(task.topic, "T");
    let task = producer.send_with_timeout(message("T"), 17).ok().unwrap();
    assert_eq!(task.timeout, 17);
}

#[test]
fn sends_are_numbered_at_random() {
    let producer = producer(producer_config(), false);
    let ids: HashSet<u64> = (0..8)
        .map(|_| producer.send(message("T")).ok().unwrap().invoke_id)
        .collect();
    assert!(ids.len() > 1);
}

#[test]
fn awaited_sends_have_retries_and_others_have_none() {
    let producer = producer(producer_config(), false);
    assert_eq!(attempts(&producer, CommunicationMode::Sync, 10).times_total, 3);
    assert_eq!(attempts(&producer, CommunicationMode::Async, 10).times_total, 1);
    assert_eq!(attempts(&producer, CommunicationMode::Oneway, 10).times_total, 1);
    assert_eq!(attempts(&producer, CommunicationMode::Sync, 10).brokers_sent.join(","), ",,");
}

#[test]
fn a_topic_without_a_route_is_an_error() {
    let producer = producer(producer_config(), false);
    for route in [
        None,
        Some(TopicPublishInfo { have_topic_router_info: true, usable: false, route_id: 0 }),
    ] {
        let end = producer.rehearse_send(
            message("T"),
            CommunicationMode::Sync,
            10,
            SendInputs {
                route,
                name_servers: vec!["a:1".to_string()],
                attempts: vec![],
                cost: 0,
            },
        );
        assert_eq!(
            client_exception(&end.unwrap()),
            (10005, "No route info of this topic:T,see route")
        );
        let end = producer.rehearse_send(
            message("T"),
            CommunicationMode::Sync,
            10,
            SendInputs { route, name_servers: vec![], attempts: vec![], cost: 0 },
        );
        assert_eq!(
            client_exception(&end.unwrap()),
            (10004, "No name server address, please set it. see servers")
        );
    }
}

#[test]
fn without_a_route_attempts_are_not_counted() {
    let mut config = producer_config();
    config.retry_times_when_send_failed = u32::MAX;
    let mut producer = producer(config, false);
    let inputs = || SendInputs {
        route: None,
        name_servers: vec!["a:1".to_string()],
        attempts: vec![],
        cost: 0,
    };
    let end = producer.rehearse_send(message("T"), CommunicationMode::Sync, 10, inputs());
    assert_eq!(
        client_exception(&end.unwrap()),
        (10005, "No route info of this topic:T,see route")
    );
    producer.service_state = ServiceState::StartFailed;
    let inputs = SendInputs { route: Some(route()), ..inputs() };
    let end = producer.rehearse_send(message("T"), CommunicationMode::Sync, 10, inputs);
    assert_eq!(client_exception(&end.unwrap()).0, -1);
}

#[test]
fn the_latest_answer_is_returned() {
    let mut config = producer_config();
    config.retry_another_broker_when_not_store_ok = true;
    let producer = producer(config, false);
    let end = play(
        &producer,
        CommunicationMode::Sync,
        100,
        vec![
            attempt("a", 1, answer(SendStatus::SlaveNotAvailable, 8)),
            attempt("b", 2, answer(SendStatus::FlushDiskTimeout, 9)),
            attempt("c", 3, remoting_error()),
        ],
    );
    assert_eq!(receipt(&end.unwrap()), Some(9));
}

#[test]
fn a_stored_message_is_not_sent_again() {
    let mut config = producer_config();
    config.retry_another_broker_when_not_store_ok = true;
    let producer = producer(config, false);
    let end = play(
        &producer,
        CommunicationMode::Sync,
        100,
        vec![
            attempt("a", 1, answer(SendStatus::SendOk, 1)),
            attempt("b", 2, answer(SendStatus::SendOk, 2)),
        ],
    );
    assert_eq!(receipt(&end.unwrap()), Some(1));
}

#[test]
fn an_answer_that_is_not_ok_is_retried_only_if_asked_for() {
    let answers = || {
        vec![
            attempt("a", 1, answer(SendStatus::FlushDiskTimeout, 1)),
            attempt("b", 2, answer(SendStatus::SendOk, 2)),
        ]
    };
    let plain = producer(producer_config(), false);
    let end = play(&plain, CommunicationMode::Sync, 100, answers());
    assert_eq!(receipt(&end.unwrap()), Some(1));
    let mut config = producer_config();
    config.retry_another_broker_when_not_store_ok = true;
    let retrying = producer(config, false);
    let end = play(&retrying, CommunicationMode::Sync, 100, answers());
    assert_eq!(receipt(&end.unwrap()), Some(2));
}

#[test]
fn an_answer_survives_later_failures() {
    let mut config = producer_config();
    config.retry_another_broker_when_not_store_ok = true;
    let producer = producer(config, false);
    let end = play(
        &producer,
        CommunicationMode::Sync,
        100,
        vec![
            attempt("a", 1, answer(SendStatus::SlaveNotAvailable, 8)),
            attempt("b", 2, remoting_error()),
            attempt("c", 3, client_error()),
        ],
    );
    assert_eq!(receipt(&end.unwrap()), Some(8));
    let end = play(
        &producer,
        CommunicationMode::Sync,
        100,
        vec![
            attempt("a", 1, answer(SendStatus::SlaveNotAvailable, 8)),
            attempt("b", 2, broker_error(1)),
        ],
    );
    assert_eq!(receipt(&end.unwrap()), Some(8));
    let end = play(
        &producer,
        CommunicationMode::Sync,
        100,
        vec![
            attempt("a", 1, answer(SendStatus::SlaveNotAvailable, 8)),
            attempt("b", 101, answer(SendStatus::SendOk, 9)),
        ],
    );
    assert_eq!(receipt(&end.unwrap()), Some(8));
}

#[test]
fn a_send_that_is_not_awaited_has_no_answer() {
    let producer = producer(producer_config(), false);
    for mode in [CommunicationMode::Async, CommunicationMode::Oneway] {
        let end = play(
            &producer,
            mode,
            100,
            vec![attempt("a", 1, answer(SendStatus::FlushDiskTimeout, 4))],
        );
        assert_eq!(receipt(&end.unwrap()), None);
        let end = play(&producer, mode, 100, vec![attempt("a", 1, client_error())]);
        assert_eq!(
            client_exception(&end.unwrap()),
            (
                10003,
                "Send [1] times, still failed, cost [41]ms, Topic:T, BrokersSent: a see send"
            )
        );
    }
}

#[test]
fn used_up_attempts_are_listed() {
    let producer = producer(producer_config(), false);
    let inputs = || {
        vec![
            attempt("a", 1, client_error()),
            attempt("b", 2, broker_error(14)),
            attempt("c", 3, remoting_error()),
        ]
    };
    let end = play(&producer, CommunicationMode::Sync, 100, inputs());
    assert_eq!(
        client_exception(&end.unwrap()),
        (
            10003,
            "Send [3] times, still failed, cost [41]ms, Topic:T, BrokersSent: a,b,c see send"
        )
    );
    let mut more = inputs();
    more.push(attempt("d", 4, answer(SendStatus::SendOk, 1)));
    let end = play(&producer, CommunicationMode::Sync, 100, more);
    assert_eq!(client_exception(&end.unwrap()).0, 10003);
    let mut fewer = inputs();
    fewer.truncate(2);
    assert!(play(&producer, CommunicationMode::Sync, 100, fewer).is_none());
}

#[test]
fn attempts_that_were_not_made_leave_a_gap() {
    let producer = producer(producer_config(), false);
    let mut none_left = attempt("x", 5, client_error());
    none_left.queue = None;
    let end = play(
        &producer,
        CommunicationMode::Sync,
        100,
        vec![attempt("a", 1, client_error()), none_left],
    );
    assert_eq!(
        client_exception(&end.unwrap()),
        (
            10003,
            "Send [3] times, still failed, cost [41]ms, Topic:T, BrokersSent: a,, see send"
        )
    );
}

#[test]
fn no_queue_at_all_is_an_error_without_a_code() {
    let producer = producer(producer_config(), false);
    let mut none = attempt("x", 5, client_error());
    none.queue = None;
    let end = play(&producer, CommunicationMode::Sync, 100, vec![none]);
    assert_eq!(
        client_exception(&end.unwrap()),
        (-1, "Send [3] times, still failed, cost [41]ms, Topic:T, BrokersSent: ,, see send")
    );
}

#[test]
fn a_late_send_says_so() {
    let producer = producer(producer_config(), false);
    let end = play(
        &producer,
        CommunicationMode::Sync,
        100,
        vec![attempt("a", 1, client_error()), attempt("b", 101, client_error())],
    );
    match end {
        Some(Err(MQClientError::RemotingTooMuchRequestException(text))) => {
            assert_eq!(text, "sendDefaultImpl call timeout")
        }
        _ => panic!("the send was late"),
    }
    let in_time = play(
        &producer,
        CommunicationMode::Sync,
        100,
        vec![attempt("a", 100, answer(SendStatus::SendOk, 6))],
    );
    assert_eq!(receipt(&in_time.unwrap()), Some(6));
}

#[test]
fn brokers_refusals_are_retried_by_code() {
    let producer = producer(producer_config(), false);
    let end = play(
        &producer,
        CommunicationMode::Sync,
        100,
        vec![
            attempt("a", 1, broker_error(14)),
            attempt("b", 2, answer(SendStatus::SendOk, 3)),
        ],
    );
    assert_eq!(receipt(&end.unwrap()), Some(3));
    let end = play(
        &producer,
        CommunicationMode::Sync,
        100,
        vec![
            attempt("a", 1, broker_error(1)),
            attempt("b", 2, answer(SendStatus::SendOk, 3)),
        ],
    );
    assert!(matches!(end, Some(Err(MQClientError::MQBrokerException(1, _, _)))));
}

#[test]
fn other_failures_end_a_send_at_once() {
    let producer = producer(producer_config(), false);
    let end = play(
        &producer,
        CommunicationMode::Sync,
        100,
        vec![attempt("a", 1, Err(MQClientError::RequestTimeoutException(5, "late".to_string())))],
    );
    assert!(matches!(end, Some(Err(MQClientError::RequestTimeoutException(5, _)))));
    let end = play(
        &producer,
        CommunicationMode::Sync,
        100,
        vec![attempt(
            "a",
            1,
            Err(MQClientError::RemotingTooMuchRequestException("slow".to_string())),
        )],
    );
    assert!(matches!(end, Some(Err(MQClientError::RemotingTooMuchRequestException(_)))));
    let end = play(
        &producer,
        CommunicationMode::Sync,
        100,
        vec![attempt(
            "a",
            1,
            Err(MQClientError::OffsetNotFoundException(1, "o".to_string(), "b".to_string())),
        )],
    );
    assert!(matches!(end, Some(Err(MQClientError::OffsetNotFoundException(1, _, _)))));
}

#[test]
fn an_empty_answer_to_an_awaited_send_is_returned() {
    let producer = producer(producer_config(), false);
    let end = play(&producer, CommunicationMode::Sync, 100, vec![attempt("a", 1, Ok(None))]);
    assert_eq!(receipt(&end.unwrap()), None);
}

fn transmitting(producer: &Producer, mode: CommunicationMode) -> SendAttempts {
    let first = attempts(producer, mode, 100);
    match producer.queue_selected(first, Some(queue("a")), 30) {
        SendStep::Transmit { attempts, timeout } => {
            assert_eq!(timeout, 70);
            attempts
        }
        _ => panic!("there is time left"),
    }
}

#[test]
fn the_fault_strategy_hears_of_every_telling_reply() {
    for detector in [false, true] {
        let producer = producer(producer_config(), detector);
        for (reply, expected) in [
            (answer(SendStatus::SendOk, 1), Some((false, true))),
            (client_error(), Some((false, true))),
            (broker_error(14), Some((true, false))),
            (broker_error(1), Some((true, false))),
            (remoting_error(), Some((true, !detector))),
            (Err(MQClientError::RequestTimeoutException(1, String::new())), None),
        ] {
            let current = transmitting(&producer, CommunicationMode::Sync);
            let (update, _) = producer.attempt_replied(current, reply, 12);
            let seen = update.as_ref().map(|u| (u.isolation, u.reachable));
            assert_eq!(seen, expected);
            if let Some(update) = update {
                assert_eq!(update.broker_name, "a");
                assert_eq!(update.current_latency, 12);
            }
        }
    }
}

#[test]
fn a_repeated_attempt_avoids_the_last_broker_and_resets_the_topic() {
    let mut producer = producer(producer_config(), false);
    producer.client_config.namespace = Some("ns".to_string());
    let first = attempts(&producer, CommunicationMode::Sync, 100);
    let selection = producer.next_selection(&first);
    assert_eq!(selection.last_broker_name, None);
    assert!(!selection.reset_index);
    assert_eq!(selection.route, route());
    let current = transmitting(&producer, CommunicationMode::Sync);
    let (_, step) = producer.attempt_replied(current, client_error(), 1);
    let second = match step {
        SendStep::Select(attempts) => attempts,
        _ => panic!("two attempts are left"),
    };
    let selection = producer.next_selection(&second);
    assert_eq!(selection.last_broker_name, Some("a".to_string()));
    assert!(selection.reset_index);
    let (second, cost_time) = match producer.queue_selected(second, Some(queue("b")), 45) {
        SendStep::ResetTopic { attempts, namespace, topic, cost_time } => {
            assert_eq!(namespace, "ns");
            assert_eq!(topic, "T");
            (attempts, cost_time)
        }
        _ => panic!("the topic is to be reset"),
    };
    match producer.topic_reset(second, "ns%T".to_string(), cost_time) {
        SendStep::Transmit { attempts, timeout } => {
            assert_eq!(timeout, 55);
            assert_eq!(attempts.task.msg.topic, "ns%T");
            assert_eq!(attempts.task.topic, "T");
            assert_eq!(attempts.brokers_sent.join(","), "a,b,");
        }
        _ => panic!("there is time left"),
    }
}

#[test]
fn without_a_namespace_the_topic_is_reset_with_none() {
    let producer = producer(producer_config(), false);
    let current = transmitting(&producer, CommunicationMode::Sync);
    let (_, step) = producer.attempt_replied(current, client_error(), 1);
    if let SendStep::Select(second) = step {
        match producer.queue_selected(second, Some(queue("b")), 45) {
            SendStep::ResetTopic { namespace, .. } => assert_eq!(namespace, ""),
            _ => panic!("the topic is to be reset"),
        }
    } else {
        panic!("two attempts are left");
    }
}
