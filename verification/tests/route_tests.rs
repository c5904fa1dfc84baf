use std::collections::HashSet;

use rocketmq_client::config::{ClientConfig, ProducerConfig, ProtocolConstants};
use rocketmq_client::error::MQClientError;
use rocketmq_client::hook::{
    CheckForbiddenContext, CheckForbiddenHook, SendMessageContext, SendMessageHook,
};
use rocketmq_client::admin_broker_processor::{AdminBrokerProcessor, RemotingCommand};
use rocketmq_client::producer::DefaultMQProducerImpl;
use rocketmq_client::topic_route::{DefaultRouteLookup, RouteLookup};
use rocketmq_client::types::{MQFaultStrategy, ServiceState, TopicPublishInfo};

#[derive(Clone)]
struct NoHook;

impl SendMessageHook for NoHook {
    fn send_message_before(&self, _context: &Option<SendMessageContext>) {}
    fn send_message_after(&self, _context: &Option<SendMessageContext>) {}
}

impl CheckForbiddenHook for NoHook {
    fn check_forbidden(&self, _context: &CheckForbiddenContext<'_>) -> Result<(), MQClientError> {
        Ok(())
    }
}

type Producer = DefaultMQProducerImpl<NoHook, NoHook>;

fn client_config() -> ClientConfig {
    ClientConfig {
        namesrv_addr: Some("127.0.0.1:9876".to_string()),
        client_ip: Some("10.0.0.7".to_string()),
        instance_name: "DEFAULT".to_string(),
        namespace: None,
        unit_mode: false,
        vip_channel_enabled: false,
    }
}

fn producer_config() -> ProducerConfig {
    ProducerConfig {
        producer_group: "orders".to_string(),
        create_topic_key: "TBW102".to_string(),
        default_topic_queue_nums: 4,
        send_msg_timeout: 3000,
        compress_msg_body_over_howmuch: 4096,
        compress_level: 5,
        compression_flag: 0x300,
        has_compressor: true,
        retry_times_when_send_failed: 2,
        retry_times_when_send_async_failed: 3,
        retry_another_broker_when_not_store_ok: false,
        retry_response_codes: HashSet::from([14, 2]),
        back_pressure_for_async_send_num: 10000,
        back_pressure_for_async_send_size: 104857600,
    }
}

fn constants() -> ProtocolConstants {
    ProtocolConstants {
        broker_not_exist_exception: 10003,
        not_found_topic_exception: 10005,
        no_name_server_exception: 10004,
        compressed_flag: 1,
        transaction_prepared_type: 4,
        default_producer_group: "DEFAULT_PRODUCER".to_string(),
        client_inner_producer_group: "CLIENT_INNER_PRODUCER".to_string(),
        retry_group_topic_prefix: "%RETRY%".to_string(),
        property_transaction_prepared: "TRAN_MSG".to_string(),
        property_startde_liver_time: "__STARTDELIVERTIME".to_string(),
        property_delay_time_level: "DELAY".to_string(),
        property_reconsume_time: "RECONSUME_TIME".to_string(),
        property_max_reconsume_times: "MAX_RECONSUME_TIMES".to_string(),
        advice_send_msg_failed: "see send".to_string(),
        advice_no_topic_route_info: "see route".to_string(),
        advice_name_server_addr_not_exist: "see servers".to_string(),
        advice_client_service_not_ok: "see service".to_string(),
        advice_group_name_duplicate: "see group".to_string(),
    }
}

fn strategy() -> MQFaultStrategy {
    MQFaultStrategy {
        send_latency_fault_enable: false,
        start_detector_enable: true,
        resolver: None,
        service_detector: None,
        detector_started: false,
    }
}

fn producer() -> Producer {
    Producer::new(1, client_config(), producer_config(), None, constants(), strategy())
}

fn info(have: bool, usable: bool, route_id: u64) -> TopicPublishInfo {
    TopicPublishInfo { have_topic_router_info: have, usable, route_id }
}

fn told(topic: &str, info: TopicPublishInfo) -> Vec<(String, Option<TopicPublishInfo>)> {
    vec![(topic.to_string(), Some(info))]
}

/// Tells the producer's table of a route.
fn tell(producer: &Producer, topic: &str, info: Option<TopicPublishInfo>) {
    let mut table = producer.topic_publish_info_table.try_write().unwrap();
    producer.update_topic_publish_info(&mut table, topic.to_string(), info);
}

fn needs_update(producer: &Producer, topic: &str) -> bool {
    let table = producer.topic_publish_info_table.try_read().unwrap();
    producer.is_publish_topic_need_update(&table, topic)
}

fn held(producer: &Producer, topic: &str) -> Option<TopicPublishInfo> {
    let table = producer.topic_publish_info_table.try_read().unwrap();
    producer.default_route_asked(&table, topic)
}

fn look_up(producer: &Producer, topic: &str, blank: TopicPublishInfo) -> RouteLookup {
    let mut table = producer.topic_publish_info_table.try_write().unwrap();
    producer.try_to_find_topic_publish_info(&mut table, topic, blank)
}

#[test]
fn a_told_route_is_held() {
    let producer = producer();
    assert!(needs_update(&producer, "T"));
    tell(&producer, "T", Some(info(true, true, 3)));
    assert!(!needs_update(&producer, "T"));
    assert!(needs_update(&producer, "U"));
    assert_eq!(held(&producer, "T"), Some(info(true, true, 3)));
    tell(&producer, "T", Some(info(true, false, 4)));
    assert!(needs_update(&producer, "T"));
    assert_eq!(held(&producer, "T"), Some(info(true, false, 4)));
}

#[test]
fn clones_see_told_routes() {
    let producer = producer();
    let earlier = producer.clone();
    tell(&producer, "T", Some(info(true, true, 3)));
    let later = producer.clone();
    for clone in [&earlier, &later, &later.clone()] {
        assert!(!needs_update(clone, "T"));
        assert_eq!(held(clone, "T"), Some(info(true, true, 3)));
    }
    tell(&earlier, "T", Some(info(true, false, 4)));
    assert!(needs_update(&producer, "T"));
    assert!(needs_update(&later, "T"));
    assert!(needs_update(&self::producer(), "T"));
}

#[test]
fn clones_have_a_state_of_their_own() {
    let mut producer = producer();
    producer.client_instance = Some(8);
    producer.end_transaction_hook_list.push(6);
    producer.send_message_hook_list.push(NoHook);
    let mut clone = producer.clone();
    assert_eq!(clone.producer_id, 1);
    assert_eq!(clone.client_instance, Some(8));
    assert_eq!(clone.end_transaction_hook_list, vec![6]);
    assert!(clone.has_send_message_hook());
    assert_eq!(clone.constants.retry_group_topic_prefix, "%RETRY%");
    assert_eq!(clone.mq_fault_strategy, producer.mq_fault_strategy);
    clone.service_state = ServiceState::ShutdownAlready;
    clone.client_config.instance_name = "other".to_string();
    assert_eq!(producer.service_state, ServiceState::CreateJust);
    assert_eq!(producer.client_config.instance_name, "DEFAULT");
}

#[test]
fn no_topic_and_no_route_tell_nothing() {
    let producer = producer();
    tell(&producer, "", Some(info(true, true, 3)));
    assert_eq!(producer.topic_publish_info_table.try_read().unwrap().len(), 0);
    tell(&producer, "T", Some(info(true, true, 3)));
    tell(&producer, "T", None);
    assert_eq!(held(&producer, "T"), Some(info(true, true, 3)));
}

#[test]
fn a_usable_route_is_found_without_asking() {
    let producer = producer();
    tell(&producer, "T", Some(info(false, true, 3)));
    match look_up(&producer, "T", info(false, false, 0)) {
        RouteLookup::Known(known) => assert_eq!(known, info(false, true, 3)),
        RouteLookup::AskNameServer => panic!("the route is known"),
    }
}

#[test]
fn an_unknown_topic_is_asked_for_and_held_blank_meanwhile() {
    let producer = producer();
    let blank = info(false, false, 0);
    assert!(matches!(look_up(&producer, "T", blank), RouteLookup::AskNameServer));
    assert_eq!(held(&producer, "T"), Some(blank));
    let asked = |producer: &Producer| {
        let table = producer.topic_publish_info_table.try_read().unwrap();
        producer.topic_route_asked(&table, "T")
    };
    assert!(matches!(asked(&producer), DefaultRouteLookup::AskNameServerForDefault));
    tell(&producer, "T", Some(info(true, false, 1)));
    match asked(&producer) {
        DefaultRouteLookup::Known(known) => assert_eq!(known, info(true, false, 1)),
        DefaultRouteLookup::AskNameServerForDefault => panic!("the route is known"),
    }
}

#[test]
fn a_known_route_of_no_use_is_asked_for_again() {
    let producer = producer();
    tell(&producer, "T", Some(info(true, false, 1)));
    assert!(matches!(
        look_up(&producer, "T", info(false, false, 0)),
        RouteLookup::AskNameServer
    ));
}

#[test]
fn a_lookup_ends_with_the_first_answer() {
    let blank = info(false, false, 0);
    let rehearse = |producer: &Producer, first, second| {
        let mut table = producer.topic_publish_info_table.try_write().unwrap();
        producer.rehearse_lookup(&mut table, "T", blank, first, second)
    };
    let found = rehearse(&producer(), told("T", info(true, true, 2)), vec![]);
    assert_eq!(found, Some(info(true, true, 2)));
    let found = rehearse(
        &producer(),
        told("U", info(true, true, 2)),
        told("T", info(false, true, 3)),
    );
    assert_eq!(found, Some(info(false, true, 3)));
    let found = rehearse(&producer(), vec![], vec![]);
    assert_eq!(found, Some(blank));
    let known = producer();
    tell(&known, "T", Some(info(true, true, 9)));
    let found = rehearse(&known, told("T", info(true, true, 2)), vec![]);
    assert_eq!(found, Some(info(true, true, 9)));
}

#[test]
fn administrative_requests_get_the_blank_response() {
    let processor = AdminBrokerProcessor::default();
    let blank = RemotingCommand { code: 0, command_id: 12 };
    for code in [10, 25, 351] {
        let request = RemotingCommand { code, command_id: 4 };
        assert_eq!(processor.process_request((), request, blank), blank);
    }
}
