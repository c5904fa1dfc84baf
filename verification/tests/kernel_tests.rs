use std::cell::RefCell;
use std::rc::Rc;
use std::collections::HashSet;

use rocketmq_client::config::{ClientConfig, ProducerConfig, ProtocolConstants};
use rocketmq_client::error::MQClientError;
use rocketmq_client::hook::{
    CheckForbiddenContext, CheckForbiddenHook, SendMessageContext, SendMessageHook,
};
use rocketmq_client::kernel_laws::{Request, TransmissionInputs};
use rocketmq_client::message::{Message, MessageKind, Properties};
use rocketmq_client::producer::DefaultMQProducerImpl;
use rocketmq_client::send_default::SendOutcome;
use rocketmq_client::send_kernel::{BrokerStep, Dispatch};
use rocketmq_client::types::{
    CommunicationMode, MQFaultStrategy, MessageQueue, SendResult, SendStatus,
};
use tokio_util::bytes::Bytes;

#[derive(Clone, Default)]
struct Recorder {
    seen: Rc<RefCell<Vec<String>>>,
    name: &'static str,
    refuses: bool,
}

impl Recorder {
    fn note(&self, text: String) {
        self.seen.borrow_mut().push(format!("{}:{}", self.name, text));
    }
}

impl SendMessageHook for Recorder {
    fn send_message_before(&self, context: &Option<SendMessageContext>) {
        let context = context.as_ref().unwrap();
        self.note(format!(
            "before {:?} {:?} {:?}",
            context.msg_type, context.producer, context.send_result
        ));
        assert_eq!(context.producer_group.as_deref(), Some("orders"));
        assert_eq!(context.born_host.as_deref(), Some("10.0.0.7"));
        assert_eq!(context.broker_addr.as_deref(), Some("vip:1"));
        assert_eq!(context.mq.as_ref().unwrap().queue_id, 3);
        assert!(context.message.is_some());
    }
    fn send_message_after(&self, context: &Option<SendMessageContext>) {
        let context = context.as_ref().unwrap();
        self.note(format!("after {:?}", context.send_result.map(|r| r.receipt)));
    }
}

impl CheckForbiddenHook for Recorder {
    fn check_forbidden(&self, context: &CheckForbiddenContext<'_>) -> Result<(), MQClientError> {
        assert_eq!(context.name_srv_addr.as_deref(), Some("127.0.0.1:9876"));
        assert_eq!(context.group.as_deref(), Some("orders"));
        assert_eq!(context.broker_addr.as_deref(), Some("vip:1"));
        assert_eq!(context.mq.unwrap().broker_name, "a");
        assert!(!context.unit_mode);
        self.note(format!("asked {}", context.message.unwrap().topic));
        if self.refuses {
            Err(MQClientError::MQClientException(403, self.name.to_string()))
        } else {
            Ok(())
        }
    }
}

type Producer = DefaultMQProducerImpl<Recorder, Recorder>;

fn client_config() -> ClientConfig {
    ClientConfig {
        namesrv_addr: Some("127.0.0.1:9876".to_string()),
        client_ip: Some("10.0.0.7".to_string()),
        instance_name: "DEFAULT".to_string(),
        namespace: None,
        unit_mode: false,
        vip_channel_enabled: false,
    }
}

fn producer_config() -> ProducerConfig {
    ProducerConfig {
        producer_group: "orders".to_string(),
        create_topic_key: "TBW102".to_string(),
        default_topic_queue_nums: 4,
        send_msg_timeout: 3000,
        compress_msg_body_over_howmuch: 4096,
        compress_level: 5,
        compression_flag: 0x300,
        has_compressor: true,
        retry_times_when_send_failed: 2,
        retry_times_when_send_async_failed: 3,
        retry_another_broker_when_not_store_ok: false,
        retry_response_codes: HashSet::from([14, 2]),
        back_pressure_for_async_send_num: 10000,
        back_pressure_for_async_send_size: 104857600,
    }
}

fn constants() -> ProtocolConstants {
    ProtocolConstants {
        broker_not_exist_exception: 10003,
        not_found_topic_exception: 10005,
        no_name_server_exception: 10004,
        compressed_flag: 1,
        transaction_prepared_type: 4,
        default_producer_group: "DEFAULT_PRODUCER".to_string(),
        client_inner_producer_group: "CLIENT_INNER_PRODUCER".to_string(),
        retry_group_topic_prefix: "%RETRY%".to_string(),
        property_transaction_prepared: "TRAN_MSG".to_string(),
        property_startde_liver_time: "__STARTDELIVERTIME".to_string(),
        property_delay_time_level: "DELAY".to_string(),
        property_reconsume_time: "RECONSUME_TIME".to_string(),
        property_max_reconsume_times: "MAX_RECONSUME_TIMES".to_string(),
        advice_send_msg_failed: "see send".to_string(),
        advice_no_topic_route_info: "see route".to_string(),
        advice_name_server_addr_not_exist: "see servers".to_string(),
        advice_client_service_not_ok: "see service".to_string(),
        advice_group_name_duplicate: "see group".to_string(),
    }
}

fn strategy() -> MQFaultStrategy {
    MQFaultStrategy {
        send_latency_fault_enable: false,
        start_detector_enable: true,
        resolver: None,
        service_detector: None,
        detector_started: false,
    }
}

fn producer() -> Producer {
    Producer::new(5, client_config(), producer_config(), None, constants(), strategy())
}

fn message(topic: &str, properties: &[(&str, &str)]) -> Message {
    let mut kept = Properties::new();
    for (name, text) in properties {
        kept.put(name.to_string(), text.to_string());
    }
    Message {
        kind: MessageKind::Single,
        topic: topic.to_string(),
        flag: 11,
        properties: kept,
        instance_id: None,
        body: None,
        compressed_body: None,
    }
}

fn queue() -> MessageQueue {
    MessageQueue { topic: "T".to_string(), broker_name: "a".to_string(), queue_id: 3 }
}

fn reply() -> SendOutcome {
    Ok(Some(SendResult { send_status: SendStatus::SendOk, receipt: 21 }))
}

fn inputs(msg: &Message) -> TransmissionInputs {
    let mut identified = msg.duplicate();
    identified.properties.put("UNIQ_KEY".to_string(), "id1".to_string());
    TransmissionInputs {
        broker_name: "a".to_string(),
        broker_addr: Some("a:1".to_string()),
        broker_name_again: "b".to_string(),
        broker_addr_again: None,
        channel_addr: "vip:1".to_string(),
        identified,
        compressed: None,
        now: 1700000000000,
        stripped_topic: "stripped".to_string(),
        cost_time: 40,
        reply: reply(),
    }
}

fn transmit(
    producer: &Producer,
    mode: CommunicationMode,
    msg: &mut Message,
    inputs: TransmissionInputs,
) -> (SendOutcome, Option<Request>) {
    producer.rehearse_transmission(&queue(), mode, 100, msg, inputs, encode)
}

fn encode(properties: &Properties, instance_id: &Option<String>) -> String {
    let mut text: String =
        properties.pairs().iter().map(|(name, text)| format!("{name}={text};")).collect();
    if let Some(id) = instance_id {
        text.push_str(&format!("@{id};"));
    }
    text
}

fn property(msg: &Message, name: &str) -> Option<String> {
    msg.properties.get(&name.to_string())
}

#[test]
fn a_request_says_what_the_settings_and_the_message_say() {
    let producer = producer();
    let mut msg = message("T", &[("k", "v")]);
    let given = inputs(&msg);
    let (outcome, request) = transmit(&producer, CommunicationMode::Sync, &mut msg, given);
    assert_eq!(outcome.ok().unwrap().map(|r| r.receipt), Some(21));
    let request = request.unwrap();
    assert_eq!(request.dispatch, Dispatch::Simple { timeout: 60 });
    let header = request.header;
    assert_eq!(header.producer_group, "orders");
    assert_eq!(header.topic, "T");
    assert_eq!(header.default_topic, "TBW102");
    assert_eq!(header.default_topic_queue_nums, 4);
    assert_eq!(header.queue_id, Some(3));
    assert_eq!(header.sys_flag, 0);
    assert_eq!(header.born_timestamp, 1700000000000);
    assert_eq!(header.flag, 11);
    assert_eq!(header.properties.as_deref(), Some("k=v;UNIQ_KEY=id1;"));
    assert_eq!(header.reconsume_times, Some(0));
    assert_eq!(header.unit_mode, Some(false));
    assert_eq!(header.batch, Some(false));
    assert_eq!(header.max_reconsume_times, None);
    assert_eq!(header.broker_name.as_deref(), Some("a"));
    assert_eq!(property(&msg, "UNIQ_KEY").as_deref(), Some("id1"));
    assert_eq!(property(&msg, "k").as_deref(), Some("v"));
}

#[test]
fn a_broker_is_looked_for_twice() {
    let producer = producer();
    let mut msg = message("T", &[]);
    let mut found_late = inputs(&msg);
    found_late.broker_addr = None;
    found_late.broker_addr_again = Some("b:1".to_string());
    let (outcome, request) = transmit(&producer, CommunicationMode::Sync, &mut msg, found_late);
    assert!(outcome.is_ok());
    assert_eq!(request.unwrap().header.broker_name.as_deref(), Some("b"));
    let mut msg = message("T", &[]);
    let mut missing = inputs(&msg);
    missing.broker_addr = None;
    let (outcome, request) = transmit(&producer, CommunicationMode::Sync, &mut msg, missing);
    match outcome {
        Err(MQClientError::MQClientException(-1, text)) => {
            assert_eq!(text, "The broker[b] not exist")
        }
        _ => panic!("the broker does not exist"),
    }
    assert!(request.is_none());
    assert_eq!(property(&msg, "UNIQ_KEY"), None);
}

#[test]
fn without_a_broker_nothing_is_compressed_or_timed() {
    let mut config = producer_config();
    config.has_compressor = false;
    let producer =
        Producer::new(5, client_config(), config, None, constants(), strategy());
    let mut msg = with_body(5000);
    let mut missing = inputs(&msg);
    missing.broker_addr = None;
    missing.cost_time = 101;
    let (outcome, request) = transmit(&producer, CommunicationMode::Async, &mut msg, missing);
    assert!(matches!(outcome, Err(MQClientError::MQClientException(-1, _))));
    assert!(request.is_none());
}

#[test]
fn the_channel_for_important_traffic_is_used_if_enabled() {
    for enabled in [false, true] {
        let mut producer = producer();
        producer.client_config.vip_channel_enabled = enabled;
        let lookup = producer.send_kernel_impl(&queue(), CommunicationMode::Sync, 9);
        let step = producer.broker_looked_up(lookup, "a".to_string(), Some("a:1".to_string()));
        match step {
            BrokerStep::Found { transmission, vip_channel_enabled } => {
                assert_eq!(vip_channel_enabled, enabled);
                assert_eq!(transmission.broker_addr, "a:1");
                let chosen = producer.channel_chosen(transmission, "a:0".to_string());
                assert_eq!(chosen.broker_addr, "a:0");
                assert_eq!(chosen.timeout, 9);
            }
            _ => panic!("the broker has an address"),
        }
    }
}

#[test]
fn the_messages_of_a_batch_have_their_numbers() {
    let producer = producer();
    let mut msg = message("T", &[]);
    msg.kind = MessageKind::Batch;
    assert!(!producer.needs_uniq_id(&msg));
    let given = inputs(&msg);
    let (_, request) = transmit(&producer, CommunicationMode::Sync, &mut msg, given);
    let header = request.unwrap().header;
    assert_eq!(header.batch, Some(true));
    assert_eq!(header.properties.as_deref(), Some(""));
    assert_eq!(property(&msg, "UNIQ_KEY"), None);
    assert!(producer.needs_uniq_id(&message("T", &[])));
}

fn with_body(len: usize) -> Message {
    let mut msg = message("T", &[]);
    msg.compressed_body = Some(Bytes::from(vec![7u8; len]));
    msg
}

#[test]
fn long_bodies_are_compressed() {
    let producer = producer();
    assert!(producer.compression_job(&with_body(4095)).is_none());
    let job = producer.compression_job(&with_body(4096)).unwrap();
    assert_eq!(job.level, 5);
    assert_eq!(&job.body[..], &vec![7u8; 4096][..]);
    let mut msg = with_body(5000);
    assert!(producer.try_to_compress_message(&mut msg, Some(vec![1, 2, 3])));
    assert_eq!(&msg.compressed_body.unwrap()[..], &[1, 2, 3]);
    let mut msg = with_body(5000);
    assert!(!producer.try_to_compress_message(&mut msg, None));
    assert_eq!(msg.compressed_body.unwrap().len(), 5000);
    let mut msg = with_body(10);
    assert!(!producer.try_to_compress_message(&mut msg, Some(vec![1, 2, 3])));
    assert_eq!(msg.compressed_body.unwrap().len(), 10);
    for kind in [MessageKind::Batch, MessageKind::Other] {
        let mut msg = with_body(5000);
        msg.kind = kind;
        assert!(!producer.try_to_compress_message(&mut msg, Some(vec![1, 2, 3])));
        assert_eq!(msg.compressed_body.unwrap().len(), 5000);
    }
    let mut empty = message("T", &[]);
    assert!(!producer.try_to_compress_message(&mut empty, Some(vec![1])));
    assert!(empty.compressed_body.is_none());
}

#[test]
fn system_flags_tell_compression_and_transactions() {
    let producer = producer();
    for (long, tran, expected) in [
        (false, None, 0),
        (true, None, 0x301),
        (false, Some("true"), 4),
        (true, Some("true"), 0x305),
        (false, Some("TRUE"), 0),
        (false, Some("false"), 0),
        (false, Some(" true"), 0),
    ] {
        let mut msg = if long { with_body(4096) } else { with_body(1) };
        if let Some(text) = tran {
            msg.properties.put("TRAN_MSG".to_string(), text.to_string());
        }
        let mut given = inputs(&msg);
        given.compressed = Some(vec![9]);
        let (_, request) = transmit(&producer, CommunicationMode::Sync, &mut msg, given);
        assert_eq!(request.unwrap().header.sys_flag, expected);
        assert_eq!(msg.compressed_body.unwrap().len(), 1);
    }
}

#[test]
fn a_namespace_marks_messages_and_leaves_the_topic_of_callbacks() {
    let mut producer = producer();
    producer.client_config.namespace = Some("ns".to_string());
    for (mode, topic, dispatch) in [
        (CommunicationMode::Sync, "ns%T", Dispatch::Simple { timeout: 60 }),
        (CommunicationMode::Oneway, "ns%T", Dispatch::Simple { timeout: 60 }),
        (
            CommunicationMode::Async,
            "stripped",
            Dispatch::WithCallback { timeout: 60, retry_times: 3 },
        ),
    ] {
        let mut msg = message("ns%T", &[]);
        let given = inputs(&msg);
        let (_, request) = transmit(&producer, mode, &mut msg, given);
        let request = request.unwrap();
        assert_eq!(msg.instance_id.as_deref(), Some("ns"));
        assert_eq!(msg.topic, topic);
        assert_eq!(request.header.topic, "ns%T");
        assert_eq!(request.header.properties.as_deref(), Some("UNIQ_KEY=id1;@ns;"));
        assert_eq!(request.dispatch, dispatch);
    }
    let producer = self::producer();
    let mut msg = message("T", &[]);
    let given = inputs(&msg);
    transmit(&producer, CommunicationMode::Async, &mut msg, given);
    assert_eq!(msg.topic, "T");
    assert_eq!(msg.instance_id, None);
}

#[test]
fn retries_hand_their_counts_over() {
    let producer = producer();
    for (count, max, read, read_max) in [
        (Some("2"), Some("16"), Some(2), Some(16)),
        (Some("x"), Some("99999999999"), Some(0), Some(0)),
        (None, None, Some(0), None),
        (None, Some("-1"), Some(0), Some(-1)),
    ] {
        let mut msg = message("%RETRY%g", &[("k", "v")]);
        if let Some(text) = count {
            msg.properties.put("RECONSUME_TIME".to_string(), text.to_string());
        }
        if let Some(text) = max {
            msg.properties.put("MAX_RECONSUME_TIMES".to_string(), text.to_string());
        }
        let given = inputs(&msg);
        let (_, request) = transmit(&producer, CommunicationMode::Sync, &mut msg, given);
        let header = request.unwrap().header;
        assert_eq!(header.reconsume_times, read);
        assert_eq!(header.max_reconsume_times, read_max);
        assert_eq!(property(&msg, "RECONSUME_TIME"), None);
        assert_eq!(property(&msg, "MAX_RECONSUME_TIMES"), None);
        assert_eq!(property(&msg, "k").as_deref(), Some("v"));
    }
    let mut msg = message("%RETRY%g", &[("RECONSUME_TIME", "2")]);
    let given = inputs(&msg);
    let (_, request) = transmit(&producer, CommunicationMode::Sync, &mut msg, given);
    assert_eq!(
        request.unwrap().header.properties.as_deref(),
        Some("RECONSUME_TIME=2;UNIQ_KEY=id1;")
    );
    let mut msg = message("RETRY", &[("RECONSUME_TIME", "2"), ("MAX_RECONSUME_TIMES", "3")]);
    let given = inputs(&msg);
    let (_, request) = transmit(&producer, CommunicationMode::Sync, &mut msg, given);
    let header = request.unwrap().header;
    assert_eq!((header.reconsume_times, header.max_reconsume_times), (Some(0), None));
    assert_eq!(property(&msg, "RECONSUME_TIME").as_deref(), Some("2"));
}

#[test]
fn a_transmission_out_of_time_is_not_handed_on() {
    let producer = producer();
    for mode in [CommunicationMode::Sync, CommunicationMode::Oneway] {
        let mut msg = message("T", &[]);
        let mut late = inputs(&msg);
        late.cost_time = 101;
        let (outcome, request) = transmit(&producer, mode, &mut msg, late);
        match outcome {
            Err(MQClientError::RemotingTooMuchRequestException(text)) => {
                assert_eq!(text, "sendKernelImpl call timeout")
            }
            _ => panic!("the transmission was late"),
        }
        assert!(request.is_none());
        let mut msg = message("T", &[]);
        let mut just_in_time = inputs(&msg);
        just_in_time.cost_time = 100;
        let (outcome, request) = transmit(&producer, mode, &mut msg, just_in_time);
        assert!(outcome.is_ok());
        assert_eq!(request.unwrap().dispatch, Dispatch::Simple { timeout: 0 });
    }
}

#[test]
fn a_transmission_out_of_time_was_announced() {
    let seen = Rc::new(RefCell::new(vec![]));
    let mut producer = producer();
    producer.send_message_hook_list.push(recorder(&seen, "p", false));
    let mut msg = message("T", &[]);
    let mut late = inputs(&msg);
    late.cost_time = 101;
    let (outcome, _) = transmit(&producer, CommunicationMode::Sync, &mut msg, late);
    assert!(outcome.is_err());
    assert_eq!(*seen.borrow(), vec!["p:before None Some(5) None"]);
}

#[test]
fn the_properties_and_the_mark_are_to_be_encoded() {
    let mut producer = producer();
    producer.client_config.namespace = Some("ns".to_string());
    let mut msg = message("T", &[("k", "v")]);
    let lookup = producer.send_kernel_impl(&queue(), CommunicationMode::Sync, 9);
    let step = producer.broker_looked_up(lookup, "a".to_string(), Some("vip:1".to_string()));
    let transmission = match step {
        BrokerStep::Found { transmission, .. } => transmission,
        _ => panic!("the broker has an address"),
    };
    let prepared = match producer.prepare(transmission, &mut msg, None) {
        Ok(prepared) => prepared,
        Err(_) => panic!("no hook forbids it"),
    };
    let (properties, instance_id) = producer.properties_to_encode(&prepared, &msg);
    assert_eq!(encode(properties, instance_id), "k=v;@ns;");
}

fn recorder(seen: &Rc<RefCell<Vec<String>>>, name: &'static str, refuses: bool) -> Recorder {
    Recorder { seen: seen.clone(), name, refuses }
}

#[test]
fn send_hooks_are_told_before_and_after() {
    let seen = Rc::new(RefCell::new(vec![]));
    let mut producer = producer();
    producer.send_message_hook_list.push(recorder(&seen, "p", false));
    producer.send_message_hook_list.push(recorder(&seen, "q", false));
    assert!(producer.has_send_message_hook());
    let mut msg = message("T", &[("TRAN_MSG", "true")]);
    let given = inputs(&msg);
    transmit(&producer, CommunicationMode::Sync, &mut msg, given);
    assert_eq!(
        *seen.borrow(),
        vec![
            "p:before Some(TransMsgHalf) Some(5) None",
            "q:before Some(TransMsgHalf) Some(5) None",
            "p:after Some(21)",
            "q:after Some(21)",
        ]
    );
    seen.borrow_mut().clear();
    let mut msg = message("T", &[("TRAN_MSG", "true"), ("DELAY", "3")]);
    let mut given = inputs(&msg);
    given.reply = Err(MQClientError::RemotingException("down".to_string()));
    let (outcome, _) = transmit(&producer, CommunicationMode::Sync, &mut msg, given);
    assert!(matches!(outcome, Err(MQClientError::RemotingException(_))));
    assert_eq!(seen.borrow()[0], "p:before Some(DelayMsg) Some(5) None");
    assert_eq!(seen.borrow()[3], "q:after None");
    seen.borrow_mut().clear();
    let mut msg = message("T", &[("__STARTDELIVERTIME", "1")]);
    let given = inputs(&msg);
    transmit(&producer, CommunicationMode::Sync, &mut msg, given);
    assert_eq!(seen.borrow()[0], "p:before Some(DelayMsg) Some(5) None");
}

#[test]
fn the_first_refusal_forbids_a_transmission() {
    let seen = Rc::new(RefCell::new(vec![]));
    let mut producer = producer();
    producer.send_message_hook_list.push(recorder(&seen, "s", false));
    for (name, refuses) in [("p", false), ("q", true), ("r", true)] {
        producer.check_forbidden_hook_list.push(recorder(&seen, name, refuses));
    }
    assert!(producer.has_check_forbidden_hook());
    let mut msg = message("T", &[]);
    let given = inputs(&msg);
    let (outcome, request) = transmit(&producer, CommunicationMode::Sync, &mut msg, given);
    match outcome {
        Err(MQClientError::MQClientException(403, text)) => assert_eq!(text, "q"),
        _ => panic!("the transmission is forbidden"),
    }
    assert!(request.is_none());
    assert_eq!(*seen.borrow(), vec!["p:asked T", "q:asked T"]);
    seen.borrow_mut().clear();
    producer.check_forbidden_hook_list.truncate(1);
    let mut msg = message("T", &[]);
    let given = inputs(&msg);
    let (outcome, _) = transmit(&producer, CommunicationMode::Sync, &mut msg, given);
    assert!(outcome.is_ok());
    assert_eq!(seen.borrow().len(), 3);
}

#[test]
fn properties_are_kept_by_name() {
    let mut properties = Properties::new();
    let name = |text: &str| text.to_string();
    assert_eq!(properties.get(&name("a")), None);
    properties.put(name("a"), name("1"));
    properties.put(name("b"), name("2"));
    properties.put(name("a"), name("3"));
    assert_eq!(properties.get(&name("a")), Some(name("3")));
    assert_eq!(properties.pairs().len(), 2);
    let copy = properties.duplicate();
    properties.remove(&name("a"));
    properties.remove(&name("zzz"));
    assert_eq!(properties.get(&name("a")), None);
    assert_eq!(properties.get(&name("b")), Some(name("2")));
    assert_eq!(copy.get(&name("a")), Some(name("3")));
}

#[test]
fn a_duplicate_says_what_the_message_says() {
    let mut msg = with_body(3);
    msg.body = Some(Bytes::from(vec![4u8]));
    msg.instance_id = Some("ns".to_string());
    let copy = msg.duplicate();
    assert_eq!(&copy.compressed_body.unwrap()[..], &[7, 7, 7]);
    assert_eq!(&copy.body.unwrap()[..], &[4]);
    assert_eq!(copy.instance_id.as_deref(), Some("ns"));
    assert_eq!((copy.topic.as_str(), copy.flag, copy.kind), ("T", 11, MessageKind::Single));
}
