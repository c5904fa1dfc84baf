//! The settings a producer works under.

use std::collections::HashSet;
use vstd::prelude::*;

verus! {

/// Settings shared by every client.
pub struct ClientConfig {
    pub namesrv_addr: Option<String>,
    pub client_ip: Option<String>,
    pub instance_name: String,
    pub namespace: Option<String>,
    pub unit_mode: bool,
    pub vip_channel_enabled: bool,
}

impl ClientConfig {
    /// Another value with the same settings.
    pub fn duplicate(&self) -> (copy: ClientConfig)
        ensures
            copy == *self,
    {
        ClientConfig {
            namesrv_addr: self.namesrv_addr.clone(),
            client_ip: self.client_ip.clone(),
            instance_name: self.instance_name.clone(),
            namespace: self.namespace.clone(),
            unit_mode: self.unit_mode,
            vip_channel_enabled: self.vip_channel_enabled,
        }
    }
}

/// Settings of a producer.
pub struct ProducerConfig {
    pub producer_group: String,
    pub create_topic_key: String,
    pub default_topic_queue_nums: u32,
    pub send_msg_timeout: u32,
    pub compress_msg_body_over_howmuch: u32,
    pub compress_level: i32,
    /// The system flag bits that name the compression in use.
    pub compression_flag: i32,
    /// Whether a compressor was given.
    pub has_compressor: bool,
    pub retry_times_when_send_failed: u32,
    pub retry_times_when_send_async_failed: u32,
    pub retry_another_broker_when_not_store_ok: bool,
    pub retry_response_codes: HashSet<i32>,
    pub back_pressure_for_async_send_num: u32,
    pub back_pressure_for_async_send_size: u32,
}

/// The names and numbers that clients and brokers have agreed on, and the advice
/// that error texts end in. The producer's decisions hold for any choice of them.
pub struct ProtocolConstants {
    pub broker_not_exist_exception: i32,
    pub not_found_topic_exception: i32,
    pub no_name_server_exception: i32,
    pub compressed_flag: i32,
    pub transaction_prepared_type: i32,
    pub default_producer_group: String,
    pub client_inner_producer_group: String,
    pub retry_group_topic_prefix: String,
    pub property_transaction_prepared: String,
    pub property_startde_liver_time: String,
    pub property_delay_time_level: String,
    pub property_reconsume_time: String,
    pub property_max_reconsume_times: String,
    pub advice_send_msg_failed: String,
    pub advice_no_topic_route_info: String,
    pub advice_name_server_addr_not_exist: String,
    pub advice_client_service_not_ok: String,
    pub advice_group_name_duplicate: String,
}

impl ProtocolConstants {
    /// Another value with the same names and numbers.
    pub fn duplicate(&self) -> (copy: ProtocolConstants)
        ensures
            copy == *self,
    {
        ProtocolConstants {
            broker_not_exist_exception: self.broker_not_exist_exception,
            not_found_topic_exception: self.not_found_topic_exception,
            no_name_server_exception: self.no_name_server_exception,
            compressed_flag: self.compressed_flag,
            transaction_prepared_type: self.transaction_prepared_type,
            default_producer_group: self.default_producer_group.clone(),
            client_inner_producer_group: self.client_inner_producer_group.clone(),
            retry_group_topic_prefix: self.retry_group_topic_prefix.clone(),
            property_transaction_prepared: self.property_transaction_prepared.clone(),
            property_startde_liver_time: self.property_startde_liver_time.clone(),
            property_delay_time_level: self.property_delay_time_level.clone(),
            property_reconsume_time: self.property_reconsume_time.clone(),
            property_max_reconsume_times: self.property_max_reconsume_times.clone(),
            advice_send_msg_failed: self.advice_send_msg_failed.clone(),
            advice_no_topic_route_info: self.advice_no_topic_route_info.clone(),
            advice_name_server_addr_not_exist: self.advice_name_server_addr_not_exist.clone(),
            advice_client_service_not_ok: self.advice_client_service_not_ok.clone(),
            advice_group_name_duplicate: self.advice_group_name_duplicate.clone(),
        }
    }
}

} // verus!
