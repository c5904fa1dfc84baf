//! The plain values that a producer's decisions are made of.

use vstd::prelude::*;

verus! {

/// How far a producer has come in its life.
#[derive(Clone, Copy, PartialEq, Eq, Structural, Debug)]
pub enum ServiceState {
    /// Made, not started.
    CreateJust,
    /// Started and usable.
    Running,
    /// Shut down.
    ShutdownAlready,
    /// A start was attempted and did not finish.
    StartFailed,
}

/// The name under which a state appears in error texts.
pub open spec fn state_name(state: ServiceState) -> Seq<char> {
    match state {
        ServiceState::CreateJust => "CreateJust"@,
        ServiceState::Running => "Running"@,
        ServiceState::ShutdownAlready => "ShutdownAlready"@,
        ServiceState::StartFailed => "StartFailed"@,
    }
}

impl ServiceState {
    /// The state's name, as error texts show it.
    pub fn name(self) -> (name: &'static str)
        ensures
            name@ == state_name(self),
    {
        match self {
            ServiceState::CreateJust => "CreateJust",
            ServiceState::Running => "Running",
            ServiceState::ShutdownAlready => "ShutdownAlready",
            ServiceState::StartFailed => "StartFailed",
        }
    }
}

/// How the caller of a send waits for it.
#[derive(Clone, Copy, PartialEq, Eq, Structural, Debug)]
pub enum CommunicationMode {
    /// The caller waits for the broker's answer.
    Sync,
    /// The answer goes to a callback.
    Async,
    /// There is no answer.
    Oneway,
}

/// What a broker says about a message it took.
#[derive(Clone, Copy, PartialEq, Eq, Structural, Debug)]
pub enum SendStatus {
    /// Stored as asked.
    SendOk,
    /// Taken, but not flushed to disk in time.
    FlushDiskTimeout,
    /// Taken, but not copied to a replica in time.
    FlushSlaveTimeout,
    /// Taken, with no replica to copy it to.
    SlaveNotAvailable,
}

/// A broker's answer to a send. The decisions read the status alone; the
/// receipt is the number under which the caller keeps the rest of the answer.
#[derive(Clone, Copy, PartialEq, Eq, Structural, Debug)]
pub struct SendResult {
    pub send_status: SendStatus,
    pub receipt: u64,
}

/// One queue of a topic, on one broker.
pub struct MessageQueue {
    pub topic: String,
    pub broker_name: String,
    pub queue_id: i32,
}

impl MessageQueue {
    /// Another value for the same queue.
    pub fn duplicate(&self) -> (copy: MessageQueue)
        ensures
            copy == *self,
    {
        MessageQueue {
            topic: self.topic.clone(),
            broker_name: self.broker_name.clone(),
            queue_id: self.queue_id,
        }
    }
}

/// What is known of the way to a topic's queues. `usable` says whether the
/// route has a queue to send to; `route_id` is the number under which the caller
/// keeps the queues themselves.
#[derive(Clone, Copy, PartialEq, Eq, Structural, Debug)]
pub struct TopicPublishInfo {
    pub have_topic_router_info: bool,
    pub usable: bool,
    pub route_id: u64,
}

impl TopicPublishInfo {
    /// Whether a message can be sent along this route.
    pub fn ok(&self) -> (yes: bool)
        ensures
            yes == self.usable,
    {
        self.usable
    }
}

/// How the fault strategy is set up. Which queue it picks, and how it weighs
/// latencies, is its own affair. Its resolver and its detector reach brokers
/// through the client of the given number.
#[derive(Clone, Copy, PartialEq, Eq, Structural, Debug)]
pub struct MQFaultStrategy {
    pub send_latency_fault_enable: bool,
    pub start_detector_enable: bool,
    pub resolver: Option<u64>,
    pub service_detector: Option<u64>,
    /// The strategy was told to start its detector.
    pub detector_started: bool,
}

/// A report to the fault strategy on how a broker behaved.
pub struct FaultUpdate {
    pub broker_name: String,
    pub current_latency: u64,
    pub isolation: bool,
    pub reachable: bool,
}

/// A question to the fault strategy: a queue, preferably not on the broker that
/// was tried last.
pub struct QueueSelection {
    pub route: TopicPublishInfo,
    pub last_broker_name: Option<String>,
    pub reset_index: bool,
}

} // verus!
