//! The decisions of a message producer, proved: when it starts, which route and
//! which queue it asks for, how often it tries, what it puts into a request, and
//! what it tells its caller in the end.

pub mod admin_broker_processor;
pub mod config;
pub mod error;
pub mod hook;
pub mod kernel_laws;
pub mod message;
pub mod outside;
pub mod producer;
pub mod send_default;
pub mod send_kernel;
pub mod send_laws;
pub mod start;
pub mod text;
pub mod topic_route;
pub mod types;
