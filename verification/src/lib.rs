//! Door monitoring: turns a stream of polled door samples into notification
//! events, with a progressive backoff for doors that are left open.

pub mod config;
pub mod door;
pub mod episode;
pub mod message;
pub mod monitor;
pub mod notify;
pub mod sms;
pub mod telegram;
pub mod utils;
