//! Verified core of an asynchronous Wi-Fi firmware: the decisions behind its
//! network, HTTP, MQTT and over-the-air update tasks.

pub mod decimal;
pub mod http;
pub mod mqtt;
pub mod state;
pub mod task;
pub mod text;
pub mod wifi;
