//! The MQTT client: the commands that it receives and the readings that it
//! publishes.

pub mod event;
pub mod laws;
pub mod parser;
pub mod session;
