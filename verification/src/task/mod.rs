//! The long-running tasks of the firmware.

pub mod firmware;
pub mod httpd;
pub mod ota;
pub mod ota_laws;
