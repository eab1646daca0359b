//! The station's side of the Wi-Fi network: how it joins, and what it makes of
//! the events of the driver and of the network interface.

use crate::state::NetworkStateChange;
use crate::text::{from_32, from_64};
#[allow(unused_imports)]
use crate::text::{fits, text32, text64};
use vstd::prelude::*;

verus! {

/// The most bytes that the name of a network can have.
pub const SSID_CAPACITY: usize = 32;

/// The most bytes that a password can have.
pub const PASSWORD_CAPACITY: usize = 64;

/// How a station authenticates itself.
#[derive(Clone, Debug)]
pub enum Login {
    /// The network is open: there is no authentication.
    Open,
    /// By this password, with the default method.
    Password(heapless::String<64>),
}

/// The settings of a station that differ from the defaults.
#[derive(Clone, Debug)]
pub struct StationSettings {
    pub ssid: heapless::String<32>,
    pub login: Login,
}

/// The settings for the network `ssid`: open where `pass` is empty, and
/// otherwise with `pass` as the password.
pub fn station_settings(ssid: &str, pass: &str) -> (r: StationSettings)
    requires
        fits(ssid@, SSID_CAPACITY as nat),
        fits(pass@, PASSWORD_CAPACITY as nat),
    ensures
        text32(r.ssid) == ssid@,
        r.login is Open <==> pass@.len() == 0,
        r.login matches Login::Password(password) ==> text64(password) == pass@,
{
    StationSettings {
        ssid: from_32(ssid),
        login: if pass.is_empty() {
            Login::Open
        } else {
            Login::Password(from_64(pass))
        },
    }
}

/// An event of the Wi-Fi driver.
#[derive(Copy, Clone, Eq, PartialEq, Debug, Structural)]
pub enum WifiEvent {
    StaConnected,
    StaDisconnected,
    /// Any of the events that call for nothing.
    Other,
}

/// An event of the network interface.
#[derive(Copy, Clone, Debug)]
pub enum IpEvent {
    DhcpIpAssigned { ip: embedded_svc::ipv4::Ipv4Addr },
    /// Any of the events that call for nothing.
    Other,
}

/// What is done about an event of the Wi-Fi driver.
#[derive(Copy, Clone, Debug)]
pub struct WifiReaction {
    /// Whether to connect again.
    pub reconnect: bool,
    /// What to tell the other tasks.
    pub announce: Option<NetworkStateChange>,
}

/// What the other tasks are told about an event of the Wi-Fi driver.
pub open spec fn wifi_news(event: WifiEvent) -> Option<NetworkStateChange> {
    match event {
        WifiEvent::StaDisconnected => Some(NetworkStateChange::WifiDisconnected),
        _ => None,
    }
}

/// What the other tasks are told about an event of the network interface.
pub open spec fn ip_news(event: IpEvent) -> Option<NetworkStateChange> {
    match event {
        IpEvent::DhcpIpAssigned { ip } => Some(NetworkStateChange::IpAddressAssigned { ip }),
        IpEvent::Other => None,
    }
}

/// What is done about an event of the Wi-Fi driver: where the station lost the
/// network, it connects again and the other tasks are told.
pub fn process_wifi_state_change(event: WifiEvent) -> (r: WifiReaction)
    ensures
        r.reconnect <==> event == WifiEvent::StaDisconnected,
        r.announce == wifi_news(event),
        r.announce == Some(NetworkStateChange::WifiDisconnected) <==> r.reconnect,
        r.announce is Some <==> r.reconnect,
{
    match event {
        WifiEvent::StaDisconnected => WifiReaction {
            reconnect: true,
            announce: Some(NetworkStateChange::WifiDisconnected),
        },
        _ => WifiReaction { reconnect: false, announce: None },
    }
}

/// What the other tasks are told about an event of the network interface: the
/// address that it was given.
pub fn process_netif_state_change(event: IpEvent) -> (r: Option<NetworkStateChange>)
    ensures
        r == ip_news(event),
        event matches IpEvent::DhcpIpAssigned { ip } ==> r == Some(
            NetworkStateChange::IpAddressAssigned { ip },
        ),
        r is Some <==> event is DhcpIpAssigned,
{
    match event {
        IpEvent::DhcpIpAssigned { ip } => Some(NetworkStateChange::IpAddressAssigned { ip }),
        IpEvent::Other => None,
    }
}

} // verus!
