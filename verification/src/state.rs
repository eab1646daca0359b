//! The events by which the tasks of the firmware talk to each other.

use vstd::prelude::*;

verus! {

/// The address from which a firmware image is downloaded.
pub type OtaUrl = heapless::String<128>;

/// `Ipv4Addr` as `embedded_svc` has it; opaque to the proofs.
#[verifier::external_type_specification]
#[verifier::external_body]
pub struct ExIpv4Addr(embedded_svc::ipv4::Ipv4Addr);

/// A change of the network's state.
#[derive(Copy, Clone, Debug)]
pub enum NetworkStateChange {
    WifiDisconnected,
    IpAddressAssigned { ip: embedded_svc::ipv4::Ipv4Addr },
}

/// One reading of the wind sensor.
#[derive(Copy, Clone, Eq, PartialEq, Debug, Structural)]
pub struct WindData {
    pub speed: u16,
    pub angle: u16,
}

/// A change of the application's state.
#[derive(Clone, Debug)]
pub enum ApplicationStateChange {
    /// A firmware update from the given address is wanted.
    OTAUpdateRequest(OtaUrl),
    /// A firmware update begins; the other tasks are to shut down.
    OTAUpdateStarted,
    /// The wind sensor was read.
    NewWindData(WindData),
}

} // verus!
