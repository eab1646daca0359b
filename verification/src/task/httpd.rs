//! The HTTP server, which runs while the station has an address.

use crate::http::HttpMethod;
use crate::state::NetworkStateChange;
#[allow(unused_imports)]
use crate::wifi::{ip_news, wifi_news, IpEvent, WifiEvent};
use vstd::prelude::*;
#[allow(unused_imports)]
use vstd::string::StringSliceAdditionalSpecFns;

verus! {

/// What the server task is told.
#[derive(Copy, Clone, Debug)]
pub enum HttpServerEvent {
    /// The network's state changed.
    Network(NetworkStateChange),
    /// With a server that was just started, the handler for `/` was registered,
    /// or that failed.
    Registered { ok: bool },
    /// The handler answered a request, or that failed.
    Answered { ok: bool },
}

/// What the server task does.
#[derive(Copy, Clone, Debug)]
pub enum HttpServerAction {
    /// Start the server, at this address, and register the handler of
    /// `root_route`.
    Start { ip: embedded_svc::ipv4::Ipv4Addr },
    /// Stop the server.
    Stop,
    /// Wait for the next event.
    Wait,
    /// Restart the device.
    Restart,
}

/// An answer to an HTTP request.
#[derive(Clone, Debug)]
pub struct HttpResponse {
    pub status: u16,
    pub headers: Vec<(String, String)>,
    pub body: Vec<u8>,
}

/// What the server task does about `event`.
pub open spec fn server_action(event: HttpServerEvent) -> HttpServerAction {
    match event {
        HttpServerEvent::Network(NetworkStateChange::IpAddressAssigned { ip }) => {
            HttpServerAction::Start { ip }
        },
        HttpServerEvent::Network(NetworkStateChange::WifiDisconnected) => HttpServerAction::Stop,
        HttpServerEvent::Registered { ok: false } => HttpServerAction::Restart,
        HttpServerEvent::Registered { ok: true } => HttpServerAction::Wait,
        HttpServerEvent::Answered { .. } => HttpServerAction::Wait,
    }
}

/// What the server task does about an event: with an address the server starts,
/// and with the network lost it stops. The device restarts where the handler
/// cannot be registered, and for nothing else.
pub fn http_server_task(event: HttpServerEvent) -> (r: HttpServerAction)
    ensures
        r == server_action(event),
        r == HttpServerAction::Restart <==> event == (HttpServerEvent::Registered { ok: false }),
        r is Start <==> event matches HttpServerEvent::Network(
            NetworkStateChange::IpAddressAssigned { .. },
        ),
        r is Stop <==> event == HttpServerEvent::Network(NetworkStateChange::WifiDisconnected),
{
    match event {
        HttpServerEvent::Network(NetworkStateChange::IpAddressAssigned { ip }) => {
            HttpServerAction::Start { ip }
        },
        HttpServerEvent::Network(NetworkStateChange::WifiDisconnected) => HttpServerAction::Stop,
        HttpServerEvent::Registered { ok: false } => HttpServerAction::Restart,
        HttpServerEvent::Registered { ok: true } => HttpServerAction::Wait,
        HttpServerEvent::Answered { .. } => HttpServerAction::Wait,
    }
}

/// The path and the method that the server has a handler for.
pub fn root_route() -> (r: (&'static str, HttpMethod))
    ensures
        r.0@ == "/"@,
        r.1 == HttpMethod::Get,
{
    ("/", HttpMethod::Get)
}

/// What the server task does once it tried to register the handler for `/`: it
/// restarts the device exactly where that failed.
pub fn after_registration<T, E>(registration: &Result<T, E>) -> (r: HttpServerAction)
    ensures
        r == HttpServerAction::Restart <==> registration is Err,
        r == HttpServerAction::Wait <==> registration is Ok,
{
    http_server_task(HttpServerEvent::Registered { ok: registration.is_ok() })
}

/// Calls `embedded_svc::utils::http::Headers::set_cache_control` on a set of
/// headers with room for one. That set is then the one header `Cache-Control`
/// with this value.
#[verifier::external_body]
fn cache_control(value: &str) -> (r: Vec<(String, String)>)
    ensures
        r@.len() == 1,
        r@[0].0@ == "Cache-Control"@,
        r@[0].1@ == value@,
{
    let mut headers = embedded_svc::utils::http::Headers::<1>::new();
    headers.set_cache_control(value);
    headers.as_slice().iter().map(|h| (String::from(h.0), String::from(h.1))).collect()
}

/// The answer to a request for `/`: the version of the firmware, which is not
/// to be kept in a cache.
pub fn root_response(firmware_version: &str) -> (r: HttpResponse)
    ensures
        r.status == 200,
        r.headers@.len() == 1,
        r.headers@[0].0@ == "Cache-Control"@,
        r.headers@[0].1@ == "no-store"@,
        r.body@ == firmware_version.spec_bytes(),
{
    HttpResponse {
        status: 200,
        headers: cache_control("no-store"),
        body: vstd::slice::slice_to_vec(firmware_version.as_bytes()),
    }
}

/// The address at which the server runs once its task saw all of `changes`, in
/// their order; none where it does not run.
pub open spec fn server_after(changes: Seq<NetworkStateChange>) -> Option<
    embedded_svc::ipv4::Ipv4Addr,
> {
    if changes.len() == 0 {
        None
    } else {
        match server_action(HttpServerEvent::Network(changes.last())) {
            HttpServerAction::Start { ip } => Some(ip),
            _ => None,
        }
    }
}

/// Whether the handler for `/` is to be registered once the task saw all of
/// `events`: since an address was assigned, only requests were answered.
pub open spec fn is_registering(events: Seq<HttpServerEvent>) -> bool
    decreases events.len(),
{
    events.len() > 0 && match events.last() {
        HttpServerEvent::Network(change) => change is IpAddressAssigned,
        HttpServerEvent::Registered { .. } => false,
        HttpServerEvent::Answered { .. } => is_registering(events.drop_last()),
    }
}

/// The device restarts exactly where registering the handler fails. That comes
/// only of an address that was assigned: neither a loss of the network nor a
/// request that could not be answered ever restarts it.
pub proof fn restarts_on_failed_registration(
    events: Seq<HttpServerEvent>,
    event: HttpServerEvent,
)
    requires
        event is Registered ==> is_registering(events),
    ensures
        server_action(event) == HttpServerAction::Restart <==> is_registering(events) && event == (
        HttpServerEvent::Registered { ok: false }),
        event is Network || event is Answered ==> server_action(event)
            != HttpServerAction::Restart,
{
}

/// The server starts exactly at an address that was assigned, and stops exactly
/// where the network is lost. A handler that was registered, and a request that
/// was answered or not, call for nothing.
pub proof fn only_the_network_moves_the_server(
    event: HttpServerEvent,
    ip: embedded_svc::ipv4::Ipv4Addr,
)
    ensures
        server_action(event) == (HttpServerAction::Start { ip }) <==> event
            == HttpServerEvent::Network(NetworkStateChange::IpAddressAssigned { ip }),
        server_action(event) is Stop <==> event == HttpServerEvent::Network(
            NetworkStateChange::WifiDisconnected,
        ),
        server_action(event) is Wait <==> event is Answered || event == (
        HttpServerEvent::Registered { ok: true }),
        server_action(event) is Restart <==> event == (HttpServerEvent::Registered { ok: false }),
{
}

/// The other tasks are told of a lost network exactly where the station lost it,
/// and of an address exactly where the interface was given that one.
pub proof fn news_are_what_happened(event: NetworkEvent, ip: embedded_svc::ipv4::Ipv4Addr)
    ensures
        news(event) == Some(NetworkStateChange::WifiDisconnected) <==> event
            == NetworkEvent::Wifi(WifiEvent::StaDisconnected),
        news(event) == Some(NetworkStateChange::IpAddressAssigned { ip }) <==> event
            == NetworkEvent::Ip(IpEvent::DhcpIpAssigned { ip }),
{
}

/// An event of the Wi-Fi driver or of the network interface.
pub enum NetworkEvent {
    Wifi(WifiEvent),
    Ip(IpEvent),
}

/// What the other tasks are told about `event`.
pub open spec fn news(event: NetworkEvent) -> Option<NetworkStateChange> {
    match event {
        NetworkEvent::Wifi(event) => wifi_news(event),
        NetworkEvent::Ip(event) => ip_news(event),
    }
}

/// All that the other tasks are told about `events`, in their order.
pub open spec fn all_news(events: Seq<NetworkEvent>) -> Seq<NetworkStateChange>
    decreases events.len(),
{
    if events.len() == 0 {
        Seq::empty()
    } else {
        match news(events.last()) {
            Some(change) => all_news(events.drop_last()).push(change),
            None => all_news(events.drop_last()),
        }
    }
}

/// Whether `event` is of no concern to the server.
pub open spec fn is_idle(event: NetworkEvent) -> bool {
    &&& event != NetworkEvent::Wifi(WifiEvent::StaDisconnected)
    &&& !(event matches NetworkEvent::Ip(IpEvent::DhcpIpAssigned { .. }))
}

/// Whether the interface was given the address `ip` by the event at `i`, and
/// since then neither another nor a loss of the network came.
pub open spec fn has_address_since(
    events: Seq<NetworkEvent>,
    i: int,
    ip: embedded_svc::ipv4::Ipv4Addr,
) -> bool {
    &&& 0 <= i < events.len()
    &&& events[i] == NetworkEvent::Ip(IpEvent::DhcpIpAssigned { ip })
    &&& forall|j: int| i < j < events.len() ==> is_idle(#[trigger] events[j])
}

/// The server runs at an address exactly where the interface was given that
/// address, and since then neither another nor a loss of the network came.
pub proof fn server_follows_the_network(
    events: Seq<NetworkEvent>,
    ip: embedded_svc::ipv4::Ipv4Addr,
)
    ensures
        server_after(all_news(events)) == Some(ip) <==> exists|i: int|
            has_address_since(events, i, ip),
    decreases events.len(),
{
    if events.len() > 0 {
        let before = events.drop_last();
        let last = events.len() - 1;
        server_follows_the_network(before, ip);
        if is_idle(events[last]) {
            assert forall|i: int|
                has_address_since(before, i, ip) implies has_address_since(events, i, ip) by {
                assert forall|j: int| i < j < events.len() implies is_idle(
                    #[trigger] events[j],
                ) by {
                    if j < last {
                        assert(before[j] == events[j]);
                    }
                }
            }
            assert forall|i: int|
                has_address_since(events, i, ip) implies has_address_since(before, i, ip) by {
                assert(i != last);
                assert forall|j: int| i < j < before.len() implies is_idle(
                    #[trigger] before[j],
                ) by {
                    assert(events[j] == before[j]);
                }
            }
            if server_after(all_news(before)) == Some(ip) {
                let i = choose|i: int| has_address_since(before, i, ip);
                assert(has_address_since(events, i, ip));
            }
            if exists|i: int| has_address_since(events, i, ip) {
                let i = choose|i: int| has_address_since(events, i, ip);
                assert(has_address_since(before, i, ip));
            }
        } else {
            if server_after(all_news(events)) == Some(ip) {
                assert(has_address_since(events, last, ip));
            }
            if exists|i: int| has_address_since(events, i, ip) {
                let i = choose|i: int| has_address_since(events, i, ip);
                assert(i == last);
            }
        }
    }
}

/// A loss of the network stops the server, whatever came before.
pub proof fn disconnect_stops_the_server(events: Seq<NetworkEvent>)
    ensures
        server_after(all_news(events.push(NetworkEvent::Wifi(WifiEvent::StaDisconnected))))
            is None,
{
    let after = events.push(NetworkEvent::Wifi(WifiEvent::StaDisconnected));
    assert(after.drop_last() =~= events);
}

} // verus!
