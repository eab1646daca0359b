use embedded_svc::ipv4::Ipv4Addr;
use esp_idf_async_wifi::http::HttpMethod;
use esp_idf_async_wifi::state::NetworkStateChange;
use esp_idf_async_wifi::task::httpd::{
    after_registration, http_server_task, root_response, root_route, HttpServerAction,
    HttpServerEvent,
};
use esp_idf_async_wifi::wifi::{
    process_netif_state_change, process_wifi_state_change, station_settings, IpEvent, Login,
    WifiEvent,
};

#[test]
fn network_without_a_password_is_open() {
    let settings = station_settings("guests", "");
    assert_eq!(settings.ssid.as_str(), "guests");
    assert!(matches!(settings.login, Login::Open));
}

#[test]
fn network_with_a_password() {
    let ssid = "s".repeat(32);
    let pass = "p".repeat(64);
    let settings = station_settings(&ssid, &pass);
    assert_eq!(settings.ssid.as_str(), ssid);
    match settings.login {
        Login::Password(password) => assert_eq!(password.as_str(), pass),
        Login::Open => panic!("open"),
    }
}

#[test]
fn lost_network_is_joined_again() {
    let lost = process_wifi_state_change(WifiEvent::StaDisconnected);
    assert!(lost.reconnect);
    assert!(matches!(lost.announce, Some(NetworkStateChange::WifiDisconnected)));
    for event in [WifiEvent::StaConnected, WifiEvent::Other] {
        let reaction = process_wifi_state_change(event);
        assert!(!reaction.reconnect);
        assert!(reaction.announce.is_none());
    }
}

#[test]
fn assigned_address_is_announced() {
    let ip = Ipv4Addr::new(192, 168, 1, 7);
    match process_netif_state_change(IpEvent::DhcpIpAssigned { ip }) {
        Some(NetworkStateChange::IpAddressAssigned { ip: announced }) => assert_eq!(announced, ip),
        other => panic!("{other:?}"),
    }
    assert!(process_netif_state_change(IpEvent::Other).is_none());
}

#[test]
fn server_starts_with_an_address_and_stops_with_its_loss() {
    let ip = Ipv4Addr::new(10, 0, 0, 2);
    match http_server_task(HttpServerEvent::Network(NetworkStateChange::IpAddressAssigned { ip })) {
        HttpServerAction::Start { ip: at } => assert_eq!(at, ip),
        other => panic!("{other:?}"),
    }
    assert!(matches!(
        http_server_task(HttpServerEvent::Network(NetworkStateChange::WifiDisconnected)),
        HttpServerAction::Stop
    ));
}

#[test]
fn server_follows_the_events_of_the_network() {
    let a = Ipv4Addr::new(10, 0, 0, 2);
    let b = Ipv4Addr::new(10, 0, 0, 3);
    let mut running = None;
    let mut see = |change: Option<NetworkStateChange>| {
        if let Some(change) = change {
            running = match http_server_task(HttpServerEvent::Network(change)) {
                HttpServerAction::Start { ip } => Some(ip),
                _ => None,
            };
        }
        running
    };
    assert_eq!(see(process_wifi_state_change(WifiEvent::StaConnected).announce), None);
    assert_eq!(see(process_netif_state_change(IpEvent::DhcpIpAssigned { ip: a })), Some(a));
    assert_eq!(see(process_netif_state_change(IpEvent::Other)), Some(a));
    assert_eq!(see(process_wifi_state_change(WifiEvent::StaDisconnected).announce), None);
    assert_eq!(see(process_wifi_state_change(WifiEvent::StaConnected).announce), None);
    assert_eq!(see(process_netif_state_change(IpEvent::DhcpIpAssigned { ip: b })), Some(b));
}

#[test]
fn root_answers_with_the_version() {
    let response = root_response("1.2.3");
    assert_eq!(response.status, 200);
    assert_eq!(
        response.headers,
        vec![("Cache-Control".to_string(), "no-store".to_string())]
    );
    assert_eq!(response.body, b"1.2.3");
}

#[test]
fn failed_registration_restarts_the_device() {
    assert!(matches!(after_registration::<(), u8>(&Err(1)), HttpServerAction::Restart));
    assert!(matches!(after_registration::<u8, u8>(&Ok(1)), HttpServerAction::Wait));
    assert!(matches!(
        http_server_task(HttpServerEvent::Registered { ok: false }),
        HttpServerAction::Restart
    ));
    assert!(matches!(
        http_server_task(HttpServerEvent::Registered { ok: true }),
        HttpServerAction::Wait
    ));
    for ok in [true, false] {
        assert!(matches!(
            http_server_task(HttpServerEvent::Answered { ok }),
            HttpServerAction::Wait
        ));
    }
}

#[test]
fn server_has_a_handler_for_the_root() {
    assert_eq!(root_route(), ("/", HttpMethod::Get));
}
