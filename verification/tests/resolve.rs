use ddns_update::error::ClientError;
use ddns_update::iface::{find_interface, find_ipv4, get_ip_by_device_name, IpAddress, IpFamily, NetworkInterface};
use ddns_update::reconcile::{resolve, Action, Config, ReconcileInput, State};

fn v4(text: &str) -> IpAddress {
    IpAddress { family: IpFamily::V4, text: text.to_string() }
}

fn v6(text: &str) -> IpAddress {
    IpAddress { family: IpFamily::V6, text: text.to_string() }
}

fn iface(name: &str, ips: Vec<IpAddress>) -> NetworkInterface {
    NetworkInterface { name: name.to_string(), ips }
}

fn host() -> Vec<NetworkInterface> {
    vec![
        iface("lo", vec![v4("127.0.0.1"), v6("::1")]),
        iface("eth0", vec![v6("fe80::1"), v4("192.168.1.20"), v4("10.0.0.7")]),
        iface("wlan0", vec![v6("fe80::2")]),
        iface("eth0", vec![v4("172.16.0.1")]),
    ]
}

fn config(device: &str) -> Config {
    Config {
        zone: "zone1".to_string(),
        token: "tok".to_string(),
        target_name: "home.example.com".to_string(),
        device: device.to_string(),
    }
}

#[test]
fn first_ipv4_of_the_named_interface_is_chosen() {
    let got = get_ip_by_device_name(&host(), &"eth0".to_string());
    assert_eq!(got, Some(v4("192.168.1.20")));
}

#[test]
fn loopback_resolves_to_its_ipv4_address() {
    let got = get_ip_by_device_name(&host(), &"lo".to_string());
    assert_eq!(got, Some(v4("127.0.0.1")));
}

#[test]
fn absent_interface_gives_nothing() {
    assert_eq!(get_ip_by_device_name(&host(), &"eth1".to_string()), None);
    assert_eq!(get_ip_by_device_name(&Vec::new(), &"eth0".to_string()), None);
}

#[test]
fn interface_without_ipv4_gives_nothing() {
    assert_eq!(get_ip_by_device_name(&host(), &"wlan0".to_string()), None);
    let bare = vec![iface("eth0", Vec::new())];
    assert_eq!(get_ip_by_device_name(&bare, &"eth0".to_string()), None);
}

#[test]
fn only_the_first_interface_of_a_name_is_looked_at() {
    let hosts = vec![iface("eth0", vec![v6("fe80::1")]), iface("eth0", vec![v4("10.0.0.1")])];
    assert_eq!(get_ip_by_device_name(&hosts, &"eth0".to_string()), None);
}

#[test]
fn interface_names_match_exactly_and_with_case() {
    assert_eq!(get_ip_by_device_name(&host(), &"ETH0".to_string()), None);
    assert_eq!(get_ip_by_device_name(&host(), &"eth".to_string()), None);
    assert_eq!(get_ip_by_device_name(&host(), &"eth00".to_string()), None);
    assert_eq!(get_ip_by_device_name(&host(), &"".to_string()), None);
}

#[test]
fn positions_of_interface_and_address() {
    assert_eq!(find_interface(&host(), &"eth0".to_string()), Some(1));
    assert_eq!(find_interface(&host(), &"wlan0".to_string()), Some(2));
    assert_eq!(find_interface(&host(), &"none".to_string()), None);
    assert_eq!(find_ipv4(&host()[1].ips), Some(1));
    assert_eq!(find_ipv4(&host()[2].ips), None);
    assert_eq!(find_ipv4(&Vec::new()), None);
}

#[test]
fn resolving_begins_the_read() {
    let t = resolve(&config("eth0"), &host());
    let input = ReconcileInput {
        zone: "zone1".to_string(),
        token: "tok".to_string(),
        target_name: "home.example.com".to_string(),
        target_ip: "192.168.1.20".to_string(),
    };
    assert_eq!(t.state, State::Reading(input));
    match t.action {
        Action::Read(r) => {
            assert_eq!(r.url, "https://api.cloudflare.com/client/v4/zones/zone1/dns_records");
            assert_eq!(r.name, "home.example.com");
            assert_eq!(r.token, "tok");
        }
        other => panic!("expected a read, got {:?}", other),
    }
}

#[test]
fn missing_device_aborts_without_a_request() {
    for device in ["eth1", "wlan0", "Eth0"] {
        let t = resolve(&config(device), &host());
        assert_eq!(t.state, State::Finished);
        assert_eq!(t.action, Action::Abort(ClientError::MissingDevice));
    }
}
