use tls_proxy::resolver::{get_addresses, get_port, IpAddress, SocketAddress};

#[test]
fn port_after_last_colon() {
    assert_eq!(get_port("example.com:8443"), Some("8443"));
}

#[test]
fn no_colon_no_port() {
    assert_eq!(get_port("example.com"), None);
}

#[test]
fn non_numeric_port() {
    assert_eq!(get_port("example.com:abc"), None);
}

#[test]
fn port_edges() {
    assert_eq!(get_port("a:1:2"), Some("2"));
    assert_eq!(get_port("[::1]:8080"), Some("8080"));
    assert_eq!(get_port("host:65535"), Some("65535"));
    assert_eq!(get_port("host:65536"), None);
    assert_eq!(get_port("host:"), None);
    assert_eq!(get_port("host:+80"), Some("+80"));
    assert_eq!(get_port("host:+"), None);
    assert_eq!(get_port("host:-1"), None);
    assert_eq!(get_port(""), None);
    assert_eq!(get_port("h:99999999999999999999"), None);
}

fn v4(last: u8, port: u16) -> SocketAddress {
    SocketAddress { ip: IpAddress::V4([127, 0, 0, last]), port }
}

fn v6(last: u8, port: u16) -> SocketAddress {
    let mut octets = [0u8; 16];
    octets[15] = last;
    SocketAddress { ip: IpAddress::V6 { octets, flowinfo: 0, scope_id: 0 }, port }
}

#[test]
fn last_address_of_each_family_wins() {
    let found = vec![v4(1, 80), v6(1, 80), v4(2, 81), v6(2, 82), v4(3, 83)];
    let a = get_addresses(&found);
    assert_eq!(a.ipv4, Some(v4(3, 83)));
    assert_eq!(a.ipv6, Some(v6(2, 82)));
}

#[test]
fn no_addresses_is_not_an_error() {
    let a = get_addresses(&vec![]);
    assert_eq!(a.ipv4, None);
    assert_eq!(a.ipv6, None);
    let only4 = get_addresses(&vec![v4(1, 1)]);
    assert_eq!(only4.ipv4, Some(v4(1, 1)));
    assert_eq!(only4.ipv6, None);
}
