use audioshare_core::netinfo::{get_local_ipv4, pick_local_ipv4, InterfaceInfo};

fn iface(is_v4: bool, ip: &str, is_loopback: bool) -> InterfaceInfo {
    InterfaceInfo {
        is_v4,
        ip: String::from(ip),
        is_loopback,
    }
}

#[test]
fn picks_the_first_usable_interface() {
    let ifaces = vec![
        iface(true, "127.0.0.1", true),
        iface(false, "::1", true),
        iface(false, "fe80::1", false),
        iface(true, "192.168.0.7", false),
        iface(true, "10.0.0.3", false),
    ];
    assert_eq!(pick_local_ipv4(&ifaces), "192.168.0.7");
}

#[test]
fn falls_back_without_a_usable_interface() {
    assert_eq!(pick_local_ipv4(&Vec::new()), "8.8.8.8");
    let only_loopback = vec![iface(true, "127.0.0.1", true)];
    assert_eq!(pick_local_ipv4(&only_loopback), "8.8.8.8");
    let only_v6 = vec![iface(false, "fe80::1", false)];
    assert_eq!(pick_local_ipv4(&only_v6), "8.8.8.8");
}

#[test]
fn machine_address_is_non_empty() {
    let ip = get_local_ipv4();
    assert!(!ip.is_empty());
}
