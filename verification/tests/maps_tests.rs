use freebox_exporter::mappers::connection::{ConnectionMetricMap, ConnectionStatus};
use freebox_exporter::mappers::dhcp::{fetch_dhcp_leases, DhcpLease, DhcpMetricMap, DynamicDhcpLease, StaticDhcpLease};
use freebox_exporter::mappers::lan::{LanConfig, LanMetricMap};
use freebox_exporter::mappers::lanbrowser::{LanBrowserInterface, LanBrowserMetricMap, LanHost, LanHostL3Connectivity, LanHostName};

/// The value of the child of `name` whose label values are exactly `values`, in any order.
fn child_value(name: &str, values: &[&str]) -> Option<f64> {
    for fam in prometheus_exporter::prometheus::gather() {
        if fam.get_name() != name {
            continue;
        }
        for m in fam.get_metric() {
            let mut got: Vec<&str> = m.get_label().iter().map(|l| l.get_value()).collect();
            let mut want: Vec<&str> = values.to_vec();
            got.sort();
            want.sort();
            if got == want {
                return Some(m.get_gauge().get_value());
            }
        }
    }
    None
}

#[test]
fn lan_config_children_are_present_or_not() {
    let mut map = LanMetricMap::new("lantest".to_string()).unwrap();
    let cfg = LanConfig {
        name_dns: Some("freebox".to_string()),
        name_mdns: None,
        name: Some("Freebox Server".to_string()),
        mode: Some("router".to_string()),
        name_netbios: None,
        ip: Some("192.168.1.254".to_string()),
    };
    map.set_lan_config(&cfg);
    assert_eq!(child_value("lantest_lan_config_mode", &["router"]), Some(1.0));
    assert_eq!(child_value("lantest_lan_config_ip", &["192.168.1.254"]), Some(1.0));
    assert_eq!(child_value("lantest_lan_config_name_mdns", &[""]), Some(0.0));
    map.reset_all();
    assert_eq!(child_value("lantest_lan_config_mode", &["router"]), None);
}

#[test]
fn connection_status_counters_and_state() {
    let mut map = ConnectionMetricMap::new("conntest".to_string()).unwrap();
    let status = ConnectionStatus {
        _type: Some("ethernet".to_string()),
        rate_down: Some(100),
        bytes_up: None,
        rate_up: Some(5),
        bandwidth_up: Some(700000000),
        ipv4: Some("1.2.3.4".to_string()),
        ipv6: None,
        bandwidth_down: Some(8000000000),
        state: Some("up".to_string()),
        bytes_down: Some(42),
        media: Some("FTTH".to_string()),
    };
    map.set_connection_status(&status);
    assert_eq!(child_value("conntest_connection_bytes_down", &[]), Some(42.0));
    assert_eq!(child_value("conntest_connection_bytes_up", &[]), Some(0.0));
    assert_eq!(child_value("conntest_connection_state", &["up"]), Some(1.0));
    assert_eq!(child_value("conntest_connection_type", &["ethernet"]), Some(1.0));
    assert_eq!(child_value("conntest_connection_ipv6", &[""]), Some(1.0));
    assert!(map.observe_media(&status));
}

#[test]
fn dhcp_leases_dynamic_then_static() {
    let dynamic = DynamicDhcpLease {
        id: Some("d1".to_string()),
        hostname: Some("laptop".to_string()),
        ip: Some("192.168.1.10".to_string()),
        mac: Some("aa".to_string()),
        assign_time: Some(1000),
        lease_remaining: Some(300),
        refresh_time: Some(60),
    };
    let fixed = StaticDhcpLease {
        id: Some("s1".to_string()),
        hostname: Some("nas".to_string()),
        ip: Some("192.168.1.2".to_string()),
        mac: Some("bb".to_string()),
    };
    let leases = fetch_dhcp_leases(vec![dynamic], vec![fixed]);
    assert_eq!(leases.len(), 2);
    assert!(matches!(leases[0], DhcpLease::Dynamic(_)));
    assert!(matches!(leases[1], DhcpLease::Static(_)));
    let mut map = DhcpMetricMap::new("dhcptest".to_string()).unwrap();
    map.set_all(&leases);
    assert_eq!(child_value("dhcptest_dhcp_lease_remaining", &["d1", "laptop", "192.168.1.10", "aa", "false"]), Some(300.0));
    assert_eq!(child_value("dhcptest_dhcp_assign_time", &["d1", "laptop", "192.168.1.10", "aa", "false"]), Some(1000.0));
    assert_eq!(child_value("dhcptest_dhcp_lease_remaining", &["s1", "nas", "192.168.1.2", "bb", "true"]), Some(-1.0));
    assert_eq!(child_value("dhcptest_dhcp_assign_time", &["s1", "nas", "192.168.1.2", "bb", "true"]), Some(0.0));
}

#[test]
fn lan_browser_interfaces_and_hosts() {
    let mut map = LanBrowserMetricMap::new("lbtest".to_string()).unwrap();
    let pub_iface = LanBrowserInterface { name: Some("pub".to_string()), host_count: Some(1) };
    let empty = LanBrowserInterface { name: Some("wifiguest".to_string()), host_count: None };
    assert!(map.set_iface(&pub_iface));
    assert!(!map.set_iface(&empty));
    assert_eq!(child_value("lbtest_lan_browser_iface_hosts", &["pub"]), Some(1.0));
    assert_eq!(child_value("lbtest_lan_browser_iface_hosts", &["wifiguest"]), Some(0.0));
    let host = LanHost {
        id: Some("ether-aa".to_string()),
        primary_name: Some("tv".to_string()),
        host_type: Some("television".to_string()),
        primary_name_manual: Some(true),
        l2ident: None,
        vendor_name: None,
        active: Some(true),
        last_activity: Some(77),
        names: Some(vec![LanHostName { name: Some("tv.local".to_string()), source: Some("mdns".to_string()) }]),
        l3connectivities: Some(vec![LanHostL3Connectivity { addr: Some("192.168.1.3".to_string()), af: Some("ipv4".to_string()), active: Some(true) }]),
    };
    map.set_devices(&pub_iface, &vec![host]);
    assert_eq!(child_value("lbtest_lan_browser_device_last_activity", &["pub", "tv"]), Some(77.0));
}

#[test]
fn map_reports_a_name_registered_twice() {
    assert!(DhcpMetricMap::new("twicedhcp".to_string()).is_ok());
    match DhcpMetricMap::new("twicedhcp".to_string()) {
        Err(freebox_exporter::gauge::GaugeError::Registration(n)) => assert_eq!(n, "twicedhcp_dhcp_lease_remaining"),
        other => panic!("unexpected: {:?}", other.is_ok()),
    }
}

#[test]
fn map_reports_a_name_prometheus_refuses() {
    match LanMetricMap::new("bad-prefix".to_string()) {
        Err(freebox_exporter::gauge::GaugeError::Creation(n)) => assert_eq!(n, "bad-prefix_lan_config_name_dns"),
        other => panic!("unexpected: {:?}", other.is_ok()),
    }
}
