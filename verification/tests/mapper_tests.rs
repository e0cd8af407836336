use freebox_exporter::capabilities::Capabilities;
use freebox_exporter::configuration::{ApiConfiguration, CapabilitiesConfiguration};
use freebox_exporter::mappers::{MetricMapInstance, Mapper};
use freebox_exporter::server::{listen_address, Server};

fn caps(mode: &str) -> Capabilities {
    Capabilities {
        connection: Some(true),
        system: Some(true),
        lan: Some(true),
        lan_browser: Some(true),
        switch: Some(true),
        wifi: Some(true),
        dhcp: Some(true),
        network_mode: Some(mode.to_string()),
    }
}

fn kinds(m: &Mapper) -> Vec<&'static str> {
    m.maps
        .iter()
        .map(|x| match x {
            MetricMapInstance::Connection(_) => "connection",
            MetricMapInstance::System(_) => "system",
            MetricMapInstance::Lan(_) => "lan",
            MetricMapInstance::LanBrowser(_) => "lan_browser",
            MetricMapInstance::Switch(_) => "switch",
            MetricMapInstance::Wifi(_) => "wifi",
            MetricMapInstance::Dhcp(_) => "dhcp",
        })
        .collect()
}

#[test]
fn mapper_builds_the_enabled_maps_in_order() {
    let conf = CapabilitiesConfiguration {
        connection: Some(true),
        system: Some(false),
        lan: Some(true),
        lan_browser: Some(true),
        switch: None,
        wifi: Some(true),
        dhcp: Some(true),
        prefix: Some("maptest".to_string()),
    };
    let m = Mapper::new(conf, caps("router"), ApiConfiguration { refresh: Some(7) }).unwrap();
    assert_eq!(kinds(&m), vec!["connection", "lan", "lan_browser", "wifi", "dhcp"]);
    for x in m.maps.iter() {
        if let MetricMapInstance::Wifi(w) = x {
            assert_eq!(w.history_ttl_ms, 7000);
        }
    }
}

#[test]
fn lan_browser_needs_router_mode() {
    let conf = CapabilitiesConfiguration {
        connection: None,
        system: None,
        lan: None,
        lan_browser: Some(true),
        switch: Some(true),
        wifi: None,
        dhcp: None,
        prefix: Some("mapbridge".to_string()),
    };
    let m = Mapper::new(conf, caps("bridge"), ApiConfiguration { refresh: None }).unwrap();
    assert_eq!(kinds(&m), vec!["switch"]);
    let s = Server::new(9102, 5, m);
    assert_eq!((s.port, s.refresh_interval, s.mapper.maps.len()), (9102, 5, 1));
    assert_eq!(listen_address(9102), "0.0.0.0:9102");
}

#[test]
fn nothing_enabled_needs_no_prefix() {
    let conf = CapabilitiesConfiguration {
        connection: None,
        system: None,
        lan: None,
        lan_browser: None,
        switch: None,
        wifi: None,
        dhcp: None,
        prefix: None,
    };
    let m = Mapper::new(conf, caps("router"), ApiConfiguration { refresh: None }).unwrap();
    assert!(m.maps.is_empty());
}

#[test]
fn mapper_reports_the_metric_it_could_not_register() {
    let conf = || CapabilitiesConfiguration {
        connection: None,
        system: None,
        lan: Some(true),
        lan_browser: None,
        switch: None,
        wifi: None,
        dhcp: Some(true),
        prefix: Some("twicemapper".to_string()),
    };
    assert!(Mapper::new(conf(), caps("router"), ApiConfiguration { refresh: None }).is_ok());
    match Mapper::new(conf(), caps("router"), ApiConfiguration { refresh: None }) {
        Err(freebox_exporter::gauge::GaugeError::Registration(n)) => {
            assert_eq!(n, "twicemapper_lan_config_name_dns")
        }
        other => panic!("unexpected: {:?}", other.map(|m| m.maps.len())),
    }
}

#[test]
fn mapper_with_an_unusable_prefix_fails_at_its_first_metric() {
    let conf = CapabilitiesConfiguration {
        connection: None,
        system: Some(true),
        lan: None,
        lan_browser: None,
        switch: None,
        wifi: None,
        dhcp: None,
        prefix: Some("9fbx".to_string()),
    };
    match Mapper::new(conf, caps("router"), ApiConfiguration { refresh: None }) {
        Err(freebox_exporter::gauge::GaugeError::Creation(n)) => assert_eq!(n, "9fbx_system_mac"),
        other => panic!("unexpected: {:?}", other.map(|m| m.maps.len())),
    }
}
