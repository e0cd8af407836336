use freebox_exporter::mappers::wifi::{
    average_channel_survey_history, calculate_avg_channel_survey_history, fallback_phy_ids,
    get_recent_channel_entries, sort_samples_newest_first, AccessPoint, AccessPointCapabilities,
    ChannelSurveyHistory, ChannelUsage, ExpectedPhy, Flags, Host, L3Connectivities, LastRxTx,
    NeighborsAccessPoint, NeighborsAccessPointFlags, Station, WifiConfig, WifiMetricMap,
};

fn wifi_gauge(name: &str, labels: &[(&str, &str)]) -> Option<f64> {
    for fam in prometheus_exporter::prometheus::gather() {
        if fam.get_name() != name {
            continue;
        }
        for m in fam.get_metric() {
            let ls = m.get_label();
            if ls.len() == labels.len()
                && labels.iter().all(|(k, v)| ls.iter().any(|l| l.get_name() == *k && l.get_value() == *v))
            {
                return Some(m.get_gauge().get_value());
            }
        }
    }
    None
}

fn sample(ts: Option<u64>, busy: u8, tx: u8, rx_bss: u8, rx: u8) -> ChannelSurveyHistory {
    ChannelSurveyHistory {
        timestamp: ts,
        busy_percent: Some(busy),
        tx_percent: Some(tx),
        rx_bss_percent: Some(rx_bss),
        rx_percent: Some(rx),
    }
}

fn l3(addr: &str, af: &str, t: i64) -> L3Connectivities {
    L3Connectivities {
        addr: Some(addr.to_string()),
        af: Some(af.to_string()),
        active: Some(true),
        reachable: Some(true),
        last_activity: Some(t),
        last_time_reachable: Some(t),
    }
}

fn link(bitrate: u64, width: &str) -> LastRxTx {
    LastRxTx { bitrate: Some(bitrate), mcs: Some(7), shortgi: Some(true), vht_mcs: None, width: Some(width.to_string()) }
}

fn station(mac: Option<&str>, l3s: Vec<L3Connectivities>) -> Station {
    Station {
        mac: mac.map(|m| m.to_string()),
        last_rx: Some(link(866, "80")),
        last_tx: Some(link(433, "wide")),
        tx_bytes: Some(1000),
        tx_rate: Some(10),
        rx_bytes: Some(2000),
        rx_rate: None,
        id: None,
        bssid: None,
        flags: Some(Flags { vht: Some(true), legacy: Some(false), authorized: Some(true), ht: None }),
        host: Some(Host {
            l2ident: None,
            l3connectivities: Some(l3s),
            names: None,
            active: Some(true),
            last_activity: Some(99),
            last_time_reachable: None,
            vendor_name: None,
            primary_name: Some("phone".to_string()),
            primary_name_manual: None,
        }),
        signal: Some(-40),
        inactive: None,
        state: Some("authorized".to_string()),
    }
}

fn access_point() -> AccessPoint {
    AccessPoint {
        name: Some("ap0".to_string()),
        id: Some(0),
        config: Some(AccessPointCapabilities { band: Some("5g".to_string()) }),
    }
}

#[test]
fn average_is_the_integer_mean_of_each_percentage() {
    let h = vec![sample(Some(1), 10, 1, 0, 30), sample(Some(2), 20, 2, 0, 31), sample(Some(3), 31, 0, 1, 30)];
    let avg = average_channel_survey_history(&h, 42);
    assert_eq!(avg.timestamp, Some(42));
    assert_eq!(avg.busy_percent, Some(20));
    assert_eq!(avg.tx_percent, Some(1));
    assert_eq!(avg.rx_bss_percent, Some(0));
    assert_eq!(avg.rx_percent, Some(30));

    let h = vec![ChannelSurveyHistory { timestamp: None, busy_percent: None, tx_percent: Some(255), rx_bss_percent: None, rx_percent: None }];
    let avg = calculate_avg_channel_survey_history(&h);
    assert!(avg.timestamp.is_some());
    assert_eq!(avg.busy_percent, Some(0));
    assert_eq!(avg.tx_percent, Some(255));
}

#[test]
fn recent_entries_keep_the_most_recent_newest_first() {
    let none = get_recent_channel_entries(&vec![], 3);
    assert_eq!(none.len(), 1);
    assert_eq!(none[0].busy_percent, Some(0));
    assert_eq!(none[0].rx_percent, Some(0));
    assert!(none[0].timestamp.is_some());

    let h = vec![sample(Some(5), 1, 0, 0, 0), sample(Some(1), 2, 0, 0, 0), sample(Some(3), 3, 0, 0, 0), sample(Some(2), 4, 0, 0, 0)];
    let all = get_recent_channel_entries(&h, 4);
    assert_eq!(all.iter().map(|x| x.timestamp.unwrap()).collect::<Vec<_>>(), vec![5, 1, 3, 2]);
    let kept = get_recent_channel_entries(&h, 2);
    assert_eq!(kept.iter().map(|x| x.timestamp.unwrap()).collect::<Vec<_>>(), vec![5, 3]);

    let three = vec![sample(Some(1), 0, 0, 0, 0), sample(Some(2), 0, 0, 0, 0), sample(Some(3), 0, 0, 0, 0)];
    let recent = get_recent_channel_entries(&three, 2);
    assert_eq!(recent.iter().map(|x| x.timestamp.unwrap()).collect::<Vec<_>>(), vec![3, 2]);
}

#[test]
fn sorting_is_newest_first_and_stable() {
    let h = vec![sample(Some(1), 1, 0, 0, 0), sample(Some(3), 2, 0, 0, 0), sample(Some(1), 3, 0, 0, 0), sample(Some(3), 4, 0, 0, 0)];
    let s = sort_samples_newest_first(&h);
    assert_eq!(s.iter().map(|x| x.busy_percent.unwrap()).collect::<Vec<_>>(), vec![2, 4, 1, 3]);
}

#[test]
fn stations_report_their_most_recent_ipv4_address() {
    let mut map = WifiMetricMap::new("wifitest".to_string(), 5000).unwrap();
    let ap = access_point();
    let stations = vec![station(
        Some("aa:aa"),
        vec![l3("10.0.0.1", "ipv4", 5), l3("fe80::1", "ipv6", 50), l3("10.0.0.2", "ipv4", 9), l3("10.0.0.3", "ipv4", 9)],
    )];
    assert!(map.set_stations_gauges(&stations, &ap).is_ok());
    let labels = [("primary_name", "phone"), ("ipv4", "10.0.0.2"), ("ap_name", "ap0"), ("band", "5g"), ("ap_id", "0"), ("mac", "aa:aa")];
    assert_eq!(wifi_gauge("wifitest_wifi_station_rx_bitrate", &labels), Some(866.0));
    assert_eq!(wifi_gauge("wifitest_wifi_station_rx_width", &labels), Some(80.0));
    assert_eq!(wifi_gauge("wifitest_wifi_station_tx_width", &labels), Some(0.0));
    assert_eq!(wifi_gauge("wifitest_wifi_station_rx_rate", &labels), Some(0.0));
    assert_eq!(wifi_gauge("wifitest_wifi_station_signal", &labels), Some(-40.0));
    assert_eq!(wifi_gauge("wifitest_wifi_station_inactive", &labels), Some(i64::MIN as f64));
    assert_eq!(wifi_gauge("wifitest_wifi_station_last_activity", &labels), Some(99.0));
    assert_eq!(
        wifi_gauge("wifitest_wifi_station_active", &[("primary_name", "phone"), ("ap_name", "ap0"), ("band", "5g"), ("ap_id", "0"), ("mac", "aa:aa"), ("vendor_name", "unknown")]),
        Some(1.0)
    );
    let mut flag_labels = labels.to_vec();
    flag_labels.extend_from_slice(&[("vht", "true"), ("legacy", "false"), ("authorized", "true"), ("ht", "false")]);
    assert_eq!(wifi_gauge("wifitest_wifi_station_flags", &flag_labels), Some(0.0));
}

#[test]
fn a_station_without_ipv4_stops_the_run() {
    let mut map = WifiMetricMap::new("wifistop".to_string(), 5000).unwrap();
    let ap = access_point();
    let stations = vec![
        station(Some("aa:01"), vec![l3("10.0.0.7", "ipv4", 1)]),
        station(Some("aa:02"), vec![l3("fe80::2", "ipv6", 1)]),
        station(Some("aa:03"), vec![l3("10.0.0.9", "ipv4", 1)]),
    ];
    let e = map.set_stations_gauges(&stations, &ap).err().unwrap();
    assert_eq!(e.reason, "no ipv4 address found for station aa:02");
    let first = [("primary_name", "phone"), ("ipv4", "10.0.0.7"), ("ap_name", "ap0"), ("band", "5g"), ("ap_id", "0"), ("mac", "aa:01")];
    assert_eq!(wifi_gauge("wifistop_wifi_station_tx_bytes", &first), Some(1000.0));
    let third = [("primary_name", "phone"), ("ipv4", "10.0.0.9"), ("ap_name", "ap0"), ("band", "5g"), ("ap_id", "0"), ("mac", "aa:03")];
    assert_eq!(wifi_gauge("wifistop_wifi_station_tx_bytes", &third), None);
}

#[test]
fn neighbours_and_channel_usage_are_written() {
    let mut map = WifiMetricMap::new("wifinb".to_string(), 5000).unwrap();
    let n = NeighborsAccessPoint {
        capabilities: Some(NeighborsAccessPointFlags { vht: Some(true), legacy: None, he: Some(false), ht: Some(true), eht: None }),
        channel: Some(36),
        ssid: Some("home".to_string()),
        bssid: None,
        signal: None,
        secondary_channel: Some(40),
        band: Some("5g".to_string()),
    };
    assert!(map.set_neighbors_access_points(&vec![n]).is_ok());
    assert_eq!(
        wifi_gauge(
            "wifinb_wifi_neighbors_access_point",
            &[("channel", "36"), ("ssid", "home"), ("bssid", "unknown"), ("band", "5g"), ("vht", "true"), ("legacy", "false"), ("he", "false"), ("ht", "true"), ("eht", "false"), ("secondary_channel", "40")]
        ),
        Some(-128.0)
    );
    let u = ChannelUsage { band: None, noise_level: Some(-91), channel: Some(6), rx_busy_percent: Some(12) };
    assert!(map.set_channel_usage_gauges(&vec![u]).is_ok());
    assert_eq!(wifi_gauge("wifinb_wifi_channel_usage", &[("band", "unknown"), ("channel", "6"), ("rx_busy_percent", "12")]), Some(-91.0));
}

#[test]
fn channel_survey_gauges_average_recent_samples() {
    let mut map = WifiMetricMap::new("wifisv".to_string(), 200).unwrap();
    let ap = access_point();
    let h = vec![sample(Some(3), 90, 9, 9, 9), sample(Some(1), 10, 1, 1, 1), sample(Some(2), 20, 2, 2, 2)];
    map.set_channel_survey_history_gauges(&ap, &Some(h));
    let labels = [("ap", "0"), ("name", "ap0"), ("band", "5g")];
    assert_eq!(wifi_gauge("wifisv_wifi_busy_percent", &labels), Some(55.0));
    assert_eq!(wifi_gauge("wifisv_wifi_tx_percent", &labels), Some(5.0));
    map.set_channel_survey_history_gauges(&ap, &Some(vec![]));
    assert_eq!(wifi_gauge("wifisv_wifi_busy_percent", &labels), Some(0.0));
}

#[test]
fn fallback_radios_come_from_the_configuration() {
    let none = WifiConfig { enabled: Some(true), power_saving: None, expected_phys: None, mac_filter_state: None };
    assert!(fallback_phy_ids(&none).is_none());
    let two = WifiConfig {
        enabled: Some(true),
        power_saving: None,
        expected_phys: Some(vec![
            ExpectedPhy { band: None, phy_id: Some(0), detected: None },
            ExpectedPhy { band: None, phy_id: Some(2), detected: None },
        ]),
        mac_filter_state: None,
    };
    assert_eq!(fallback_phy_ids(&two), Some(vec![0, 2]));
}
