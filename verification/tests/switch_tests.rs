use freebox_exporter::mappers::switch::{
    handle_malformed_mac_list, port_stats_result, ports_status_result, switch_dry_run_document,
    SwitchMetricMap, SwitchPortHost, SwitchPortStats, SwitchPortStatus,
};
use freebox_exporter::transport::FreeboxResponse;
use regex::Regex;

const MALFORMED_PAYLOAD: &str = r#"{"success":true,"result":[{"duplex":"full","mac_list":[{"mac":"xx:xx:xx:xx:xx:xx","hostname":"some device :)"}],"name":"Ethernet 1","link":"up","id":1,"mode":"100BaseTX-FD","speed":"100","rrd_id":"1"},{"duplex":"full","mac_list":[{"mac":"xx:xx:xx:xx:xx:xx","hostname":"some device :)"}],"name":"Ethernet 2","link":"up","id":2,"mode":"100BaseTX-FD","speed":"100","rrd_id":"2"},{"duplex":"full","mac_list":[{"mac":"xx:xx:xx:xx:xx:xx","hostname":"some device :)"},{"mac":"xx:xx:xx:xx:xx:xx","hostname":"some device :)"},{"mac":"xx:xx:xx:xx:xx:xx","hostname":"some device :)"},{"mac":"xx:xx:xx:xx:xx:xx","hostname":"some device :)"},{"mac":"xx:xx:xx:xx:xx:xx","hostname":"some device :)"}],"name":"Ethernet 3","link":"up","id":3,"mode":"1000BaseT-FD","speed":"1000","rrd_id":"3"},{"duplex":"full","mac_list":[{"mac":"xx:xx:xx:xx:xx:xx","hostname":"some device :)"}],"name":"Ethernet 4","link":"up","id":4,"mode":"100BaseTX-FD","speed":"100","rrd_id":"4"},{"duplex":"half","name":"Freeplug","link":"down","id":5,"mode":"10BaseT-HD","speed":"10","rrd_id":"freeplug"},{"duplex":"auto","mac_list":{},"name":"Sfp lan","link":"down","id":6,"mode":"1000BaseT-FD","speed":"1000","rrd_id":"sfp_lan"}]}"#;

fn switch_gauge(name: &str, labels: &[(&str, &str)]) -> Option<f64> {
    for fam in prometheus_exporter::prometheus::gather() {
        if fam.get_name() != name {
            continue;
        }
        for m in fam.get_metric() {
            let ls = m.get_label();
            if ls.len() == labels.len()
                && labels.iter().all(|(k, v)| ls.iter().any(|l| l.get_name() == *k && l.get_value() == *v))
            {
                return Some(m.get_gauge().get_value());
            }
        }
    }
    None
}

fn empty_stats() -> SwitchPortStats {
    SwitchPortStats {
        rx_packets_rate: None, rx_good_bytes: None, rx_oversize_packets: None, rx_unicast_packets: None,
        tx_bytes_rate: None, tx_unicast_packets: None, rx_bytes_rate: None, tx_packets: None,
        tx_collisions: None, tx_packets_rate: None, tx_fcs: None, tx_bytes: None,
        rx_jabber_packets: None, tx_single: None, tx_excessive: None, rx_pause: None,
        rx_multicast_packets: None, tx_pause: None, rx_good_packets: None, rx_broadcast_packets: None,
        tx_multiple: None, tx_deferred: None, tx_late: None, tx_multicast_packets: None,
        rx_fcs_packets: None, tx_broadcast_packets: None, rx_err_packets: None, rx_fragments_packets: None,
        rx_bad_bytes: None, rx_undersize_packets: None,
    }
}

#[test]
fn should_handle_malformed_mac_list_test() {
    let res = handle_malformed_mac_list(MALFORMED_PAYLOAD);
    assert!(res.is_ok());

    // check is the replacement is done correctly
    let reg = Regex::new(r#""mac_list".+\[\s{0,}\]"#).unwrap();
    assert!(reg.is_match(&res.unwrap()));
}

#[test]
fn poc_malformed_mac_list() {
    let fixed = handle_malformed_mac_list(MALFORMED_PAYLOAD).unwrap();
    let value: serde_json::Value = serde_json::from_str(&fixed).expect("the fixed payload decodes");
    assert_eq!(value["success"], serde_json::Value::Bool(true));
    let ports = value["result"].as_array().unwrap();
    let last = ports.last().unwrap();
    let hosts = last["mac_list"].as_array().expect("mac_list is now an array");
    assert!(!hosts.iter().any(|x| x.get("mac").is_some()));
    assert_eq!(ports[0]["mac_list"].as_array().unwrap().len(), 1);
}

#[test]
fn well_formed_status_is_left_alone() {
    let body = r#"{"success":true,"result":[{"id":1,"mac_list":[]}]}"#;
    assert_eq!(handle_malformed_mac_list(body).unwrap(), body);
}

#[test]
fn switch_dry_run_document_joins_answers() {
    let doc = switch_dry_run_document("{\"a\":1}", &vec!["{\"p\":1}".to_string(), "{\"p\":2}".to_string()]);
    assert_eq!(doc, "{\"status\":{\"a\":1},\"stats\":[{\"p\":1},{\"p\":2}]}");
    let doc = switch_dry_run_document("[]", &vec![]);
    assert_eq!(doc, "{\"status\":[],\"stats\":[]}");
}

#[test]
fn port_answers_are_checked() {
    let empty: FreeboxResponse<SwitchPortStats> =
        FreeboxResponse { msg: None, success: Some(true), uid: None, error_code: None, result: None };
    let e = port_stats_result(empty, 3).err().unwrap();
    assert_eq!(e.reason, "v4/switch/port/3/stats response was empty");

    let failed: FreeboxResponse<Vec<SwitchPortStatus>> = FreeboxResponse {
        msg: Some("denied".to_string()),
        success: Some(false),
        uid: None,
        error_code: None,
        result: None,
    };
    assert_eq!(ports_status_result(failed).err().unwrap().reason, "denied");

    let empty: FreeboxResponse<Vec<SwitchPortStatus>> =
        FreeboxResponse { msg: None, success: Some(true), uid: None, error_code: None, result: None };
    assert_eq!(ports_status_result(empty).err().unwrap().reason, "v4/switch/status/ response was empty");
}

#[test]
fn set_port_writes_counters_link_speed_and_hosts() {
    let mut map = SwitchMetricMap::new("swtest".to_string()).unwrap();
    map.reset_all();
    let status = SwitchPortStatus {
        id: Some(2),
        link: Some("up".to_string()),
        speed: Some("1000".to_string()),
        mac_list: Some(vec![
            SwitchPortHost { mac: Some("aa:bb".to_string()), hostname: Some("nas".to_string()) },
            SwitchPortHost { mac: None, hostname: None },
        ]),
    };
    let mut stats = empty_stats();
    stats.rx_packets_rate = Some(17);
    stats.tx_bytes = Some(1234);
    map.set_port(&status, &stats);
    assert_eq!(switch_gauge("swtest_switch_stats_rx_packets_rate", &[("port", "2")]), Some(17.0));
    assert_eq!(switch_gauge("swtest_switch_stats_tx_bytes", &[("port", "2")]), Some(1234.0));
    assert_eq!(switch_gauge("swtest_switch_stats_rx_bad_bytes", &[("port", "2")]), Some(0.0));
    assert_eq!(switch_gauge("swtest_switch_port_status", &[("port", "2")]), Some(1.0));
    assert_eq!(switch_gauge("swtest_switch_port_speed", &[("port", "2")]), Some(1000.0));
    assert_eq!(switch_gauge("swtest_switch_port_mac_list", &[("port", "2"), ("mac", "aa:bb"), ("hostname", "nas")]), Some(1.0));
    assert_eq!(switch_gauge("swtest_switch_port_mac_list", &[("port", "2"), ("mac", ""), ("hostname", "")]), Some(1.0));

    let down = SwitchPortStatus { id: None, link: Some("down".to_string()), speed: Some("fast".to_string()), mac_list: None };
    map.set_port(&down, &empty_stats());
    assert_eq!(switch_gauge("swtest_switch_port_status", &[("port", "0")]), Some(0.0));
    assert_eq!(switch_gauge("swtest_switch_port_speed", &[("port", "0")]), Some(0.0));

    map.reset_all();
    assert_eq!(switch_gauge("swtest_switch_port_status", &[("port", "2")]), None);
}

#[test]
fn set_ports_clears_then_shows_each_port() {
    let mut map = SwitchMetricMap::new("swrefresh".to_string()).unwrap();
    let old = SwitchPortStatus { id: Some(9), link: Some("up".to_string()), speed: Some("10".to_string()), mac_list: None };
    map.set_port(&old, &empty_stats());
    let ports = vec![
        SwitchPortStatus { id: Some(1), link: Some("up".to_string()), speed: Some("100".to_string()), mac_list: None },
        SwitchPortStatus { id: Some(3), link: Some("down".to_string()), speed: None, mac_list: None },
    ];
    let mut first = empty_stats();
    first.tx_bytes = Some(5);
    let mut second = empty_stats();
    second.tx_bytes = Some(7);
    map.set_ports(&ports, &vec![first, second]);
    assert_eq!(switch_gauge("swrefresh_switch_port_status", &[("port", "9")]), None);
    assert_eq!(switch_gauge("swrefresh_switch_stats_tx_bytes", &[("port", "1")]), Some(5.0));
    assert_eq!(switch_gauge("swrefresh_switch_stats_tx_bytes", &[("port", "3")]), Some(7.0));
    assert_eq!(switch_gauge("swrefresh_switch_port_speed", &[("port", "1")]), Some(100.0));
    assert_eq!(switch_gauge("swrefresh_switch_port_status", &[("port", "3")]), Some(0.0));
}
