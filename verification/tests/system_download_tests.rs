use freebox_exporter::mappers::download::{DlRate, DownloadMetricMap, DownloadStats};
use freebox_exporter::mappers::system::{SystemConfig, SystemMetricMap};

fn value_of(name: &str, values: &[&str]) -> Option<f64> {
    for fam in prometheus_exporter::prometheus::gather() {
        if fam.get_name() != name {
            continue;
        }
        for m in fam.get_metric() {
            let mut got: Vec<&str> = m.get_label().iter().map(|l| l.get_value()).collect();
            let mut want: Vec<&str> = values.to_vec();
            got.sort();
            want.sort();
            if got == want {
                return Some(m.get_gauge().get_value());
            }
        }
    }
    None
}

fn bare_system() -> SystemConfig {
    SystemConfig {
        mac: Some("38:12:34:56:78:90".to_string()),
        box_flavor: None,
        box_model_name: None,
        device_name: None,
        api_version: None,
        temp_hdd: None,
        temp_cpub: None,
        temp_cpum: None,
        temp_t1: None,
        temp_t2: None,
        temp_cpu0: None,
        temp_cpu1: None,
        temp_cpu2: None,
        temp_cpu3: None,
        disk_status: None,
        box_authenticated: None,
        board_name: None,
        fan_rpm: None,
        temp_sw: None,
        uptime_val: None,
        user_main_storage: None,
        serial: None,
        firmware_version: None,
    }
}

#[test]
fn ultra_boxes_report_per_core_temperatures() {
    let mut map = SystemMetricMap::new("sysultra".to_string()).unwrap();
    let mut c = bare_system();
    c.temp_cpu0 = Some(59);
    c.temp_cpu1 = Some(47);
    c.temp_cpu3 = Some(50);
    c.fan_rpm = Some(1200);
    map.set_system_config(&c);
    assert_eq!(value_of("sysultra_system_temp_cpu", &["0"]), Some(59.0));
    assert_eq!(value_of("sysultra_system_temp_cpu", &["1"]), Some(47.0));
    assert_eq!(value_of("sysultra_system_temp_cpu", &["2"]), None);
    assert_eq!(value_of("sysultra_system_temp_cpu", &["3"]), Some(50.0));
    assert_eq!(value_of("sysultra_system_temp_cpub", &[]), Some(59.0));
    assert_eq!(value_of("sysultra_system_temp_cpum", &[]), Some(47.0));
    assert_eq!(value_of("sysultra_system_fan_rpm", &[]), Some(1200.0));
}

#[test]
fn older_boxes_report_b_and_m_temperatures() {
    let mut map = SystemMetricMap::new("syslegacy".to_string()).unwrap();
    let mut c = bare_system();
    c.temp_cpub = Some(62);
    c.temp_cpum = Some(45);
    c.disk_status = Some("active".to_string());
    map.set_system_config(&c);
    assert_eq!(value_of("syslegacy_system_temp_cpu", &["b"]), Some(62.0));
    assert_eq!(value_of("syslegacy_system_temp_cpu", &["m"]), Some(45.0));
    assert_eq!(value_of("syslegacy_system_temp_cpub", &[]), Some(62.0));
    assert_eq!(value_of("syslegacy_system_disk_status", &["active"]), Some(1.0));
}

#[test]
fn download_counters_and_throttling() {
    let mut map = DownloadMetricMap::new("dltest".to_string()).unwrap();
    let stats = DownloadStats {
        nb_tasks: Some(13),
        nb_tasks_stopped: Some(11),
        nb_tasks_checking: None,
        nb_tasks_queued: None,
        nb_tasks_extracting: None,
        nb_tasks_done: Some(2),
        nb_tasks_repairing: None,
        nb_tasks_seeding: None,
        nb_tasks_downloading: None,
        nb_tasks_error: None,
        nb_tasks_stopping: None,
        nb_tasks_active: Some(0),
        nb_rss_items_unread: Some(42),
        rx_rate: Some(14222),
        tx_rate: Some(4294),
        throttling_mode: Some("normal".to_string()),
        throttling_is_scheduled: Some(false),
        throttling_rate: Some(DlRate { rx_rate: Some(100), tx_rate: None }),
        conn_ready: Some(true),
        nb_peer: None,
    };
    map.set_download_metrics(&stats);
    assert_eq!(value_of("dltest_download_tasks_total", &[]), Some(13.0));
    assert_eq!(value_of("dltest_download_rx_rate_bytes_per_second", &[]), Some(14222.0));
    assert_eq!(value_of("dltest_download_rss_items_unread", &[]), Some(42.0));
    assert_eq!(value_of("dltest_download_connection_ready", &[]), Some(1.0));
    assert_eq!(value_of("dltest_download_throttling_mode_info", &["normal"]), Some(1.0));
    assert_eq!(value_of("dltest_download_throttling_rx_rate_bytes_per_second", &[]), Some(100.0));
    assert_eq!(value_of("dltest_download_throttling_tx_rate_bytes_per_second", &[]), Some(0.0));
}
