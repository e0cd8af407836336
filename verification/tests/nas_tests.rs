use freebox_exporter::mappers::nas::{
    disk_state_code, fsck_code, partition_state_code, DiskPartition, NasMetricMap, OperationProgress, StorageDisk,
};

fn nas_gauge(name: &str, labels: &[(&str, &str)]) -> Option<f64> {
    for fam in prometheus_exporter::prometheus::gather() {
        if fam.get_name() != name {
            continue;
        }
        for m in fam.get_metric() {
            let ls = m.get_label();
            if ls.len() == labels.len()
                && labels.iter().all(|(k, v)| ls.iter().any(|l| l.get_name() == *k && l.get_value() == *v))
            {
                return Some(m.get_gauge().get_value());
            }
        }
    }
    None
}

fn internal_disk() -> StorageDisk {
    StorageDisk {
        id: 1,
        disk_type: Some("internal".to_string()),
        state: Some("enabled".to_string()),
        connector: Some(0),
        total_bytes: Some(250059350016),
        table_type: Some("msdos".to_string()),
        model: Some("Hitachi HCC545025B9A300".to_string()),
        serial: Some("GSCH35VC".to_string()),
        firmware: Some("PB2ICC0E".to_string()),
        temp: Some(51),
        operation_pct: None,
        partitions: Some(vec![DiskPartition {
            id: 3,
            disk_id: 1,
            state: Some("mounted".to_string()),
            fstype: Some("ext4".to_string()),
            label: Some("Disque dur".to_string()),
            total_bytes: Some(245091500032),
            used_bytes: Some(164520534016),
            free_bytes: Some(68120969216),
            fsck_result: Some("no_run_yet".to_string()),
            operation_pct: Some(OperationProgress { done_steps: Some(2), max_steps: Some(5), percent: Some(40) }),
        }]),
        idle: Some(true),
        idle_duration: Some(368),
        spinning: Some(true),
        active_duration: Some(0),
        time_before_spindown: Some(232),
    }
}

#[test]
fn state_codes_follow_the_api() {
    assert_eq!(disk_state_code(&Some("enabled".to_string())), 1);
    assert_eq!(disk_state_code(&Some("disabled".to_string())), 0);
    assert_eq!(disk_state_code(&Some("error".to_string())), -1);
    assert_eq!(disk_state_code(&Some("formatting".to_string())), 2);
    assert_eq!(disk_state_code(&None), 0);
    assert_eq!(partition_state_code(&Some("mounted".to_string())), 1);
    assert_eq!(partition_state_code(&Some("umounted".to_string())), 0);
    assert_eq!(partition_state_code(&Some("checking".to_string())), 2);
    assert_eq!(partition_state_code(&Some("ejecting".to_string())), 7);
    assert_eq!(partition_state_code(&Some("what".to_string())), 0);
    assert_eq!(fsck_code("no_run_yet"), 0);
    assert_eq!(fsck_code("fs_needs_correction"), 4);
    assert_eq!(fsck_code("failed"), -1);
}

#[test]
fn storage_metrics_of_a_disk_and_its_partition() {
    let mut map = NasMetricMap::new("nastest".to_string()).unwrap();
    map.reset_all();
    map.set_storage_metrics(&vec![internal_disk()]);
    let disk = [("disk_id", "1"), ("disk_type", "internal"), ("model", "Hitachi HCC545025B9A300"), ("serial", "GSCH35VC")];
    assert_eq!(nas_gauge("nastest_nas_disk_total_bytes", &disk), Some(250059350016.0));
    assert_eq!(nas_gauge("nastest_nas_disk_temperature_celsius", &disk), Some(51.0));
    assert_eq!(nas_gauge("nastest_nas_disk_spinning", &disk), Some(1.0));
    assert_eq!(nas_gauge("nastest_nas_disk_idle_duration_seconds", &disk), Some(368.0));
    assert_eq!(nas_gauge("nastest_nas_disk_operation_progress_percent", &disk), None);
    let mut with_state = disk.to_vec();
    with_state.push(("state", "enabled"));
    assert_eq!(nas_gauge("nastest_nas_disk_state", &with_state), Some(1.0));
    let mut with_conn = disk.to_vec();
    with_conn.push(("connector", "0"));
    assert_eq!(nas_gauge("nastest_nas_disk_connector_info", &with_conn), Some(1.0));

    let part = [("partition_id", "3"), ("disk_id", "1"), ("label", "Disque dur"), ("fstype", "ext4")];
    assert_eq!(nas_gauge("nastest_nas_partition_used_bytes", &part), Some(164520534016.0));
    assert_eq!(nas_gauge("nastest_nas_partition_operation_progress_percent", &part), Some(40.0));
    let mut done = part.to_vec();
    done.push(("step_type", "done"));
    assert_eq!(nas_gauge("nastest_nas_partition_operation_steps", &done), Some(2.0));
    let mut total = part.to_vec();
    total.push(("step_type", "total"));
    assert_eq!(nas_gauge("nastest_nas_partition_operation_steps", &total), Some(5.0));
    let mut fsck = part.to_vec();
    fsck.push(("fsck_result", "no_run_yet"));
    assert_eq!(nas_gauge("nastest_nas_partition_fsck_result", &fsck), Some(0.0));
}

#[test]
fn empty_firmware_and_missing_fields_write_nothing() {
    let mut map = NasMetricMap::new("nasempty".to_string()).unwrap();
    let disk = StorageDisk {
        id: 7,
        disk_type: None,
        state: None,
        connector: None,
        total_bytes: None,
        table_type: None,
        model: None,
        serial: None,
        firmware: Some(String::new()),
        temp: None,
        operation_pct: None,
        partitions: None,
        idle: None,
        idle_duration: None,
        spinning: None,
        active_duration: None,
        time_before_spindown: None,
    };
    map.set_storage_metrics(&vec![disk]);
    let labels = [("disk_id", "7"), ("disk_type", "unknown"), ("model", "unknown"), ("serial", "unknown")];
    assert_eq!(nas_gauge("nasempty_nas_disk_total_bytes", &labels), None);
    let mut state = labels.to_vec();
    state.push(("state", "unknown"));
    assert_eq!(nas_gauge("nasempty_nas_disk_state", &state), Some(0.0));
    let mut fw = labels.to_vec();
    fw.push(("firmware", ""));
    assert_eq!(nas_gauge("nasempty_nas_disk_firmware_info", &fw), None);
}
