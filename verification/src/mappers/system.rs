//! Metrics of the system state (`v4/system`).
use super::{flag, flag_value, labels1, opt_flag, opt_flag_value, opt_i64, opt_i64_value, opt_text, text_or_default};
use crate::gauge::{
    family_args_accepted, label_view, lemma_prefixed_name_valid, valid_label_name, valid_prefix,
    family_help, family_label_names, int_gauge_help,
    family_arity, family_name, family_put, family_reset, family_set, int_gauge_name, int_gauge_set,
    make_family, make_int_gauge, FamilyEntries, Gauge, gauge_error_name, GaugeError, GaugeFamily,
    family_value, label_key, lemma_one_ascii_char_labels_have_distinct_keys,
};
use crate::text::concat;
use vstd::prelude::*;

verus! {

/// The system state of the Freebox.
///
/// Older models report two CPU sensors (`temp_cpub`, `temp_cpum`); the Ultra reports
/// one per core (`temp_cpu0` to `temp_cpu3`).
#[derive(Clone, Debug)]
pub struct SystemConfig {
    pub mac: Option<String>,
    pub box_flavor: Option<String>,
    pub box_model_name: Option<String>,
    pub device_name: Option<String>,
    pub api_version: Option<String>,
    pub temp_hdd: Option<i64>,
    pub temp_cpub: Option<i64>,
    pub temp_cpum: Option<i64>,
    pub temp_t1: Option<i64>,
    pub temp_t2: Option<i64>,
    pub temp_cpu0: Option<i64>,
    pub temp_cpu1: Option<i64>,
    pub temp_cpu2: Option<i64>,
    pub temp_cpu3: Option<i64>,
    pub disk_status: Option<String>,
    pub box_authenticated: Option<bool>,
    pub board_name: Option<String>,
    pub fan_rpm: Option<i64>,
    pub temp_sw: Option<i64>,
    pub uptime_val: Option<i64>,
    pub user_main_storage: Option<String>,
    pub serial: Option<String>,
    pub firmware_version: Option<String>,
}

impl SystemConfig {
    /// The answer reports per-core temperatures (the Ultra format).
    pub open spec fn has_core_temperatures(&self) -> bool {
        self.temp_cpu0 is Some || self.temp_cpu1 is Some || self.temp_cpu2 is Some || self.temp_cpu3 is Some
    }
}

/// The per-core temperature children, "0" to "3", "b" and "m", are all distinct: no
/// two of them share a key.
pub proof fn lemma_core_labels_have_distinct_keys()
    ensures
        label_key(seq!["0"@]) != label_key(seq!["1"@]),
        label_key(seq!["0"@]) != label_key(seq!["2"@]),
        label_key(seq!["0"@]) != label_key(seq!["3"@]),
        label_key(seq!["0"@]) != label_key(seq!["b"@]),
        label_key(seq!["0"@]) != label_key(seq!["m"@]),
        label_key(seq!["1"@]) != label_key(seq!["2"@]),
        label_key(seq!["1"@]) != label_key(seq!["3"@]),
        label_key(seq!["1"@]) != label_key(seq!["b"@]),
        label_key(seq!["1"@]) != label_key(seq!["m"@]),
        label_key(seq!["2"@]) != label_key(seq!["3"@]),
        label_key(seq!["2"@]) != label_key(seq!["b"@]),
        label_key(seq!["2"@]) != label_key(seq!["m"@]),
        label_key(seq!["3"@]) != label_key(seq!["b"@]),
        label_key(seq!["3"@]) != label_key(seq!["m"@]),
        label_key(seq!["b"@]) != label_key(seq!["m"@]),
{
    reveal_strlit("0");
    reveal_strlit("1");
    reveal_strlit("2");
    reveal_strlit("3");
    reveal_strlit("b");
    reveal_strlit("m");
    lemma_one_ascii_char_labels_have_distinct_keys("0"@, "1"@);
    lemma_one_ascii_char_labels_have_distinct_keys("0"@, "2"@);
    lemma_one_ascii_char_labels_have_distinct_keys("0"@, "3"@);
    lemma_one_ascii_char_labels_have_distinct_keys("0"@, "b"@);
    lemma_one_ascii_char_labels_have_distinct_keys("0"@, "m"@);
    lemma_one_ascii_char_labels_have_distinct_keys("1"@, "2"@);
    lemma_one_ascii_char_labels_have_distinct_keys("1"@, "3"@);
    lemma_one_ascii_char_labels_have_distinct_keys("1"@, "b"@);
    lemma_one_ascii_char_labels_have_distinct_keys("1"@, "m"@);
    lemma_one_ascii_char_labels_have_distinct_keys("2"@, "3"@);
    lemma_one_ascii_char_labels_have_distinct_keys("2"@, "b"@);
    lemma_one_ascii_char_labels_have_distinct_keys("2"@, "m"@);
    lemma_one_ascii_char_labels_have_distinct_keys("3"@, "b"@);
    lemma_one_ascii_char_labels_have_distinct_keys("3"@, "m"@);
    lemma_one_ascii_char_labels_have_distinct_keys("b"@, "m"@);
}

/// Sets the child for one label to the value when there is one; nothing otherwise.
pub open spec fn opt_put(m: FamilyEntries, label: Seq<char>, o: Option<i64>) -> FamilyEntries {
    match o {
        Some(v) => family_put(m, seq![label], v),
        None => m,
    }
}

/// Each reported core temperature shows under its own core, "0" to "3", and an
/// unreported one leaves that core's child as it was; the same for the two legacy
/// sensors under "b" and "m".
pub proof fn lemma_core_temperatures_land_on_their_core(m: FamilyEntries, c: SystemConfig)
    ensures
        ({
            let f = opt_put(opt_put(opt_put(opt_put(m, "0"@, c.temp_cpu0), "1"@, c.temp_cpu1), "2"@, c.temp_cpu2), "3"@, c.temp_cpu3);
            &&& family_value(f, seq!["0"@]) == (match c.temp_cpu0 { Some(v) => Some(v), None => family_value(m, seq!["0"@]) })
            &&& family_value(f, seq!["1"@]) == (match c.temp_cpu1 { Some(v) => Some(v), None => family_value(m, seq!["1"@]) })
            &&& family_value(f, seq!["2"@]) == (match c.temp_cpu2 { Some(v) => Some(v), None => family_value(m, seq!["2"@]) })
            &&& family_value(f, seq!["3"@]) == (match c.temp_cpu3 { Some(v) => Some(v), None => family_value(m, seq!["3"@]) })
        }),
        ({
            let g = opt_put(opt_put(m, "b"@, c.temp_cpub), "m"@, c.temp_cpum);
            &&& family_value(g, seq!["b"@]) == (match c.temp_cpub { Some(v) => Some(v), None => family_value(m, seq!["b"@]) })
            &&& family_value(g, seq!["m"@]) == (match c.temp_cpum { Some(v) => Some(v), None => family_value(m, seq!["m"@]) })
        }),
{
    lemma_core_labels_have_distinct_keys();
}

/// A value when there is one, else what was there.
pub open spec fn opt_or_keep(o: Option<i64>, keep: i64) -> i64 {
    match o {
        Some(v) => v,
        None => keep,
    }
}

/// Gauges of the system state.
pub struct SystemMetricMap {
    pub mac_metric: GaugeFamily,
    pub box_flavor_metric: GaugeFamily,
    pub box_model_name_metric: GaugeFamily,
    pub device_name_metric: GaugeFamily,
    pub api_version_metric: GaugeFamily,
    pub temp_hdd_metric: Gauge,
    pub temp_t1_metric: Gauge,
    pub temp_t2_metric: Gauge,
    pub temp_cpu_metric: GaugeFamily,
    pub temp_cpub_metric: Gauge,
    pub temp_cpum_metric: Gauge,
    pub disk_status_metric: GaugeFamily,
    pub box_authenticated_metric: Gauge,
    pub board_name_metric: GaugeFamily,
    pub fan_rpm_metric: Gauge,
    pub temp_sw_metric: Gauge,
    pub uptime_val_metric: Gauge,
    pub user_main_storage_metric: GaugeFamily,
    pub serial_metric: GaugeFamily,
    pub firmware_version_metric: GaugeFamily,
}

impl SystemMetricMap {
    /// Every family takes as many label values as it was made with label names.
    pub open spec fn well_formed(&self) -> bool {
        &&& family_arity(self.mac_metric) == 1
        &&& family_arity(self.box_flavor_metric) == 1
        &&& family_arity(self.box_model_name_metric) == 1
        &&& family_arity(self.device_name_metric) == 1
        &&& family_arity(self.api_version_metric) == 1
        &&& family_arity(self.temp_cpu_metric) == 1
        &&& family_arity(self.disk_status_metric) == 1
        &&& family_arity(self.board_name_metric) == 1
        &&& family_arity(self.user_main_storage_metric) == 1
        &&& family_arity(self.serial_metric) == 1
        &&& family_arity(self.firmware_version_metric) == 1
    }

    /// No family has a child and every single gauge is at 0.
    pub open spec fn is_cleared(&self) -> bool {
        &&& self.mac_metric@ == FamilyEntries::empty()
        &&& self.box_flavor_metric@ == FamilyEntries::empty()
        &&& self.box_model_name_metric@ == FamilyEntries::empty()
        &&& self.device_name_metric@ == FamilyEntries::empty()
        &&& self.api_version_metric@ == FamilyEntries::empty()
        &&& self.temp_hdd_metric@ == 0
        &&& self.temp_t1_metric@ == 0
        &&& self.temp_t2_metric@ == 0
        &&& self.temp_cpu_metric@ == FamilyEntries::empty()
        &&& self.temp_cpub_metric@ == 0
        &&& self.temp_cpum_metric@ == 0
        &&& self.disk_status_metric@ == FamilyEntries::empty()
        &&& self.box_authenticated_metric@ == 0
        &&& self.board_name_metric@ == FamilyEntries::empty()
        &&& self.fan_rpm_metric@ == 0
        &&& self.temp_sw_metric@ == 0
        &&& self.uptime_val_metric@ == 0
        &&& self.user_main_storage_metric@ == FamilyEntries::empty()
        &&& self.serial_metric@ == FamilyEntries::empty()
        &&& self.firmware_version_metric@ == FamilyEntries::empty()
    }

    /// The metric names, help texts and label names the gauges were made with.
    pub open spec fn named(&self, prefix: Seq<char>) -> bool {
        &&& family_name(self.mac_metric) == prefix + "_system_mac"@
        &&& family_name(self.box_flavor_metric) == prefix + "_system_box_flavor"@
        &&& family_name(self.box_model_name_metric) == prefix + "_system_box_model_name"@
        &&& family_name(self.device_name_metric) == prefix + "_system_device_name"@
        &&& family_name(self.api_version_metric) == prefix + "_system_api_version"@
        &&& int_gauge_name(self.temp_hdd_metric) == prefix + "_system_temp_hdd"@
        &&& int_gauge_name(self.temp_t1_metric) == prefix + "_system_temp_t1"@
        &&& int_gauge_name(self.temp_t2_metric) == prefix + "_system_temp_t2"@
        &&& family_name(self.temp_cpu_metric) == prefix + "_system_temp_cpu"@
        &&& int_gauge_name(self.temp_cpub_metric) == prefix + "_system_temp_cpub"@
        &&& int_gauge_name(self.temp_cpum_metric) == prefix + "_system_temp_cpum"@
        &&& family_name(self.disk_status_metric) == prefix + "_system_disk_status"@
        &&& int_gauge_name(self.box_authenticated_metric) == prefix + "_system_box_authenticated"@
        &&& family_name(self.board_name_metric) == prefix + "_system_board_name"@
        &&& int_gauge_name(self.fan_rpm_metric) == prefix + "_system_fan_rpm"@
        &&& int_gauge_name(self.temp_sw_metric) == prefix + "_system_temp_sw"@
        &&& int_gauge_name(self.uptime_val_metric) == prefix + "_system_uptime_val"@
        &&& family_name(self.user_main_storage_metric) == prefix + "_system_user_main_storage"@
        &&& family_name(self.serial_metric) == prefix + "_system_serial"@
        &&& family_name(self.firmware_version_metric) == prefix + "_system_firmware_version"@
        &&& family_help(self.mac_metric) == prefix + "_system_mac"@
        &&& family_label_names(self.mac_metric) == seq!["mac"@]
        &&& family_help(self.box_flavor_metric) == prefix + "_system_box_flavor"@
        &&& family_label_names(self.box_flavor_metric) == seq!["box_flavor"@]
        &&& family_help(self.box_model_name_metric) == prefix + "_system_box_model_name"@
        &&& family_label_names(self.box_model_name_metric) == seq!["model_name"@]
        &&& family_help(self.device_name_metric) == prefix + "_system_device_name"@
        &&& family_label_names(self.device_name_metric) == seq!["device_name"@]
        &&& family_help(self.api_version_metric) == prefix + "_system_api_version"@
        &&& family_label_names(self.api_version_metric) == seq!["api_version"@]
        &&& int_gauge_help(self.temp_hdd_metric) == prefix + "_system_temp_hdd"@
        &&& int_gauge_help(self.temp_t1_metric) == prefix + "_system_temp_t1"@
        &&& int_gauge_help(self.temp_t2_metric) == prefix + "_system_temp_t2"@
        &&& family_help(self.temp_cpu_metric) == prefix + "_system_temp_cpu CPU core temperature"@
        &&& family_label_names(self.temp_cpu_metric) == seq!["core"@]
        &&& int_gauge_help(self.temp_cpub_metric) == prefix + "_system_temp_cpub"@
        &&& int_gauge_help(self.temp_cpum_metric) == prefix + "_system_temp_cpum"@
        &&& family_help(self.disk_status_metric) == prefix + "_system_disk_status"@
        &&& family_label_names(self.disk_status_metric) == seq!["disk_status"@]
        &&& int_gauge_help(self.box_authenticated_metric) == prefix + "_system_box_authenticated"@
        &&& family_help(self.board_name_metric) == prefix + "_system_board_name"@
        &&& family_label_names(self.board_name_metric) == seq!["board_name"@]
        &&& int_gauge_help(self.fan_rpm_metric) == prefix + "_system_fan_rpm"@
        &&& int_gauge_help(self.temp_sw_metric) == prefix + "_system_temp_sw"@
        &&& int_gauge_help(self.uptime_val_metric) == prefix + "_system_uptime_val"@
        &&& family_help(self.user_main_storage_metric) == prefix + "_system_user_main_storage"@
        &&& family_label_names(self.user_main_storage_metric) == seq!["user_main_storage"@]
        &&& family_help(self.serial_metric) == prefix + "_system_serial"@
        &&& family_label_names(self.serial_metric) == seq!["serial"@]
        &&& family_help(self.firmware_version_metric) == prefix + "_system_firmware_version"@
        &&& family_label_names(self.firmware_version_metric) == seq!["firmware_version"@]
    }

    /// Whether `n` is the name of one of the map's metrics under `prefix`.
    pub open spec fn is_metric_name(prefix: Seq<char>, n: Seq<char>) -> bool {
        ||| n == prefix + "_system_mac"@
        ||| n == prefix + "_system_box_flavor"@
        ||| n == prefix + "_system_box_model_name"@
        ||| n == prefix + "_system_device_name"@
        ||| n == prefix + "_system_api_version"@
        ||| n == prefix + "_system_temp_hdd"@
        ||| n == prefix + "_system_temp_t1"@
        ||| n == prefix + "_system_temp_t2"@
        ||| n == prefix + "_system_temp_cpu"@
        ||| n == prefix + "_system_temp_cpub"@
        ||| n == prefix + "_system_temp_cpum"@
        ||| n == prefix + "_system_disk_status"@
        ||| n == prefix + "_system_box_authenticated"@
        ||| n == prefix + "_system_board_name"@
        ||| n == prefix + "_system_fan_rpm"@
        ||| n == prefix + "_system_temp_sw"@
        ||| n == prefix + "_system_uptime_val"@
        ||| n == prefix + "_system_user_main_storage"@
        ||| n == prefix + "_system_serial"@
        ||| n == prefix + "_system_firmware_version"@
    }

    /// Prometheus accepts what each gauge of the map is made with exactly when the
    /// prefix is one metric names may be built from.
    proof fn lemma_gauge_args(prefix: Seq<char>)
        ensures
            family_args_accepted(prefix + "_system_mac"@, prefix + "_system_mac"@, seq!["mac"@]) == valid_prefix(prefix),
            family_args_accepted(prefix + "_system_box_flavor"@, prefix + "_system_box_flavor"@, seq!["box_flavor"@]) == valid_prefix(prefix),
            family_args_accepted(prefix + "_system_box_model_name"@, prefix + "_system_box_model_name"@, seq!["model_name"@]) == valid_prefix(prefix),
            family_args_accepted(prefix + "_system_device_name"@, prefix + "_system_device_name"@, seq!["device_name"@]) == valid_prefix(prefix),
            family_args_accepted(prefix + "_system_api_version"@, prefix + "_system_api_version"@, seq!["api_version"@]) == valid_prefix(prefix),
            family_args_accepted(prefix + "_system_temp_hdd"@, prefix + "_system_temp_hdd"@, Seq::empty()) == valid_prefix(prefix),
            family_args_accepted(prefix + "_system_temp_t1"@, prefix + "_system_temp_t1"@, Seq::empty()) == valid_prefix(prefix),
            family_args_accepted(prefix + "_system_temp_t2"@, prefix + "_system_temp_t2"@, Seq::empty()) == valid_prefix(prefix),
            family_args_accepted(prefix + "_system_temp_cpu"@, prefix + "_system_temp_cpu CPU core temperature"@, seq!["core"@]) == valid_prefix(prefix),
            family_args_accepted(prefix + "_system_temp_cpub"@, prefix + "_system_temp_cpub"@, Seq::empty()) == valid_prefix(prefix),
            family_args_accepted(prefix + "_system_temp_cpum"@, prefix + "_system_temp_cpum"@, Seq::empty()) == valid_prefix(prefix),
            family_args_accepted(prefix + "_system_disk_status"@, prefix + "_system_disk_status"@, seq!["disk_status"@]) == valid_prefix(prefix),
            family_args_accepted(prefix + "_system_box_authenticated"@, prefix + "_system_box_authenticated"@, Seq::empty()) == valid_prefix(prefix),
            family_args_accepted(prefix + "_system_board_name"@, prefix + "_system_board_name"@, seq!["board_name"@]) == valid_prefix(prefix),
            family_args_accepted(prefix + "_system_fan_rpm"@, prefix + "_system_fan_rpm"@, Seq::empty()) == valid_prefix(prefix),
            family_args_accepted(prefix + "_system_temp_sw"@, prefix + "_system_temp_sw"@, Seq::empty()) == valid_prefix(prefix),
            family_args_accepted(prefix + "_system_uptime_val"@, prefix + "_system_uptime_val"@, Seq::empty()) == valid_prefix(prefix),
            family_args_accepted(prefix + "_system_user_main_storage"@, prefix + "_system_user_main_storage"@, seq!["user_main_storage"@]) == valid_prefix(prefix),
            family_args_accepted(prefix + "_system_serial"@, prefix + "_system_serial"@, seq!["serial"@]) == valid_prefix(prefix),
            family_args_accepted(prefix + "_system_firmware_version"@, prefix + "_system_firmware_version"@, seq!["firmware_version"@]) == valid_prefix(prefix),
    {
        assert(family_args_accepted(prefix + "_system_mac"@, prefix + "_system_mac"@, seq!["mac"@]) == valid_prefix(prefix)) by {
            reveal_strlit("_system_mac");
            reveal_strlit("mac");
            lemma_prefixed_name_valid(prefix, "_system_mac"@);
            let l = seq!["mac"@];
            assert(valid_label_name(l[0]));
        }
        assert(family_args_accepted(prefix + "_system_box_flavor"@, prefix + "_system_box_flavor"@, seq!["box_flavor"@]) == valid_prefix(prefix)) by {
            reveal_strlit("_system_box_flavor");
            reveal_strlit("box_flavor");
            lemma_prefixed_name_valid(prefix, "_system_box_flavor"@);
            let l = seq!["box_flavor"@];
            assert(valid_label_name(l[0]));
        }
        assert(family_args_accepted(prefix + "_system_box_model_name"@, prefix + "_system_box_model_name"@, seq!["model_name"@]) == valid_prefix(prefix)) by {
            reveal_strlit("_system_box_model_name");
            reveal_strlit("model_name");
            lemma_prefixed_name_valid(prefix, "_system_box_model_name"@);
            let l = seq!["model_name"@];
            assert(valid_label_name(l[0]));
        }
        assert(family_args_accepted(prefix + "_system_device_name"@, prefix + "_system_device_name"@, seq!["device_name"@]) == valid_prefix(prefix)) by {
            reveal_strlit("_system_device_name");
            reveal_strlit("device_name");
            lemma_prefixed_name_valid(prefix, "_system_device_name"@);
            let l = seq!["device_name"@];
            assert(valid_label_name(l[0]));
        }
        assert(family_args_accepted(prefix + "_system_api_version"@, prefix + "_system_api_version"@, seq!["api_version"@]) == valid_prefix(prefix)) by {
            reveal_strlit("_system_api_version");
            reveal_strlit("api_version");
            lemma_prefixed_name_valid(prefix, "_system_api_version"@);
            let l = seq!["api_version"@];
            assert(valid_label_name(l[0]));
        }
        assert(family_args_accepted(prefix + "_system_temp_hdd"@, prefix + "_system_temp_hdd"@, Seq::empty()) == valid_prefix(prefix)) by {
            reveal_strlit("_system_temp_hdd");
            lemma_prefixed_name_valid(prefix, "_system_temp_hdd"@);
        }
        assert(family_args_accepted(prefix + "_system_temp_t1"@, prefix + "_system_temp_t1"@, Seq::empty()) == valid_prefix(prefix)) by {
            reveal_strlit("_system_temp_t1");
            lemma_prefixed_name_valid(prefix, "_system_temp_t1"@);
        }
        assert(family_args_accepted(prefix + "_system_temp_t2"@, prefix + "_system_temp_t2"@, Seq::empty()) == valid_prefix(prefix)) by {
            reveal_strlit("_system_temp_t2");
            lemma_prefixed_name_valid(prefix, "_system_temp_t2"@);
        }
        assert(family_args_accepted(prefix + "_system_temp_cpu"@, prefix + "_system_temp_cpu CPU core temperature"@, seq!["core"@]) == valid_prefix(prefix)) by {
            reveal_strlit("_system_temp_cpu");
            reveal_strlit("_system_temp_cpu CPU core temperature");
            reveal_strlit("core");
            lemma_prefixed_name_valid(prefix, "_system_temp_cpu"@);
            let l = seq!["core"@];
            assert(valid_label_name(l[0]));
        }
        assert(family_args_accepted(prefix + "_system_temp_cpub"@, prefix + "_system_temp_cpub"@, Seq::empty()) == valid_prefix(prefix)) by {
            reveal_strlit("_system_temp_cpub");
            lemma_prefixed_name_valid(prefix, "_system_temp_cpub"@);
        }
        assert(family_args_accepted(prefix + "_system_temp_cpum"@, prefix + "_system_temp_cpum"@, Seq::empty()) == valid_prefix(prefix)) by {
            reveal_strlit("_system_temp_cpum");
            lemma_prefixed_name_valid(prefix, "_system_temp_cpum"@);
        }
        assert(family_args_accepted(prefix + "_system_disk_status"@, prefix + "_system_disk_status"@, seq!["disk_status"@]) == valid_prefix(prefix)) by {
            reveal_strlit("_system_disk_status");
            reveal_strlit("disk_status");
            lemma_prefixed_name_valid(prefix, "_system_disk_status"@);
            let l = seq!["disk_status"@];
            assert(valid_label_name(l[0]));
        }
        assert(family_args_accepted(prefix + "_system_box_authenticated"@, prefix + "_system_box_authenticated"@, Seq::empty()) == valid_prefix(prefix)) by {
            reveal_strlit("_system_box_authenticated");
            lemma_prefixed_name_valid(prefix, "_system_box_authenticated"@);
        }
        assert(family_args_accepted(prefix + "_system_board_name"@, prefix + "_system_board_name"@, seq!["board_name"@]) == valid_prefix(prefix)) by {
            reveal_strlit("_system_board_name");
            reveal_strlit("board_name");
            lemma_prefixed_name_valid(prefix, "_system_board_name"@);
            let l = seq!["board_name"@];
            assert(valid_label_name(l[0]));
        }
        assert(family_args_accepted(prefix + "_system_fan_rpm"@, prefix + "_system_fan_rpm"@, Seq::empty()) == valid_prefix(prefix)) by {
            reveal_strlit("_system_fan_rpm");
            lemma_prefixed_name_valid(prefix, "_system_fan_rpm"@);
        }
        assert(family_args_accepted(prefix + "_system_temp_sw"@, prefix + "_system_temp_sw"@, Seq::empty()) == valid_prefix(prefix)) by {
            reveal_strlit("_system_temp_sw");
            lemma_prefixed_name_valid(prefix, "_system_temp_sw"@);
        }
        assert(family_args_accepted(prefix + "_system_uptime_val"@, prefix + "_system_uptime_val"@, Seq::empty()) == valid_prefix(prefix)) by {
            reveal_strlit("_system_uptime_val");
            lemma_prefixed_name_valid(prefix, "_system_uptime_val"@);
        }
        assert(family_args_accepted(prefix + "_system_user_main_storage"@, prefix + "_system_user_main_storage"@, seq!["user_main_storage"@]) == valid_prefix(prefix)) by {
            reveal_strlit("_system_user_main_storage");
            reveal_strlit("user_main_storage");
            lemma_prefixed_name_valid(prefix, "_system_user_main_storage"@);
            let l = seq!["user_main_storage"@];
            assert(valid_label_name(l[0]));
        }
        assert(family_args_accepted(prefix + "_system_serial"@, prefix + "_system_serial"@, seq!["serial"@]) == valid_prefix(prefix)) by {
            reveal_strlit("_system_serial");
            reveal_strlit("serial");
            lemma_prefixed_name_valid(prefix, "_system_serial"@);
            let l = seq!["serial"@];
            assert(valid_label_name(l[0]));
        }
        assert(family_args_accepted(prefix + "_system_firmware_version"@, prefix + "_system_firmware_version"@, seq!["firmware_version"@]) == valid_prefix(prefix)) by {
            reveal_strlit("_system_firmware_version");
            reveal_strlit("firmware_version");
            lemma_prefixed_name_valid(prefix, "_system_firmware_version"@);
            let l = seq!["firmware_version"@];
            assert(valid_label_name(l[0]));
        }
    }

    /// Makes and registers every gauge of the map, named after `prefix`.
    pub fn new(prefix: String) -> (r: Result<Self, GaugeError>)
        ensures
            r matches Ok(m) ==> m.well_formed() && m.is_cleared() && m.named(prefix@),
            r matches Err(e) ==> Self::is_metric_name(prefix@, gauge_error_name(e)),
            (r matches Err(e) && e is Creation) <==> !valid_prefix(prefix@),
            !valid_prefix(prefix@) ==> (r matches Err(e) && gauge_error_name(e) == prefix@ + "_system_mac"@),
    {
        proof { Self::lemma_gauge_args(prefix@); }
        let mac_metric_labels = vec![String::from_str("mac")];
        proof { assert(label_view(mac_metric_labels@) =~= seq!["mac"@]); }
        let mac_metric = match make_family(concat(prefix.as_str(), "_system_mac"), concat(prefix.as_str(), "_system_mac"), mac_metric_labels) { Ok(g) => g, Err(e) => { return Err(e); } };
        let box_flavor_metric_labels = vec![String::from_str("box_flavor")];
        proof { assert(label_view(box_flavor_metric_labels@) =~= seq!["box_flavor"@]); }
        let box_flavor_metric = match make_family(concat(prefix.as_str(), "_system_box_flavor"), concat(prefix.as_str(), "_system_box_flavor"), box_flavor_metric_labels) { Ok(g) => g, Err(e) => { return Err(e); } };
        let box_model_name_metric_labels = vec![String::from_str("model_name")];
        proof { assert(label_view(box_model_name_metric_labels@) =~= seq!["model_name"@]); }
        let box_model_name_metric = match make_family(concat(prefix.as_str(), "_system_box_model_name"), concat(prefix.as_str(), "_system_box_model_name"), box_model_name_metric_labels) { Ok(g) => g, Err(e) => { return Err(e); } };
        let device_name_metric_labels = vec![String::from_str("device_name")];
        proof { assert(label_view(device_name_metric_labels@) =~= seq!["device_name"@]); }
        let device_name_metric = match make_family(concat(prefix.as_str(), "_system_device_name"), concat(prefix.as_str(), "_system_device_name"), device_name_metric_labels) { Ok(g) => g, Err(e) => { return Err(e); } };
        let api_version_metric_labels = vec![String::from_str("api_version")];
        proof { assert(label_view(api_version_metric_labels@) =~= seq!["api_version"@]); }
        let api_version_metric = match make_family(concat(prefix.as_str(), "_system_api_version"), concat(prefix.as_str(), "_system_api_version"), api_version_metric_labels) { Ok(g) => g, Err(e) => { return Err(e); } };
        let temp_hdd_metric = match make_int_gauge(concat(prefix.as_str(), "_system_temp_hdd"), concat(prefix.as_str(), "_system_temp_hdd")) { Ok(g) => g, Err(e) => { return Err(e); } };
        let temp_t1_metric = match make_int_gauge(concat(prefix.as_str(), "_system_temp_t1"), concat(prefix.as_str(), "_system_temp_t1")) { Ok(g) => g, Err(e) => { return Err(e); } };
        let temp_t2_metric = match make_int_gauge(concat(prefix.as_str(), "_system_temp_t2"), concat(prefix.as_str(), "_system_temp_t2")) { Ok(g) => g, Err(e) => { return Err(e); } };
        let temp_cpu_metric_labels = vec![String::from_str("core")];
        proof { assert(label_view(temp_cpu_metric_labels@) =~= seq!["core"@]); }
        let temp_cpu_metric = match make_family(concat(prefix.as_str(), "_system_temp_cpu"), concat(prefix.as_str(), "_system_temp_cpu CPU core temperature"), temp_cpu_metric_labels) { Ok(g) => g, Err(e) => { return Err(e); } };
        let temp_cpub_metric = match make_int_gauge(concat(prefix.as_str(), "_system_temp_cpub"), concat(prefix.as_str(), "_system_temp_cpub")) { Ok(g) => g, Err(e) => { return Err(e); } };
        let temp_cpum_metric = match make_int_gauge(concat(prefix.as_str(), "_system_temp_cpum"), concat(prefix.as_str(), "_system_temp_cpum")) { Ok(g) => g, Err(e) => { return Err(e); } };
        let disk_status_metric_labels = vec![String::from_str("disk_status")];
        proof { assert(label_view(disk_status_metric_labels@) =~= seq!["disk_status"@]); }
        let disk_status_metric = match make_family(concat(prefix.as_str(), "_system_disk_status"), concat(prefix.as_str(), "_system_disk_status"), disk_status_metric_labels) { Ok(g) => g, Err(e) => { return Err(e); } };
        let box_authenticated_metric = match make_int_gauge(concat(prefix.as_str(), "_system_box_authenticated"), concat(prefix.as_str(), "_system_box_authenticated")) { Ok(g) => g, Err(e) => { return Err(e); } };
        let board_name_metric_labels = vec![String::from_str("board_name")];
        proof { assert(label_view(board_name_metric_labels@) =~= seq!["board_name"@]); }
        let board_name_metric = match make_family(concat(prefix.as_str(), "_system_board_name"), concat(prefix.as_str(), "_system_board_name"), board_name_metric_labels) { Ok(g) => g, Err(e) => { return Err(e); } };
        let fan_rpm_metric = match make_int_gauge(concat(prefix.as_str(), "_system_fan_rpm"), concat(prefix.as_str(), "_system_fan_rpm")) { Ok(g) => g, Err(e) => { return Err(e); } };
        let temp_sw_metric = match make_int_gauge(concat(prefix.as_str(), "_system_temp_sw"), concat(prefix.as_str(), "_system_temp_sw")) { Ok(g) => g, Err(e) => { return Err(e); } };
        let uptime_val_metric = match make_int_gauge(concat(prefix.as_str(), "_system_uptime_val"), concat(prefix.as_str(), "_system_uptime_val")) { Ok(g) => g, Err(e) => { return Err(e); } };
        let user_main_storage_metric_labels = vec![String::from_str("user_main_storage")];
        proof { assert(label_view(user_main_storage_metric_labels@) =~= seq!["user_main_storage"@]); }
        let user_main_storage_metric = match make_family(concat(prefix.as_str(), "_system_user_main_storage"), concat(prefix.as_str(), "_system_user_main_storage"), user_main_storage_metric_labels) { Ok(g) => g, Err(e) => { return Err(e); } };
        let serial_metric_labels = vec![String::from_str("serial")];
        proof { assert(label_view(serial_metric_labels@) =~= seq!["serial"@]); }
        let serial_metric = match make_family(concat(prefix.as_str(), "_system_serial"), concat(prefix.as_str(), "_system_serial"), serial_metric_labels) { Ok(g) => g, Err(e) => { return Err(e); } };
        let firmware_version_metric_labels = vec![String::from_str("firmware_version")];
        proof { assert(label_view(firmware_version_metric_labels@) =~= seq!["firmware_version"@]); }
        let firmware_version_metric = match make_family(concat(prefix.as_str(), "_system_firmware_version"), concat(prefix.as_str(), "_system_firmware_version"), firmware_version_metric_labels) { Ok(g) => g, Err(e) => { return Err(e); } };
        Ok(SystemMetricMap { mac_metric, box_flavor_metric, box_model_name_metric, device_name_metric, api_version_metric, temp_hdd_metric, temp_t1_metric, temp_t2_metric, temp_cpu_metric, temp_cpub_metric, temp_cpum_metric, disk_status_metric, box_authenticated_metric, board_name_metric, fan_rpm_metric, temp_sw_metric, uptime_val_metric, user_main_storage_metric, serial_metric, firmware_version_metric })
    }

    /// The metric names of the gauges, in declaration order.
    pub open spec fn names_of(&self) -> Seq<Seq<char>> {
        seq![family_name(self.mac_metric), family_name(self.box_flavor_metric), family_name(self.box_model_name_metric), family_name(self.device_name_metric), family_name(self.api_version_metric), int_gauge_name(self.temp_hdd_metric), int_gauge_name(self.temp_t1_metric), int_gauge_name(self.temp_t2_metric), family_name(self.temp_cpu_metric), int_gauge_name(self.temp_cpub_metric), int_gauge_name(self.temp_cpum_metric), family_name(self.disk_status_metric), int_gauge_name(self.box_authenticated_metric), family_name(self.board_name_metric), int_gauge_name(self.fan_rpm_metric), int_gauge_name(self.temp_sw_metric), int_gauge_name(self.uptime_val_metric), family_name(self.user_main_storage_metric), family_name(self.serial_metric), family_name(self.firmware_version_metric)]
    }

    /// Drops every child of every family and puts every single gauge at 0.
    pub fn reset_all(&mut self)
        requires
            old(self).well_formed(),
        ensures
            final(self).well_formed(),
            final(self).is_cleared(),
            final(self).names_of() == old(self).names_of(),
    {
        family_reset(&mut self.mac_metric);
        family_reset(&mut self.box_flavor_metric);
        family_reset(&mut self.box_model_name_metric);
        family_reset(&mut self.device_name_metric);
        family_reset(&mut self.api_version_metric);
        int_gauge_set(&mut self.temp_hdd_metric, 0);
        int_gauge_set(&mut self.temp_t1_metric, 0);
        int_gauge_set(&mut self.temp_t2_metric, 0);
        family_reset(&mut self.temp_cpu_metric);
        int_gauge_set(&mut self.temp_cpub_metric, 0);
        int_gauge_set(&mut self.temp_cpum_metric, 0);
        family_reset(&mut self.disk_status_metric);
        int_gauge_set(&mut self.box_authenticated_metric, 0);
        family_reset(&mut self.board_name_metric);
        int_gauge_set(&mut self.fan_rpm_metric, 0);
        int_gauge_set(&mut self.temp_sw_metric, 0);
        int_gauge_set(&mut self.uptime_val_metric, 0);
        family_reset(&mut self.user_main_storage_metric);
        family_reset(&mut self.serial_metric);
        family_reset(&mut self.firmware_version_metric);
    }

    /// Writes the CPU temperatures in whichever format the answer uses.
    ///
    /// Per-core temperatures go to the `core` family under "0" to "3", and cores 0 and 1
    /// also feed the two single CPU gauges. Otherwise the two sensors feed the single
    /// CPU gauges and the family under "b" and "m".
    pub fn handle_cpu_temperatures(&mut self, sys_cnf: &SystemConfig)
        requires
            old(self).well_formed(),
        ensures
            final(self).well_formed(),
            final(self).names_of() == old(self).names_of(),
            sys_cnf.has_core_temperatures() ==> {
                &&& final(self).temp_cpu_metric@ == opt_put(opt_put(opt_put(opt_put(old(self).temp_cpu_metric@,
                    "0"@, sys_cnf.temp_cpu0), "1"@, sys_cnf.temp_cpu1), "2"@, sys_cnf.temp_cpu2), "3"@, sys_cnf.temp_cpu3)
                &&& final(self).temp_cpub_metric@ == opt_or_keep(sys_cnf.temp_cpu0, old(self).temp_cpub_metric@)
                &&& final(self).temp_cpum_metric@ == opt_or_keep(sys_cnf.temp_cpu1, old(self).temp_cpum_metric@)
            },
            !sys_cnf.has_core_temperatures() ==> {
                &&& final(self).temp_cpu_metric@ == opt_put(opt_put(old(self).temp_cpu_metric@, "b"@, sys_cnf.temp_cpub), "m"@, sys_cnf.temp_cpum)
                &&& final(self).temp_cpub_metric@ == opt_or_keep(sys_cnf.temp_cpub, old(self).temp_cpub_metric@)
                &&& final(self).temp_cpum_metric@ == opt_or_keep(sys_cnf.temp_cpum, old(self).temp_cpum_metric@)
            },
            final(self).mac_metric == old(self).mac_metric,
            final(self).box_flavor_metric == old(self).box_flavor_metric,
            final(self).box_model_name_metric == old(self).box_model_name_metric,
            final(self).device_name_metric == old(self).device_name_metric,
            final(self).api_version_metric == old(self).api_version_metric,
            final(self).temp_hdd_metric == old(self).temp_hdd_metric,
            final(self).temp_t1_metric == old(self).temp_t1_metric,
            final(self).temp_t2_metric == old(self).temp_t2_metric,
            final(self).disk_status_metric == old(self).disk_status_metric,
            final(self).box_authenticated_metric == old(self).box_authenticated_metric,
            final(self).board_name_metric == old(self).board_name_metric,
            final(self).fan_rpm_metric == old(self).fan_rpm_metric,
            final(self).temp_sw_metric == old(self).temp_sw_metric,
            final(self).uptime_val_metric == old(self).uptime_val_metric,
            final(self).user_main_storage_metric == old(self).user_main_storage_metric,
            final(self).serial_metric == old(self).serial_metric,
            final(self).firmware_version_metric == old(self).firmware_version_metric,
    {
        if sys_cnf.temp_cpu0.is_some() || sys_cnf.temp_cpu1.is_some() || sys_cnf.temp_cpu2.is_some()
            || sys_cnf.temp_cpu3.is_some() {
            if let Some(temp) = sys_cnf.temp_cpu0 {
                family_set(&mut self.temp_cpu_metric, &labels1(String::from_str("0")), temp);
            }
            if let Some(temp) = sys_cnf.temp_cpu1 {
                family_set(&mut self.temp_cpu_metric, &labels1(String::from_str("1")), temp);
            }
            if let Some(temp) = sys_cnf.temp_cpu2 {
                family_set(&mut self.temp_cpu_metric, &labels1(String::from_str("2")), temp);
            }
            if let Some(temp) = sys_cnf.temp_cpu3 {
                family_set(&mut self.temp_cpu_metric, &labels1(String::from_str("3")), temp);
            }
            if let Some(temp) = sys_cnf.temp_cpu0 {
                int_gauge_set(&mut self.temp_cpub_metric, temp);
            }
            if let Some(temp) = sys_cnf.temp_cpu1 {
                int_gauge_set(&mut self.temp_cpum_metric, temp);
            }
        } else {
            if let Some(temp) = sys_cnf.temp_cpub {
                int_gauge_set(&mut self.temp_cpub_metric, temp);
                family_set(&mut self.temp_cpu_metric, &labels1(String::from_str("b")), temp);
            }
            if let Some(temp) = sys_cnf.temp_cpum {
                int_gauge_set(&mut self.temp_cpum_metric, temp);
                family_set(&mut self.temp_cpu_metric, &labels1(String::from_str("m")), temp);
            }
        }
    }

    /// Writes the system state: identity labels, temperatures, fan, uptime and storage.
    pub fn set_system_config(&mut self, sys_cnf: &SystemConfig)
        requires
            old(self).well_formed(),
        ensures
            final(self).well_formed(),
            final(self).names_of() == old(self).names_of(),
            final(self).mac_metric@ == family_put(old(self).mac_metric@, seq![opt_text(sys_cnf.mac)], 1),
            final(self).box_flavor_metric@ == family_put(old(self).box_flavor_metric@, seq![opt_text(sys_cnf.box_flavor)], 1),
            final(self).box_model_name_metric@ == (match sys_cnf.box_model_name {
                Some(n) => family_put(old(self).box_model_name_metric@, seq![n@], 1),
                None => old(self).box_model_name_metric@,
            }),
            final(self).device_name_metric@ == (match sys_cnf.device_name {
                Some(n) => family_put(old(self).device_name_metric@, seq![n@], 1),
                None => old(self).device_name_metric@,
            }),
            final(self).api_version_metric@ == (match sys_cnf.api_version {
                Some(n) => family_put(old(self).api_version_metric@, seq![n@], 1),
                None => old(self).api_version_metric@,
            }),
            final(self).temp_hdd_metric@ == opt_i64(sys_cnf.temp_hdd),
            final(self).temp_t1_metric@ == opt_i64(sys_cnf.temp_t1),
            final(self).temp_t2_metric@ == opt_i64(sys_cnf.temp_t2),
            sys_cnf.has_core_temperatures() ==> {
                &&& final(self).temp_cpu_metric@ == opt_put(opt_put(opt_put(opt_put(old(self).temp_cpu_metric@,
                    "0"@, sys_cnf.temp_cpu0), "1"@, sys_cnf.temp_cpu1), "2"@, sys_cnf.temp_cpu2), "3"@, sys_cnf.temp_cpu3)
                &&& final(self).temp_cpub_metric@ == opt_or_keep(sys_cnf.temp_cpu0, old(self).temp_cpub_metric@)
                &&& final(self).temp_cpum_metric@ == opt_or_keep(sys_cnf.temp_cpu1, old(self).temp_cpum_metric@)
            },
            !sys_cnf.has_core_temperatures() ==> {
                &&& final(self).temp_cpu_metric@ == opt_put(opt_put(old(self).temp_cpu_metric@, "b"@, sys_cnf.temp_cpub), "m"@, sys_cnf.temp_cpum)
                &&& final(self).temp_cpub_metric@ == opt_or_keep(sys_cnf.temp_cpub, old(self).temp_cpub_metric@)
                &&& final(self).temp_cpum_metric@ == opt_or_keep(sys_cnf.temp_cpum, old(self).temp_cpum_metric@)
            },
            final(self).disk_status_metric@ == family_put(old(self).disk_status_metric@, seq![opt_text(sys_cnf.disk_status)], flag(sys_cnf.disk_status is Some)),
            final(self).box_authenticated_metric@ == opt_flag(sys_cnf.box_authenticated),
            final(self).board_name_metric@ == family_put(old(self).board_name_metric@, seq![opt_text(sys_cnf.board_name)], 1),
            final(self).fan_rpm_metric@ == opt_i64(sys_cnf.fan_rpm),
            final(self).temp_sw_metric@ == opt_i64(sys_cnf.temp_sw),
            final(self).uptime_val_metric@ == opt_i64(sys_cnf.uptime_val),
            final(self).user_main_storage_metric@ == family_put(old(self).user_main_storage_metric@, seq![opt_text(sys_cnf.user_main_storage)], flag(sys_cnf.user_main_storage is Some)),
            final(self).serial_metric@ == family_put(old(self).serial_metric@, seq![opt_text(sys_cnf.serial)], 1),
            final(self).firmware_version_metric@ == family_put(old(self).firmware_version_metric@, seq![opt_text(sys_cnf.firmware_version)], 1),
    {
        family_set(&mut self.mac_metric, &labels1(text_or_default(&sys_cnf.mac)), 1);
        family_set(&mut self.box_flavor_metric, &labels1(text_or_default(&sys_cnf.box_flavor)), 1);
        if let Some(model_name) = &sys_cnf.box_model_name {
            family_set(&mut self.box_model_name_metric, &labels1(model_name.clone()), 1);
        }
        if let Some(device_name) = &sys_cnf.device_name {
            family_set(&mut self.device_name_metric, &labels1(device_name.clone()), 1);
        }
        if let Some(api_version) = &sys_cnf.api_version {
            family_set(&mut self.api_version_metric, &labels1(api_version.clone()), 1);
        }
        int_gauge_set(&mut self.temp_hdd_metric, opt_i64_value(sys_cnf.temp_hdd));
        int_gauge_set(&mut self.temp_t1_metric, opt_i64_value(sys_cnf.temp_t1));
        int_gauge_set(&mut self.temp_t2_metric, opt_i64_value(sys_cnf.temp_t2));
        self.handle_cpu_temperatures(sys_cnf);
        family_set(&mut self.disk_status_metric, &labels1(text_or_default(&sys_cnf.disk_status)), flag_value(sys_cnf.disk_status.is_some()));
        int_gauge_set(&mut self.box_authenticated_metric, opt_flag_value(sys_cnf.box_authenticated));
        family_set(&mut self.board_name_metric, &labels1(text_or_default(&sys_cnf.board_name)), 1);
        int_gauge_set(&mut self.fan_rpm_metric, opt_i64_value(sys_cnf.fan_rpm));
        int_gauge_set(&mut self.temp_sw_metric, opt_i64_value(sys_cnf.temp_sw));
        int_gauge_set(&mut self.uptime_val_metric, opt_i64_value(sys_cnf.uptime_val));
        family_set(&mut self.user_main_storage_metric, &labels1(text_or_default(&sys_cnf.user_main_storage)), flag_value(sys_cnf.user_main_storage.is_some()));
        family_set(&mut self.serial_metric, &labels1(text_or_default(&sys_cnf.serial)), 1);
        family_set(&mut self.firmware_version_metric, &labels1(text_or_default(&sys_cnf.firmware_version)), 1);
    }
}

}
