//! Metrics of the internet connection (`v4/connection` and its sub-resources).
use super::{
    flag, flag_value, labels1, labels2, labels3, opt_flag, opt_flag_value, opt_i16, opt_i16_value,
    opt_i32, opt_i32_value, opt_i64, opt_i64_value, opt_text, opt_text_or, opt_u16, opt_u16_value,
    opt_u32, opt_u32_value, text_or, text_or_default,
};
use crate::gauge::{
    family_value, fnv_fold, fnv_step, label_key, FNV_OFFSET_BASIS,
    family_args_accepted, label_view, lemma_prefixed_name_valid, valid_label_name, valid_prefix,
    family_help, family_label_names, int_gauge_help,
    family_arity, family_name, family_put, family_reset, family_set, int_gauge_name, int_gauge_set,
    make_family, make_int_gauge, FamilyEntries, Gauge, gauge_error_name, GaugeError, GaugeFamily,
};
use crate::text::{concat, spec_trim, str_eq, to_lowercase, trim, unicode_lowercase};
use vstd::prelude::*;

verus! {

/// The connection status.
#[derive(Clone, Debug)]
pub struct ConnectionStatus {
    pub _type: Option<String>,
    pub rate_down: Option<i64>,
    pub bytes_up: Option<i64>,
    pub rate_up: Option<i64>,
    pub bandwidth_up: Option<i64>,
    pub ipv4: Option<String>,
    pub ipv6: Option<String>,
    pub bandwidth_down: Option<i64>,
    pub state: Option<String>,
    pub bytes_down: Option<i64>,
    pub media: Option<String>,
}

/// The connection configuration.
#[derive(Clone, Debug)]
pub struct ConnectionConfiguration {
    pub ping: Option<bool>,
    pub is_secure_pass: Option<bool>,
    pub remote_access_port: Option<u16>,
    pub remote_access: Option<bool>,
    pub wol: Option<bool>,
    pub adblock: Option<bool>,
    pub adblock_not_set: Option<bool>,
    pub api_remote_access: Option<bool>,
    pub allow_token_request: Option<bool>,
    pub remote_access_ip: Option<String>,
}

/// One delegated IPv6 prefix.
#[derive(Clone, Debug)]
pub struct ConnectionIpv6Delegation {
    pub prefix: Option<String>,
    pub next_hop: Option<String>,
}

/// The IPv6 configuration of the connection.
#[derive(Clone, Debug)]
pub struct ConnectionIpv6Configuration {
    pub ipv6_enabled: Option<bool>,
    pub delegations: Option<Vec<ConnectionIpv6Delegation>>,
}

/// The state of the fibre (FTTH) module.
#[derive(Clone, Debug)]
pub struct ConnectionFtth {
    pub sfp_has_power_report: Option<bool>,
    pub sfp_has_signal: Option<bool>,
    pub sfp_model: Option<String>,
    pub sfp_vendor: Option<String>,
    pub sfp_pwr_tx: Option<i64>,
    pub sfp_pwr_rx: Option<i64>,
    pub link: Option<bool>,
    pub sfp_alim_ok: Option<bool>,
    pub sfp_serial: Option<String>,
    pub sfp_present: Option<bool>,
}

/// The state of the xDSL line.
#[derive(Clone, Debug)]
pub struct XdslStatus {
    pub status: Option<String>,
    pub protocol: Option<String>,
    pub modulation: Option<String>,
    pub uptime: Option<u32>,
}

/// The xDSL line: its state and the statistics of each direction.
#[derive(Clone, Debug)]
pub struct XdslInfo {
    pub status: Option<XdslStatus>,
    pub down: Option<XdslStats>,
    pub up: Option<XdslStats>,
}

/// The statistics of one direction of the xDSL line.
#[derive(Clone, Debug)]
pub struct XdslStats {
    pub maxrate: Option<i64>,
    pub rate: Option<i64>,
    pub snr: Option<i16>,
    pub attn: Option<i16>,
    pub fec: Option<i32>,
    pub crc: Option<i32>,
    pub hec: Option<i32>,
    pub es: Option<u32>,
    pub ses: Option<i32>,
    pub rxmt: Option<i32>,
    pub rxmt_corr: Option<i32>,
    pub rxmt_uncorr: Option<i32>,
    pub rtx_tx: Option<i32>,
    pub rtx_c: Option<i32>,
    pub rtx_uc: Option<i32>,
}

/// Every delegation names its prefix and next hop.
pub open spec fn delegations_complete(ds: Seq<ConnectionIpv6Delegation>) -> bool {
    forall|i: int| 0 <= i < ds.len() ==> (#[trigger] ds[i]).prefix is Some && ds[i].next_hop is Some
}

/// The delegations family after one child per delegation, labelled prefix and next hop, is set to 1.
pub open spec fn put_delegations(m: FamilyEntries, ds: Seq<ConnectionIpv6Delegation>) -> FamilyEntries
    decreases ds.len(),
{
    if ds.len() == 0 {
        m
    } else {
        family_put(put_delegations(m, ds.drop_last()), seq![opt_text(ds.last().prefix), opt_text(ds.last().next_hop)], 1)
    }
}

/// Sets one child at 1 per delegation, labelled with its prefix and next hop.
fn put_all_delegations(f: &mut GaugeFamily, ds: &Vec<ConnectionIpv6Delegation>)
    requires
        family_arity(*old(f)) == 2,
        delegations_complete(ds@),
    ensures
        family_arity(*final(f)) == 2,
        family_name(*final(f)) == family_name(*old(f)),
        final(f)@ == put_delegations(old(f)@, ds@),
{
    let mut i: usize = 0;
    while i < ds.len()
        invariant
            i <= ds.len(),
            delegations_complete(ds@),
            family_arity(*f) == 2,
            family_name(*f) == family_name(*old(f)),
            f@ == put_delegations(old(f)@, ds@.take(i as int)),
        decreases ds.len() - i,
    {
        let d = &ds[i];
        assert(d.prefix is Some && d.next_hop is Some);
        assert(ds@.take(i as int + 1).drop_last() =~= ds@.take(i as int));
        family_set(f, &labels2(text_or_default(&d.prefix), text_or_default(&d.next_hop)), 1);
        i = i + 1;
    }
    assert(ds@.take(ds.len() as int) =~= ds@);
}

/// A statistics family after its "up" and then its "down" child are set.
pub open spec fn put_directions(m: FamilyEntries, up: i64, down: i64) -> FamilyEntries {
    family_put(family_put(m, seq!["up"@], up), seq!["down"@], down)
}

/// The "up" and "down" children of a direction family are filed under different keys.
proof fn lemma_direction_keys_differ()
    ensures
        label_key(seq!["up"@]) != label_key(seq!["down"@]),
{
    reveal_strlit("up");
    reveal_strlit("down");
    reveal_with_fuel(Seq::flatten, 2);
    let up = "up"@;
    let down = "down"@;
    assert(seq![up].flatten() =~= up);
    assert(seq![down].flatten() =~= down);
    assert(vstd::utf8::is_ascii_chars(up));
    assert(vstd::utf8::is_ascii_chars(down));
    vstd::utf8::is_ascii_chars_encode_utf8(up);
    vstd::utf8::is_ascii_chars_encode_utf8(down);
    let eu = vstd::utf8::encode_utf8(up);
    let ed = vstd::utf8::encode_utf8(down);
    assert(eu =~= seq![0x75u8, 0x70u8]);
    assert(ed =~= seq![0x64u8, 0x6fu8, 0x77u8, 0x6eu8]);
    reveal_with_fuel(fnv_fold, 5);
    assert(seq![0x75u8, 0x70u8].drop_first() =~= seq![0x70u8]);
    assert(seq![0x70u8].drop_first() =~= Seq::<u8>::empty());
    assert(seq![0x64u8, 0x6fu8, 0x77u8, 0x6eu8].drop_first() =~= seq![0x6fu8, 0x77u8, 0x6eu8]);
    assert(seq![0x6fu8, 0x77u8, 0x6eu8].drop_first() =~= seq![0x77u8, 0x6eu8]);
    assert(seq![0x77u8, 0x6eu8].drop_first() =~= seq![0x6eu8]);
    assert(seq![0x6eu8].drop_first() =~= Seq::<u8>::empty());
    assert(fnv_step(fnv_step(FNV_OFFSET_BASIS, 0x75u8), 0x70u8) == 0x08c43a07b566d980u64) by (bit_vector);
    assert(fnv_step(fnv_step(fnv_step(fnv_step(FNV_OFFSET_BASIS, 0x64u8), 0x6fu8), 0x77u8), 0x6eu8) == 0xdc04126761bb7455u64) by (bit_vector);
}

/// A direction family shows the up value under "up" and the down value under "down",
/// each from its own direction.
pub proof fn lemma_directions_show_each_direction(m: FamilyEntries, up: i64, down: i64)
    ensures
        family_value(put_directions(m, up, down), seq!["up"@]) == Some(up),
        family_value(put_directions(m, up, down), seq!["down"@]) == Some(down),
{
    lemma_direction_keys_differ();
}

/// The media text that decides which line metrics are exposed: the reported media
/// (or "unknown"), lower-cased.
pub open spec fn media_key(status: ConnectionStatus) -> Seq<char> {
    unicode_lowercase(opt_text_or(status.media, "unknown"@))
}

/// Gauges of the internet connection.
pub struct ConnectionMetricMap {
    pub is_ftth: Option<bool>,
    pub bytes_down_metric: Gauge,
    pub bytes_up_metric: Gauge,
    pub rate_down_metric: Gauge,
    pub rate_up_metric: Gauge,
    pub bandwidth_down_metric: Gauge,
    pub bandwidth_up_metric: Gauge,
    pub type_metric: GaugeFamily,
    pub media_metric: GaugeFamily,
    pub state_metric: GaugeFamily,
    pub ipv4_metric: GaugeFamily,
    pub ipv6_metric: GaugeFamily,
    pub ping_metric: Gauge,
    pub is_secure_pass_metric: Gauge,
    pub remote_access_port_metric: Gauge,
    pub remote_access_metric: Gauge,
    pub wol_metric: Gauge,
    pub adblock_metric: Gauge,
    pub adblock_not_set_metric: Gauge,
    pub api_remote_access_metric: Gauge,
    pub allow_token_request_metric: Gauge,
    pub remote_access_ip_metric: GaugeFamily,
    pub ipv6_enabled_metric: Gauge,
    pub delegations_metric: GaugeFamily,
    pub sfp_has_power_report_metric: Gauge,
    pub sfp_has_signal_metric: Gauge,
    pub sfp_model_metric: GaugeFamily,
    pub sfp_vendor_metric: GaugeFamily,
    pub sfp_pwr_tx_metric: Gauge,
    pub sfp_pwr_rx_metric: Gauge,
    pub link_metric: Gauge,
    pub sfp_alim_ok_metric: Gauge,
    pub sfp_serial_metric: GaugeFamily,
    pub sfp_present_metric: Gauge,
    pub xdsl_status_uptime: GaugeFamily,
    pub xdsl_stats_maxrate: GaugeFamily,
    pub xdsl_stats_rate: GaugeFamily,
    pub xdsl_stats_snr: GaugeFamily,
    pub xdsl_stats_attn: GaugeFamily,
    pub xdsl_stats_fec: GaugeFamily,
    pub xdsl_stats_crc: GaugeFamily,
    pub xdsl_stats_hec: GaugeFamily,
    pub xdsl_stats_es: GaugeFamily,
    pub xdsl_stats_ses: GaugeFamily,
    pub xdsl_stats_rxmt: GaugeFamily,
    pub xdsl_stats_rxmt_corr: GaugeFamily,
    pub xdsl_stats_rxmt_uncorr: GaugeFamily,
    pub xdsl_stats_rtx_tx: GaugeFamily,
    pub xdsl_stats_rtx_c: GaugeFamily,
    pub xdsl_stats_rtx_uc: GaugeFamily,
}

impl ConnectionMetricMap {
    /// Every family takes as many label values as it was made with label names.
    pub open spec fn well_formed(&self) -> bool {
        &&& family_arity(self.type_metric) == 1
        &&& family_arity(self.media_metric) == 1
        &&& family_arity(self.state_metric) == 1
        &&& family_arity(self.ipv4_metric) == 1
        &&& family_arity(self.ipv6_metric) == 1
        &&& family_arity(self.remote_access_ip_metric) == 1
        &&& family_arity(self.delegations_metric) == 2
        &&& family_arity(self.sfp_model_metric) == 1
        &&& family_arity(self.sfp_vendor_metric) == 1
        &&& family_arity(self.sfp_serial_metric) == 1
        &&& family_arity(self.xdsl_status_uptime) == 3
        &&& family_arity(self.xdsl_stats_maxrate) == 1
        &&& family_arity(self.xdsl_stats_rate) == 1
        &&& family_arity(self.xdsl_stats_snr) == 1
        &&& family_arity(self.xdsl_stats_attn) == 1
        &&& family_arity(self.xdsl_stats_fec) == 1
        &&& family_arity(self.xdsl_stats_crc) == 1
        &&& family_arity(self.xdsl_stats_hec) == 1
        &&& family_arity(self.xdsl_stats_es) == 1
        &&& family_arity(self.xdsl_stats_ses) == 1
        &&& family_arity(self.xdsl_stats_rxmt) == 1
        &&& family_arity(self.xdsl_stats_rxmt_corr) == 1
        &&& family_arity(self.xdsl_stats_rxmt_uncorr) == 1
        &&& family_arity(self.xdsl_stats_rtx_tx) == 1
        &&& family_arity(self.xdsl_stats_rtx_c) == 1
        &&& family_arity(self.xdsl_stats_rtx_uc) == 1
    }

    /// No family has a child and every single gauge is at 0.
    pub open spec fn is_cleared(&self) -> bool {
        &&& self.bytes_down_metric@ == 0
        &&& self.bytes_up_metric@ == 0
        &&& self.rate_down_metric@ == 0
        &&& self.rate_up_metric@ == 0
        &&& self.bandwidth_down_metric@ == 0
        &&& self.bandwidth_up_metric@ == 0
        &&& self.type_metric@ == FamilyEntries::empty()
        &&& self.media_metric@ == FamilyEntries::empty()
        &&& self.state_metric@ == FamilyEntries::empty()
        &&& self.ipv4_metric@ == FamilyEntries::empty()
        &&& self.ipv6_metric@ == FamilyEntries::empty()
        &&& self.ping_metric@ == 0
        &&& self.is_secure_pass_metric@ == 0
        &&& self.remote_access_port_metric@ == 0
        &&& self.remote_access_metric@ == 0
        &&& self.wol_metric@ == 0
        &&& self.adblock_metric@ == 0
        &&& self.adblock_not_set_metric@ == 0
        &&& self.api_remote_access_metric@ == 0
        &&& self.allow_token_request_metric@ == 0
        &&& self.remote_access_ip_metric@ == FamilyEntries::empty()
        &&& self.ipv6_enabled_metric@ == 0
        &&& self.delegations_metric@ == FamilyEntries::empty()
        &&& self.sfp_has_power_report_metric@ == 0
        &&& self.sfp_has_signal_metric@ == 0
        &&& self.sfp_model_metric@ == FamilyEntries::empty()
        &&& self.sfp_vendor_metric@ == FamilyEntries::empty()
        &&& self.sfp_pwr_tx_metric@ == 0
        &&& self.sfp_pwr_rx_metric@ == 0
        &&& self.link_metric@ == 0
        &&& self.sfp_alim_ok_metric@ == 0
        &&& self.sfp_serial_metric@ == FamilyEntries::empty()
        &&& self.sfp_present_metric@ == 0
        &&& self.xdsl_status_uptime@ == FamilyEntries::empty()
        &&& self.xdsl_stats_maxrate@ == FamilyEntries::empty()
        &&& self.xdsl_stats_rate@ == FamilyEntries::empty()
        &&& self.xdsl_stats_snr@ == FamilyEntries::empty()
        &&& self.xdsl_stats_attn@ == FamilyEntries::empty()
        &&& self.xdsl_stats_fec@ == FamilyEntries::empty()
        &&& self.xdsl_stats_crc@ == FamilyEntries::empty()
        &&& self.xdsl_stats_hec@ == FamilyEntries::empty()
        &&& self.xdsl_stats_es@ == FamilyEntries::empty()
        &&& self.xdsl_stats_ses@ == FamilyEntries::empty()
        &&& self.xdsl_stats_rxmt@ == FamilyEntries::empty()
        &&& self.xdsl_stats_rxmt_corr@ == FamilyEntries::empty()
        &&& self.xdsl_stats_rxmt_uncorr@ == FamilyEntries::empty()
        &&& self.xdsl_stats_rtx_tx@ == FamilyEntries::empty()
        &&& self.xdsl_stats_rtx_c@ == FamilyEntries::empty()
        &&& self.xdsl_stats_rtx_uc@ == FamilyEntries::empty()
    }

    /// The metric names, help texts and label names the gauges were made with.
    pub open spec fn named(&self, prefix: Seq<char>) -> bool {
        &&& int_gauge_name(self.bytes_down_metric) == prefix + "_connection_bytes_down"@
        &&& int_gauge_name(self.bytes_up_metric) == prefix + "_connection_bytes_up"@
        &&& int_gauge_name(self.rate_down_metric) == prefix + "_connection_rate_down"@
        &&& int_gauge_name(self.rate_up_metric) == prefix + "_connection_rate_up"@
        &&& int_gauge_name(self.bandwidth_down_metric) == prefix + "_connection_bandwidth_down"@
        &&& int_gauge_name(self.bandwidth_up_metric) == prefix + "_connection_bandwidth_up"@
        &&& family_name(self.type_metric) == prefix + "_connection_type"@
        &&& family_name(self.media_metric) == prefix + "_connection_media"@
        &&& family_name(self.state_metric) == prefix + "_connection_state"@
        &&& family_name(self.ipv4_metric) == prefix + "_connection_ipv4"@
        &&& family_name(self.ipv6_metric) == prefix + "_connection_ipv6"@
        &&& int_gauge_name(self.ping_metric) == prefix + "_connection_conf_ping"@
        &&& int_gauge_name(self.is_secure_pass_metric) == prefix + "_connection_conf_is_secure_pass"@
        &&& int_gauge_name(self.remote_access_port_metric) == prefix + "_connection_conf_remote_access_port"@
        &&& int_gauge_name(self.remote_access_metric) == prefix + "_connection_conf_remote_access"@
        &&& int_gauge_name(self.wol_metric) == prefix + "_connection_wol_conf"@
        &&& int_gauge_name(self.adblock_metric) == prefix + "_connection_conf_adblock"@
        &&& int_gauge_name(self.adblock_not_set_metric) == prefix + "_connection_conf_adblock_not_set"@
        &&& int_gauge_name(self.api_remote_access_metric) == prefix + "_connection_conf_api_remote_access"@
        &&& int_gauge_name(self.allow_token_request_metric) == prefix + "_connection_conf_allow_token_request"@
        &&& family_name(self.remote_access_ip_metric) == prefix + "_connection_conf_remote_access_ip"@
        &&& int_gauge_name(self.ipv6_enabled_metric) == prefix + "_connection_ipv6_conf_ipv6_enabled"@
        &&& family_name(self.delegations_metric) == prefix + "_connection_ipv6_conf_delegations"@
        &&& int_gauge_name(self.sfp_has_power_report_metric) == prefix + "_connection_ftth_sfp_has_power_report"@
        &&& int_gauge_name(self.sfp_has_signal_metric) == prefix + "_connection_ftth_sfp_has_signal"@
        &&& family_name(self.sfp_model_metric) == prefix + "_connection_ftth_sfp_model"@
        &&& family_name(self.sfp_vendor_metric) == prefix + "_connection_ftth_sfp_vendor"@
        &&& int_gauge_name(self.sfp_pwr_tx_metric) == prefix + "_connection_ftth_sfp_pwr_tx"@
        &&& int_gauge_name(self.sfp_pwr_rx_metric) == prefix + "_connection_ftth_sfp_pwr_rx"@
        &&& int_gauge_name(self.link_metric) == prefix + "_connection_ftth_link"@
        &&& int_gauge_name(self.sfp_alim_ok_metric) == prefix + "_connection_ffth_sfp_alim_ok"@
        &&& family_name(self.sfp_serial_metric) == prefix + "_connection_ftth_sfp_serial"@
        &&& int_gauge_name(self.sfp_present_metric) == prefix + "_connection_ffth_sfp_present"@
        &&& family_name(self.xdsl_status_uptime) == prefix + "_connection_xdsl_status_uptime"@
        &&& family_name(self.xdsl_stats_maxrate) == prefix + "_connection_xdsl_stats_maxrate"@
        &&& family_name(self.xdsl_stats_rate) == prefix + "_connection_xdsl_stats_rate"@
        &&& family_name(self.xdsl_stats_snr) == prefix + "_connection_xdsl_stats_snr"@
        &&& family_name(self.xdsl_stats_attn) == prefix + "_connection_xdsl_stats_attn"@
        &&& family_name(self.xdsl_stats_fec) == prefix + "_connection_xdsl_stats_fec"@
        &&& family_name(self.xdsl_stats_crc) == prefix + "_connection_xdsl_stats_crc"@
        &&& family_name(self.xdsl_stats_hec) == prefix + "_connection_xdsl_stats_hec"@
        &&& family_name(self.xdsl_stats_es) == prefix + "_connection_xdsl_stats_es"@
        &&& family_name(self.xdsl_stats_ses) == prefix + "_connection_xdsl_stats_ses"@
        &&& family_name(self.xdsl_stats_rxmt) == prefix + "_connection_xdsl_stats_rxmt"@
        &&& family_name(self.xdsl_stats_rxmt_corr) == prefix + "_connection_xdsl_stats_rxmt_corr"@
        &&& family_name(self.xdsl_stats_rxmt_uncorr) == prefix + "_connection_xdsl_stats_rxmt_uncorr"@
        &&& family_name(self.xdsl_stats_rtx_tx) == prefix + "_connection_xdsl_stats_rtx_tx"@
        &&& family_name(self.xdsl_stats_rtx_c) == prefix + "_connection_xdsl_stats_rtx_c"@
        &&& family_name(self.xdsl_stats_rtx_uc) == prefix + "_connection_xdsl_stats_rtx_uc"@
        &&& int_gauge_help(self.bytes_down_metric) == prefix + "_connection_bytes_down"@
        &&& int_gauge_help(self.bytes_up_metric) == prefix + "_connection_bytes_up"@
        &&& int_gauge_help(self.rate_down_metric) == prefix + "_connection_rate_down"@
        &&& int_gauge_help(self.rate_up_metric) == prefix + "_connection_rate_up"@
        &&& int_gauge_help(self.bandwidth_down_metric) == prefix + "_connection_bandwidth_down"@
        &&& int_gauge_help(self.bandwidth_up_metric) == prefix + "_connection_bandwidth_up"@
        &&& family_help(self.type_metric) == prefix + "_connection_type"@
        &&& family_label_names(self.type_metric) == seq!["type"@]
        &&& family_help(self.media_metric) == prefix + "_connection_media"@
        &&& family_label_names(self.media_metric) == seq!["media"@]
        &&& family_help(self.state_metric) == prefix + "_connection_state"@
        &&& family_label_names(self.state_metric) == seq!["state"@]
        &&& family_help(self.ipv4_metric) == prefix + "_connection_ipv4"@
        &&& family_label_names(self.ipv4_metric) == seq!["ipv4"@]
        &&& family_help(self.ipv6_metric) == prefix + "_connection_ipv6"@
        &&& family_label_names(self.ipv6_metric) == seq!["ipv6"@]
        &&& int_gauge_help(self.ping_metric) == prefix + "_connection_conf_ping"@
        &&& int_gauge_help(self.is_secure_pass_metric) == prefix + "_connection_conf_is_secure_pass"@
        &&& int_gauge_help(self.remote_access_port_metric) == prefix + "_connection_conf_remote_access_port"@
        &&& int_gauge_help(self.remote_access_metric) == prefix + "_connection_conf_remote_access"@
        &&& int_gauge_help(self.wol_metric) == prefix + "_connection_conf_wol"@
        &&& int_gauge_help(self.adblock_metric) == prefix + "_connection_conf_adblock"@
        &&& int_gauge_help(self.adblock_not_set_metric) == prefix + "_connection_conf_adblock_not_set"@
        &&& int_gauge_help(self.api_remote_access_metric) == prefix + "_connection_conf_api_remote_access"@
        &&& int_gauge_help(self.allow_token_request_metric) == prefix + "_connection_conf_allow_token_request"@
        &&& family_help(self.remote_access_ip_metric) == prefix + "_connection_conf_remote_access_ip"@
        &&& family_label_names(self.remote_access_ip_metric) == seq!["remote_access_ip"@]
        &&& int_gauge_help(self.ipv6_enabled_metric) == prefix + "_connection_ipv6_conf_ipv6_enabled"@
        &&& family_help(self.delegations_metric) == prefix + "_connection_ipv6_conf_delegations"@
        &&& family_label_names(self.delegations_metric) == seq!["prefix"@, "next_hop"@]
        &&& int_gauge_help(self.sfp_has_power_report_metric) == prefix + "_connection_ftth_sfp_has_power_report"@
        &&& int_gauge_help(self.sfp_has_signal_metric) == prefix + "_connection_ftth_sfp_has_signal"@
        &&& family_help(self.sfp_model_metric) == prefix + "_connection_ftth_sfp_model"@
        &&& family_label_names(self.sfp_model_metric) == seq!["sfp_model"@]
        &&& family_help(self.sfp_vendor_metric) == prefix + "_connection_ftth_sfp_vendor"@
        &&& family_label_names(self.sfp_vendor_metric) == seq!["sfp_vendor"@]
        &&& int_gauge_help(self.sfp_pwr_tx_metric) == prefix + "_connection_ftth_sfp_pwr_tx"@
        &&& int_gauge_help(self.sfp_pwr_rx_metric) == prefix + "_connection_ftth_sfp_pwr_rx"@
        &&& int_gauge_help(self.link_metric) == prefix + "_connection_ftth_link"@
        &&& int_gauge_help(self.sfp_alim_ok_metric) == prefix + "_connection_ffth_sfp_alim_ok"@
        &&& family_help(self.sfp_serial_metric) == prefix + "_connection_ftth_sfp_serial"@
        &&& family_label_names(self.sfp_serial_metric) == seq!["sfp_serial"@]
        &&& int_gauge_help(self.sfp_present_metric) == prefix + "_connection_ffth_sfp_present"@
        &&& family_help(self.xdsl_status_uptime) == prefix + "_connection_xdsl_status_uptime"@
        &&& family_label_names(self.xdsl_status_uptime) == seq!["status"@, "protocol"@, "modulation"@]
        &&& family_help(self.xdsl_stats_maxrate) == prefix + "_connection_xdsl_stats_maxrate"@
        &&& family_label_names(self.xdsl_stats_maxrate) == seq!["direction"@]
        &&& family_help(self.xdsl_stats_rate) == prefix + "_connection_xdsl_stats_rate"@
        &&& family_label_names(self.xdsl_stats_rate) == seq!["direction"@]
        &&& family_help(self.xdsl_stats_snr) == prefix + "_connection_xdsl_stats_snr"@
        &&& family_label_names(self.xdsl_stats_snr) == seq!["direction"@]
        &&& family_help(self.xdsl_stats_attn) == prefix + "_connection_xdsl_stats_attn"@
        &&& family_label_names(self.xdsl_stats_attn) == seq!["direction"@]
        &&& family_help(self.xdsl_stats_fec) == prefix + "_connection_xdsl_stats_fec"@
        &&& family_label_names(self.xdsl_stats_fec) == seq!["direction"@]
        &&& family_help(self.xdsl_stats_crc) == prefix + "_connection_xdsl_stats_crc"@
        &&& family_label_names(self.xdsl_stats_crc) == seq!["direction"@]
        &&& family_help(self.xdsl_stats_hec) == prefix + "_connection_xdsl_stats_hec"@
        &&& family_label_names(self.xdsl_stats_hec) == seq!["direction"@]
        &&& family_help(self.xdsl_stats_es) == prefix + "_connection_xdsl_stats_es"@
        &&& family_label_names(self.xdsl_stats_es) == seq!["direction"@]
        &&& family_help(self.xdsl_stats_ses) == prefix + "_connection_xdsl_stats_ses"@
        &&& family_label_names(self.xdsl_stats_ses) == seq!["direction"@]
        &&& family_help(self.xdsl_stats_rxmt) == prefix + "_connection_xdsl_stats_rxmt"@
        &&& family_label_names(self.xdsl_stats_rxmt) == seq!["direction"@]
        &&& family_help(self.xdsl_stats_rxmt_corr) == prefix + "_connection_xdsl_stats_rxmt_corr"@
        &&& family_label_names(self.xdsl_stats_rxmt_corr) == seq!["direction"@]
        &&& family_help(self.xdsl_stats_rxmt_uncorr) == prefix + "_connection_xdsl_stats_rxmt_uncorr"@
        &&& family_label_names(self.xdsl_stats_rxmt_uncorr) == seq!["direction"@]
        &&& family_help(self.xdsl_stats_rtx_tx) == prefix + "_connection_xdsl_stats_rtx_tx"@
        &&& family_label_names(self.xdsl_stats_rtx_tx) == seq!["direction"@]
        &&& family_help(self.xdsl_stats_rtx_c) == prefix + "_connection_xdsl_stats_rtx_c"@
        &&& family_label_names(self.xdsl_stats_rtx_c) == seq!["direction"@]
        &&& family_help(self.xdsl_stats_rtx_uc) == prefix + "_connection_xdsl_stats_rtx_uc"@
        &&& family_label_names(self.xdsl_stats_rtx_uc) == seq!["direction"@]
    }

    /// Whether `n` is the name of one of the map's metrics under `prefix`.
    pub open spec fn is_metric_name(prefix: Seq<char>, n: Seq<char>) -> bool {
        ||| n == prefix + "_connection_bytes_down"@
        ||| n == prefix + "_connection_bytes_up"@
        ||| n == prefix + "_connection_rate_down"@
        ||| n == prefix + "_connection_rate_up"@
        ||| n == prefix + "_connection_bandwidth_down"@
        ||| n == prefix + "_connection_bandwidth_up"@
        ||| n == prefix + "_connection_type"@
        ||| n == prefix + "_connection_media"@
        ||| n == prefix + "_connection_state"@
        ||| n == prefix + "_connection_ipv4"@
        ||| n == prefix + "_connection_ipv6"@
        ||| n == prefix + "_connection_conf_ping"@
        ||| n == prefix + "_connection_conf_is_secure_pass"@
        ||| n == prefix + "_connection_conf_remote_access_port"@
        ||| n == prefix + "_connection_conf_remote_access"@
        ||| n == prefix + "_connection_wol_conf"@
        ||| n == prefix + "_connection_conf_adblock"@
        ||| n == prefix + "_connection_conf_adblock_not_set"@
        ||| n == prefix + "_connection_conf_api_remote_access"@
        ||| n == prefix + "_connection_conf_allow_token_request"@
        ||| n == prefix + "_connection_conf_remote_access_ip"@
        ||| n == prefix + "_connection_ipv6_conf_ipv6_enabled"@
        ||| n == prefix + "_connection_ipv6_conf_delegations"@
        ||| n == prefix + "_connection_ftth_sfp_has_power_report"@
        ||| n == prefix + "_connection_ftth_sfp_has_signal"@
        ||| n == prefix + "_connection_ftth_sfp_model"@
        ||| n == prefix + "_connection_ftth_sfp_vendor"@
        ||| n == prefix + "_connection_ftth_sfp_pwr_tx"@
        ||| n == prefix + "_connection_ftth_sfp_pwr_rx"@
        ||| n == prefix + "_connection_ftth_link"@
        ||| n == prefix + "_connection_ffth_sfp_alim_ok"@
        ||| n == prefix + "_connection_ftth_sfp_serial"@
        ||| n == prefix + "_connection_ffth_sfp_present"@
        ||| n == prefix + "_connection_xdsl_status_uptime"@
        ||| n == prefix + "_connection_xdsl_stats_maxrate"@
        ||| n == prefix + "_connection_xdsl_stats_rate"@
        ||| n == prefix + "_connection_xdsl_stats_snr"@
        ||| n == prefix + "_connection_xdsl_stats_attn"@
        ||| n == prefix + "_connection_xdsl_stats_fec"@
        ||| n == prefix + "_connection_xdsl_stats_crc"@
        ||| n == prefix + "_connection_xdsl_stats_hec"@
        ||| n == prefix + "_connection_xdsl_stats_es"@
        ||| n == prefix + "_connection_xdsl_stats_ses"@
        ||| n == prefix + "_connection_xdsl_stats_rxmt"@
        ||| n == prefix + "_connection_xdsl_stats_rxmt_corr"@
        ||| n == prefix + "_connection_xdsl_stats_rxmt_uncorr"@
        ||| n == prefix + "_connection_xdsl_stats_rtx_tx"@
        ||| n == prefix + "_connection_xdsl_stats_rtx_c"@
        ||| n == prefix + "_connection_xdsl_stats_rtx_uc"@
    }

    /// Prometheus accepts what each gauge of the map is made with exactly when the
    /// prefix is one metric names may be built from.
    proof fn lemma_gauge_args(prefix: Seq<char>)
        ensures
            family_args_accepted(prefix + "_connection_bytes_down"@, prefix + "_connection_bytes_down"@, Seq::empty()) == valid_prefix(prefix),
            family_args_accepted(prefix + "_connection_bytes_up"@, prefix + "_connection_bytes_up"@, Seq::empty()) == valid_prefix(prefix),
            family_args_accepted(prefix + "_connection_rate_down"@, prefix + "_connection_rate_down"@, Seq::empty()) == valid_prefix(prefix),
            family_args_accepted(prefix + "_connection_rate_up"@, prefix + "_connection_rate_up"@, Seq::empty()) == valid_prefix(prefix),
            family_args_accepted(prefix + "_connection_bandwidth_down"@, prefix + "_connection_bandwidth_down"@, Seq::empty()) == valid_prefix(prefix),
            family_args_accepted(prefix + "_connection_bandwidth_up"@, prefix + "_connection_bandwidth_up"@, Seq::empty()) == valid_prefix(prefix),
            family_args_accepted(prefix + "_connection_type"@, prefix + "_connection_type"@, seq!["type"@]) == valid_prefix(prefix),
            family_args_accepted(prefix + "_connection_media"@, prefix + "_connection_media"@, seq!["media"@]) == valid_prefix(prefix),
            family_args_accepted(prefix + "_connection_state"@, prefix + "_connection_state"@, seq!["state"@]) == valid_prefix(prefix),
            family_args_accepted(prefix + "_connection_ipv4"@, prefix + "_connection_ipv4"@, seq!["ipv4"@]) == valid_prefix(prefix),
            family_args_accepted(prefix + "_connection_ipv6"@, prefix + "_connection_ipv6"@, seq!["ipv6"@]) == valid_prefix(prefix),
            family_args_accepted(prefix + "_connection_conf_ping"@, prefix + "_connection_conf_ping"@, Seq::empty()) == valid_prefix(prefix),
            family_args_accepted(prefix + "_connection_conf_is_secure_pass"@, prefix + "_connection_conf_is_secure_pass"@, Seq::empty()) == valid_prefix(prefix),
            family_args_accepted(prefix + "_connection_conf_remote_access_port"@, prefix + "_connection_conf_remote_access_port"@, Seq::empty()) == valid_prefix(prefix),
            family_args_accepted(prefix + "_connection_conf_remote_access"@, prefix + "_connection_conf_remote_access"@, Seq::empty()) == valid_prefix(prefix),
            family_args_accepted(prefix + "_connection_wol_conf"@, prefix + "_connection_conf_wol"@, Seq::empty()) == valid_prefix(prefix),
            family_args_accepted(prefix + "_connection_conf_adblock"@, prefix + "_connection_conf_adblock"@, Seq::empty()) == valid_prefix(prefix),
            family_args_accepted(prefix + "_connection_conf_adblock_not_set"@, prefix + "_connection_conf_adblock_not_set"@, Seq::empty()) == valid_prefix(prefix),
            family_args_accepted(prefix + "_connection_conf_api_remote_access"@, prefix + "_connection_conf_api_remote_access"@, Seq::empty()) == valid_prefix(prefix),
            family_args_accepted(prefix + "_connection_conf_allow_token_request"@, prefix + "_connection_conf_allow_token_request"@, Seq::empty()) == valid_prefix(prefix),
            family_args_accepted(prefix + "_connection_conf_remote_access_ip"@, prefix + "_connection_conf_remote_access_ip"@, seq!["remote_access_ip"@]) == valid_prefix(prefix),
            family_args_accepted(prefix + "_connection_ipv6_conf_ipv6_enabled"@, prefix + "_connection_ipv6_conf_ipv6_enabled"@, Seq::empty()) == valid_prefix(prefix),
            family_args_accepted(prefix + "_connection_ipv6_conf_delegations"@, prefix + "_connection_ipv6_conf_delegations"@, seq!["prefix"@, "next_hop"@]) == valid_prefix(prefix),
            family_args_accepted(prefix + "_connection_ftth_sfp_has_power_report"@, prefix + "_connection_ftth_sfp_has_power_report"@, Seq::empty()) == valid_prefix(prefix),
            family_args_accepted(prefix + "_connection_ftth_sfp_has_signal"@, prefix + "_connection_ftth_sfp_has_signal"@, Seq::empty()) == valid_prefix(prefix),
            family_args_accepted(prefix + "_connection_ftth_sfp_model"@, prefix + "_connection_ftth_sfp_model"@, seq!["sfp_model"@]) == valid_prefix(prefix),
            family_args_accepted(prefix + "_connection_ftth_sfp_vendor"@, prefix + "_connection_ftth_sfp_vendor"@, seq!["sfp_vendor"@]) == valid_prefix(prefix),
            family_args_accepted(prefix + "_connection_ftth_sfp_pwr_tx"@, prefix + "_connection_ftth_sfp_pwr_tx"@, Seq::empty()) == valid_prefix(prefix),
            family_args_accepted(prefix + "_connection_ftth_sfp_pwr_rx"@, prefix + "_connection_ftth_sfp_pwr_rx"@, Seq::empty()) == valid_prefix(prefix),
            family_args_accepted(prefix + "_connection_ftth_link"@, prefix + "_connection_ftth_link"@, Seq::empty()) == valid_prefix(prefix),
            family_args_accepted(prefix + "_connection_ffth_sfp_alim_ok"@, prefix + "_connection_ffth_sfp_alim_ok"@, Seq::empty()) == valid_prefix(prefix),
            family_args_accepted(prefix + "_connection_ftth_sfp_serial"@, prefix + "_connection_ftth_sfp_serial"@, seq!["sfp_serial"@]) == valid_prefix(prefix),
            family_args_accepted(prefix + "_connection_ffth_sfp_present"@, prefix + "_connection_ffth_sfp_present"@, Seq::empty()) == valid_prefix(prefix),
            family_args_accepted(prefix + "_connection_xdsl_status_uptime"@, prefix + "_connection_xdsl_status_uptime"@, seq!["status"@, "protocol"@, "modulation"@]) == valid_prefix(prefix),
            family_args_accepted(prefix + "_connection_xdsl_stats_maxrate"@, prefix + "_connection_xdsl_stats_maxrate"@, seq!["direction"@]) == valid_prefix(prefix),
            family_args_accepted(prefix + "_connection_xdsl_stats_rate"@, prefix + "_connection_xdsl_stats_rate"@, seq!["direction"@]) == valid_prefix(prefix),
            family_args_accepted(prefix + "_connection_xdsl_stats_snr"@, prefix + "_connection_xdsl_stats_snr"@, seq!["direction"@]) == valid_prefix(prefix),
            family_args_accepted(prefix + "_connection_xdsl_stats_attn"@, prefix + "_connection_xdsl_stats_attn"@, seq!["direction"@]) == valid_prefix(prefix),
            family_args_accepted(prefix + "_connection_xdsl_stats_fec"@, prefix + "_connection_xdsl_stats_fec"@, seq!["direction"@]) == valid_prefix(prefix),
            family_args_accepted(prefix + "_connection_xdsl_stats_crc"@, prefix + "_connection_xdsl_stats_crc"@, seq!["direction"@]) == valid_prefix(prefix),
            family_args_accepted(prefix + "_connection_xdsl_stats_hec"@, prefix + "_connection_xdsl_stats_hec"@, seq!["direction"@]) == valid_prefix(prefix),
            family_args_accepted(prefix + "_connection_xdsl_stats_es"@, prefix + "_connection_xdsl_stats_es"@, seq!["direction"@]) == valid_prefix(prefix),
            family_args_accepted(prefix + "_connection_xdsl_stats_ses"@, prefix + "_connection_xdsl_stats_ses"@, seq!["direction"@]) == valid_prefix(prefix),
            family_args_accepted(prefix + "_connection_xdsl_stats_rxmt"@, prefix + "_connection_xdsl_stats_rxmt"@, seq!["direction"@]) == valid_prefix(prefix),
            family_args_accepted(prefix + "_connection_xdsl_stats_rxmt_corr"@, prefix + "_connection_xdsl_stats_rxmt_corr"@, seq!["direction"@]) == valid_prefix(prefix),
            family_args_accepted(prefix + "_connection_xdsl_stats_rxmt_uncorr"@, prefix + "_connection_xdsl_stats_rxmt_uncorr"@, seq!["direction"@]) == valid_prefix(prefix),
            family_args_accepted(prefix + "_connection_xdsl_stats_rtx_tx"@, prefix + "_connection_xdsl_stats_rtx_tx"@, seq!["direction"@]) == valid_prefix(prefix),
            family_args_accepted(prefix + "_connection_xdsl_stats_rtx_c"@, prefix + "_connection_xdsl_stats_rtx_c"@, seq!["direction"@]) == valid_prefix(prefix),
            family_args_accepted(prefix + "_connection_xdsl_stats_rtx_uc"@, prefix + "_connection_xdsl_stats_rtx_uc"@, seq!["direction"@]) == valid_prefix(prefix),
    {
        assert(family_args_accepted(prefix + "_connection_bytes_down"@, prefix + "_connection_bytes_down"@, Seq::empty()) == valid_prefix(prefix)) by {
            reveal_strlit("_connection_bytes_down");
            lemma_prefixed_name_valid(prefix, "_connection_bytes_down"@);
        }
        assert(family_args_accepted(prefix + "_connection_bytes_up"@, prefix + "_connection_bytes_up"@, Seq::empty()) == valid_prefix(prefix)) by {
            reveal_strlit("_connection_bytes_up");
            lemma_prefixed_name_valid(prefix, "_connection_bytes_up"@);
        }
        assert(family_args_accepted(prefix + "_connection_rate_down"@, prefix + "_connection_rate_down"@, Seq::empty()) == valid_prefix(prefix)) by {
            reveal_strlit("_connection_rate_down");
            lemma_prefixed_name_valid(prefix, "_connection_rate_down"@);
        }
        assert(family_args_accepted(prefix + "_connection_rate_up"@, prefix + "_connection_rate_up"@, Seq::empty()) == valid_prefix(prefix)) by {
            reveal_strlit("_connection_rate_up");
            lemma_prefixed_name_valid(prefix, "_connection_rate_up"@);
        }
        assert(family_args_accepted(prefix + "_connection_bandwidth_down"@, prefix + "_connection_bandwidth_down"@, Seq::empty()) == valid_prefix(prefix)) by {
            reveal_strlit("_connection_bandwidth_down");
            lemma_prefixed_name_valid(prefix, "_connection_bandwidth_down"@);
        }
        assert(family_args_accepted(prefix + "_connection_bandwidth_up"@, prefix + "_connection_bandwidth_up"@, Seq::empty()) == valid_prefix(prefix)) by {
            reveal_strlit("_connection_bandwidth_up");
            lemma_prefixed_name_valid(prefix, "_connection_bandwidth_up"@);
        }
        assert(family_args_accepted(prefix + "_connection_type"@, prefix + "_connection_type"@, seq!["type"@]) == valid_prefix(prefix)) by {
            reveal_strlit("_connection_type");
            reveal_strlit("type");
            lemma_prefixed_name_valid(prefix, "_connection_type"@);
            let l = seq!["type"@];
            assert(valid_label_name(l[0]));
        }
        assert(family_args_accepted(prefix + "_connection_media"@, prefix + "_connection_media"@, seq!["media"@]) == valid_prefix(prefix)) by {
            reveal_strlit("_connection_media");
            reveal_strlit("media");
            lemma_prefixed_name_valid(prefix, "_connection_media"@);
            let l = seq!["media"@];
            assert(valid_label_name(l[0]));
        }
        assert(family_args_accepted(prefix + "_connection_state"@, prefix + "_connection_state"@, seq!["state"@]) == valid_prefix(prefix)) by {
            reveal_strlit("_connection_state");
            reveal_strlit("state");
            lemma_prefixed_name_valid(prefix, "_connection_state"@);
            let l = seq!["state"@];
            assert(valid_label_name(l[0]));
        }
        assert(family_args_accepted(prefix + "_connection_ipv4"@, prefix + "_connection_ipv4"@, seq!["ipv4"@]) == valid_prefix(prefix)) by {
            reveal_strlit("_connection_ipv4");
            reveal_strlit("ipv4");
            lemma_prefixed_name_valid(prefix, "_connection_ipv4"@);
            let l = seq!["ipv4"@];
            assert(valid_label_name(l[0]));
        }
        assert(family_args_accepted(prefix + "_connection_ipv6"@, prefix + "_connection_ipv6"@, seq!["ipv6"@]) == valid_prefix(prefix)) by {
            reveal_strlit("_connection_ipv6");
            reveal_strlit("ipv6");
            lemma_prefixed_name_valid(prefix, "_connection_ipv6"@);
            let l = seq!["ipv6"@];
            assert(valid_label_name(l[0]));
        }
        assert(family_args_accepted(prefix + "_connection_conf_ping"@, prefix + "_connection_conf_ping"@, Seq::empty()) == valid_prefix(prefix)) by {
            reveal_strlit("_connection_conf_ping");
            lemma_prefixed_name_valid(prefix, "_connection_conf_ping"@);
        }
        assert(family_args_accepted(prefix + "_connection_conf_is_secure_pass"@, prefix + "_connection_conf_is_secure_pass"@, Seq::empty()) == valid_prefix(prefix)) by {
            reveal_strlit("_connection_conf_is_secure_pass");
            lemma_prefixed_name_valid(prefix, "_connection_conf_is_secure_pass"@);
        }
        assert(family_args_accepted(prefix + "_connection_conf_remote_access_port"@, prefix + "_connection_conf_remote_access_port"@, Seq::empty()) == valid_prefix(prefix)) by {
            reveal_strlit("_connection_conf_remote_access_port");
            lemma_prefixed_name_valid(prefix, "_connection_conf_remote_access_port"@);
        }
        assert(family_args_accepted(prefix + "_connection_conf_remote_access"@, prefix + "_connection_conf_remote_access"@, Seq::empty()) == valid_prefix(prefix)) by {
            reveal_strlit("_connection_conf_remote_access");
            lemma_prefixed_name_valid(prefix, "_connection_conf_remote_access"@);
        }
        assert(family_args_accepted(prefix + "_connection_wol_conf"@, prefix + "_connection_conf_wol"@, Seq::empty()) == valid_prefix(prefix)) by {
            reveal_strlit("_connection_wol_conf");
            reveal_strlit("_connection_conf_wol");
            lemma_prefixed_name_valid(prefix, "_connection_wol_conf"@);
        }
        assert(family_args_accepted(prefix + "_connection_conf_adblock"@, prefix + "_connection_conf_adblock"@, Seq::empty()) == valid_prefix(prefix)) by {
            reveal_strlit("_connection_conf_adblock");
            lemma_prefixed_name_valid(prefix, "_connection_conf_adblock"@);
        }
        assert(family_args_accepted(prefix + "_connection_conf_adblock_not_set"@, prefix + "_connection_conf_adblock_not_set"@, Seq::empty()) == valid_prefix(prefix)) by {
            reveal_strlit("_connection_conf_adblock_not_set");
            lemma_prefixed_name_valid(prefix, "_connection_conf_adblock_not_set"@);
        }
        assert(family_args_accepted(prefix + "_connection_conf_api_remote_access"@, prefix + "_connection_conf_api_remote_access"@, Seq::empty()) == valid_prefix(prefix)) by {
            reveal_strlit("_connection_conf_api_remote_access");
            lemma_prefixed_name_valid(prefix, "_connection_conf_api_remote_access"@);
        }
        assert(family_args_accepted(prefix + "_connection_conf_allow_token_request"@, prefix + "_connection_conf_allow_token_request"@, Seq::empty()) == valid_prefix(prefix)) by {
            reveal_strlit("_connection_conf_allow_token_request");
            lemma_prefixed_name_valid(prefix, "_connection_conf_allow_token_request"@);
        }
        assert(family_args_accepted(prefix + "_connection_conf_remote_access_ip"@, prefix + "_connection_conf_remote_access_ip"@, seq!["remote_access_ip"@]) == valid_prefix(prefix)) by {
            reveal_strlit("_connection_conf_remote_access_ip");
            reveal_strlit("remote_access_ip");
            lemma_prefixed_name_valid(prefix, "_connection_conf_remote_access_ip"@);
            let l = seq!["remote_access_ip"@];
            assert(valid_label_name(l[0]));
        }
        assert(family_args_accepted(prefix + "_connection_ipv6_conf_ipv6_enabled"@, prefix + "_connection_ipv6_conf_ipv6_enabled"@, Seq::empty()) == valid_prefix(prefix)) by {
            reveal_strlit("_connection_ipv6_conf_ipv6_enabled");
            lemma_prefixed_name_valid(prefix, "_connection_ipv6_conf_ipv6_enabled"@);
        }
        assert(family_args_accepted(prefix + "_connection_ipv6_conf_delegations"@, prefix + "_connection_ipv6_conf_delegations"@, seq!["prefix"@, "next_hop"@]) == valid_prefix(prefix)) by {
            reveal_strlit("_connection_ipv6_conf_delegations");
            reveal_strlit("prefix");
            reveal_strlit("next_hop");
            lemma_prefixed_name_valid(prefix, "_connection_ipv6_conf_delegations"@);
            let l = seq!["prefix"@, "next_hop"@];
            assert(valid_label_name(l[0]));
            assert(valid_label_name(l[1]));
            assert(l[0] != l[1]);
        }
        assert(family_args_accepted(prefix + "_connection_ftth_sfp_has_power_report"@, prefix + "_connection_ftth_sfp_has_power_report"@, Seq::empty()) == valid_prefix(prefix)) by {
            reveal_strlit("_connection_ftth_sfp_has_power_report");
            lemma_prefixed_name_valid(prefix, "_connection_ftth_sfp_has_power_report"@);
        }
        assert(family_args_accepted(prefix + "_connection_ftth_sfp_has_signal"@, prefix + "_connection_ftth_sfp_has_signal"@, Seq::empty()) == valid_prefix(prefix)) by {
            reveal_strlit("_connection_ftth_sfp_has_signal");
            lemma_prefixed_name_valid(prefix, "_connection_ftth_sfp_has_signal"@);
        }
        assert(family_args_accepted(prefix + "_connection_ftth_sfp_model"@, prefix + "_connection_ftth_sfp_model"@, seq!["sfp_model"@]) == valid_prefix(prefix)) by {
            reveal_strlit("_connection_ftth_sfp_model");
            reveal_strlit("sfp_model");
            lemma_prefixed_name_valid(prefix, "_connection_ftth_sfp_model"@);
            let l = seq!["sfp_model"@];
            assert(valid_label_name(l[0]));
        }
        assert(family_args_accepted(prefix + "_connection_ftth_sfp_vendor"@, prefix + "_connection_ftth_sfp_vendor"@, seq!["sfp_vendor"@]) == valid_prefix(prefix)) by {
            reveal_strlit("_connection_ftth_sfp_vendor");
            reveal_strlit("sfp_vendor");
            lemma_prefixed_name_valid(prefix, "_connection_ftth_sfp_vendor"@);
            let l = seq!["sfp_vendor"@];
            assert(valid_label_name(l[0]));
        }
        assert(family_args_accepted(prefix + "_connection_ftth_sfp_pwr_tx"@, prefix + "_connection_ftth_sfp_pwr_tx"@, Seq::empty()) == valid_prefix(prefix)) by {
            reveal_strlit("_connection_ftth_sfp_pwr_tx");
            lemma_prefixed_name_valid(prefix, "_connection_ftth_sfp_pwr_tx"@);
        }
        assert(family_args_accepted(prefix + "_connection_ftth_sfp_pwr_rx"@, prefix + "_connection_ftth_sfp_pwr_rx"@, Seq::empty()) == valid_prefix(prefix)) by {
            reveal_strlit("_connection_ftth_sfp_pwr_rx");
            lemma_prefixed_name_valid(prefix, "_connection_ftth_sfp_pwr_rx"@);
        }
        assert(family_args_accepted(prefix + "_connection_ftth_link"@, prefix + "_connection_ftth_link"@, Seq::empty()) == valid_prefix(prefix)) by {
            reveal_strlit("_connection_ftth_link");
            lemma_prefixed_name_valid(prefix, "_connection_ftth_link"@);
        }
        assert(family_args_accepted(prefix + "_connection_ffth_sfp_alim_ok"@, prefix + "_connection_ffth_sfp_alim_ok"@, Seq::empty()) == valid_prefix(prefix)) by {
            reveal_strlit("_connection_ffth_sfp_alim_ok");
            lemma_prefixed_name_valid(prefix, "_connection_ffth_sfp_alim_ok"@);
        }
        assert(family_args_accepted(prefix + "_connection_ftth_sfp_serial"@, prefix + "_connection_ftth_sfp_serial"@, seq!["sfp_serial"@]) == valid_prefix(prefix)) by {
            reveal_strlit("_connection_ftth_sfp_serial");
            reveal_strlit("sfp_serial");
            lemma_prefixed_name_valid(prefix, "_connection_ftth_sfp_serial"@);
            let l = seq!["sfp_serial"@];
            assert(valid_label_name(l[0]));
        }
        assert(family_args_accepted(prefix + "_connection_ffth_sfp_present"@, prefix + "_connection_ffth_sfp_present"@, Seq::empty()) == valid_prefix(prefix)) by {
            reveal_strlit("_connection_ffth_sfp_present");
            lemma_prefixed_name_valid(prefix, "_connection_ffth_sfp_present"@);
        }
        assert(family_args_accepted(prefix + "_connection_xdsl_status_uptime"@, prefix + "_connection_xdsl_status_uptime"@, seq!["status"@, "protocol"@, "modulation"@]) == valid_prefix(prefix)) by {
            reveal_strlit("_connection_xdsl_status_uptime");
            reveal_strlit("status");
            reveal_strlit("protocol");
            reveal_strlit("modulation");
            lemma_prefixed_name_valid(prefix, "_connection_xdsl_status_uptime"@);
            let l = seq!["status"@, "protocol"@, "modulation"@];
            assert(valid_label_name(l[0]));
            assert(valid_label_name(l[1]));
            assert(valid_label_name(l[2]));
            assert(l[0] != l[1]);
            assert(l[0] != l[2]);
            assert(l[1] != l[2]);
        }
        assert(family_args_accepted(prefix + "_connection_xdsl_stats_maxrate"@, prefix + "_connection_xdsl_stats_maxrate"@, seq!["direction"@]) == valid_prefix(prefix)) by {
            reveal_strlit("_connection_xdsl_stats_maxrate");
            reveal_strlit("direction");
            lemma_prefixed_name_valid(prefix, "_connection_xdsl_stats_maxrate"@);
            let l = seq!["direction"@];
            assert(valid_label_name(l[0]));
        }
        assert(family_args_accepted(prefix + "_connection_xdsl_stats_rate"@, prefix + "_connection_xdsl_stats_rate"@, seq!["direction"@]) == valid_prefix(prefix)) by {
            reveal_strlit("_connection_xdsl_stats_rate");
            reveal_strlit("direction");
            lemma_prefixed_name_valid(prefix, "_connection_xdsl_stats_rate"@);
            let l = seq!["direction"@];
            assert(valid_label_name(l[0]));
        }
        assert(family_args_accepted(prefix + "_connection_xdsl_stats_snr"@, prefix + "_connection_xdsl_stats_snr"@, seq!["direction"@]) == valid_prefix(prefix)) by {
            reveal_strlit("_connection_xdsl_stats_snr");
            reveal_strlit("direction");
            lemma_prefixed_name_valid(prefix, "_connection_xdsl_stats_snr"@);
            let l = seq!["direction"@];
            assert(valid_label_name(l[0]));
        }
        assert(family_args_accepted(prefix + "_connection_xdsl_stats_attn"@, prefix + "_connection_xdsl_stats_attn"@, seq!["direction"@]) == valid_prefix(prefix)) by {
            reveal_strlit("_connection_xdsl_stats_attn");
            reveal_strlit("direction");
            lemma_prefixed_name_valid(prefix, "_connection_xdsl_stats_attn"@);
            let l = seq!["direction"@];
            assert(valid_label_name(l[0]));
        }
        assert(family_args_accepted(prefix + "_connection_xdsl_stats_fec"@, prefix + "_connection_xdsl_stats_fec"@, seq!["direction"@]) == valid_prefix(prefix)) by {
            reveal_strlit("_connection_xdsl_stats_fec");
            reveal_strlit("direction");
            lemma_prefixed_name_valid(prefix, "_connection_xdsl_stats_fec"@);
            let l = seq!["direction"@];
            assert(valid_label_name(l[0]));
        }
        assert(family_args_accepted(prefix + "_connection_xdsl_stats_crc"@, prefix + "_connection_xdsl_stats_crc"@, seq!["direction"@]) == valid_prefix(prefix)) by {
            reveal_strlit("_connection_xdsl_stats_crc");
            reveal_strlit("direction");
            lemma_prefixed_name_valid(prefix, "_connection_xdsl_stats_crc"@);
            let l = seq!["direction"@];
            assert(valid_label_name(l[0]));
        }
        assert(family_args_accepted(prefix + "_connection_xdsl_stats_hec"@, prefix + "_connection_xdsl_stats_hec"@, seq!["direction"@]) == valid_prefix(prefix)) by {
            reveal_strlit("_connection_xdsl_stats_hec");
            reveal_strlit("direction");
            lemma_prefixed_name_valid(prefix, "_connection_xdsl_stats_hec"@);
            let l = seq!["direction"@];
            assert(valid_label_name(l[0]));
        }
        assert(family_args_accepted(prefix + "_connection_xdsl_stats_es"@, prefix + "_connection_xdsl_stats_es"@, seq!["direction"@]) == valid_prefix(prefix)) by {
            reveal_strlit("_connection_xdsl_stats_es");
            reveal_strlit("direction");
            lemma_prefixed_name_valid(prefix, "_connection_xdsl_stats_es"@);
            let l = seq!["direction"@];
            assert(valid_label_name(l[0]));
        }
        assert(family_args_accepted(prefix + "_connection_xdsl_stats_ses"@, prefix + "_connection_xdsl_stats_ses"@, seq!["direction"@]) == valid_prefix(prefix)) by {
            reveal_strlit("_connection_xdsl_stats_ses");
            reveal_strlit("direction");
            lemma_prefixed_name_valid(prefix, "_connection_xdsl_stats_ses"@);
            let l = seq!["direction"@];
            assert(valid_label_name(l[0]));
        }
        assert(family_args_accepted(prefix + "_connection_xdsl_stats_rxmt"@, prefix + "_connection_xdsl_stats_rxmt"@, seq!["direction"@]) == valid_prefix(prefix)) by {
            reveal_strlit("_connection_xdsl_stats_rxmt");
            reveal_strlit("direction");
            lemma_prefixed_name_valid(prefix, "_connection_xdsl_stats_rxmt"@);
            let l = seq!["direction"@];
            assert(valid_label_name(l[0]));
        }
        assert(family_args_accepted(prefix + "_connection_xdsl_stats_rxmt_corr"@, prefix + "_connection_xdsl_stats_rxmt_corr"@, seq!["direction"@]) == valid_prefix(prefix)) by {
            reveal_strlit("_connection_xdsl_stats_rxmt_corr");
            reveal_strlit("direction");
            lemma_prefixed_name_valid(prefix, "_connection_xdsl_stats_rxmt_corr"@);
            let l = seq!["direction"@];
            assert(valid_label_name(l[0]));
        }
        assert(family_args_accepted(prefix + "_connection_xdsl_stats_rxmt_uncorr"@, prefix + "_connection_xdsl_stats_rxmt_uncorr"@, seq!["direction"@]) == valid_prefix(prefix)) by {
            reveal_strlit("_connection_xdsl_stats_rxmt_uncorr");
            reveal_strlit("direction");
            lemma_prefixed_name_valid(prefix, "_connection_xdsl_stats_rxmt_uncorr"@);
            let l = seq!["direction"@];
            assert(valid_label_name(l[0]));
        }
        assert(family_args_accepted(prefix + "_connection_xdsl_stats_rtx_tx"@, prefix + "_connection_xdsl_stats_rtx_tx"@, seq!["direction"@]) == valid_prefix(prefix)) by {
            reveal_strlit("_connection_xdsl_stats_rtx_tx");
            reveal_strlit("direction");
            lemma_prefixed_name_valid(prefix, "_connection_xdsl_stats_rtx_tx"@);
            let l = seq!["direction"@];
            assert(valid_label_name(l[0]));
        }
        assert(family_args_accepted(prefix + "_connection_xdsl_stats_rtx_c"@, prefix + "_connection_xdsl_stats_rtx_c"@, seq!["direction"@]) == valid_prefix(prefix)) by {
            reveal_strlit("_connection_xdsl_stats_rtx_c");
            reveal_strlit("direction");
            lemma_prefixed_name_valid(prefix, "_connection_xdsl_stats_rtx_c"@);
            let l = seq!["direction"@];
            assert(valid_label_name(l[0]));
        }
        assert(family_args_accepted(prefix + "_connection_xdsl_stats_rtx_uc"@, prefix + "_connection_xdsl_stats_rtx_uc"@, seq!["direction"@]) == valid_prefix(prefix)) by {
            reveal_strlit("_connection_xdsl_stats_rtx_uc");
            reveal_strlit("direction");
            lemma_prefixed_name_valid(prefix, "_connection_xdsl_stats_rtx_uc"@);
            let l = seq!["direction"@];
            assert(valid_label_name(l[0]));
        }
    }

    /// Makes and registers every gauge of the map, named after `prefix`.
    pub fn new(prefix: String) -> (r: Result<Self, GaugeError>)
        ensures
            r matches Ok(m) ==> m.well_formed() && m.is_cleared() && m.named(prefix@) && m.is_ftth is None,
            r matches Err(e) ==> Self::is_metric_name(prefix@, gauge_error_name(e)),
            (r matches Err(e) && e is Creation) <==> !valid_prefix(prefix@),
            !valid_prefix(prefix@) ==> (r matches Err(e) && gauge_error_name(e) == prefix@ + "_connection_bytes_down"@),
    {
        proof { Self::lemma_gauge_args(prefix@); }
        let bytes_down_metric = match make_int_gauge(concat(prefix.as_str(), "_connection_bytes_down"), concat(prefix.as_str(), "_connection_bytes_down")) { Ok(g) => g, Err(e) => { return Err(e); } };
        let bytes_up_metric = match make_int_gauge(concat(prefix.as_str(), "_connection_bytes_up"), concat(prefix.as_str(), "_connection_bytes_up")) { Ok(g) => g, Err(e) => { return Err(e); } };
        let rate_down_metric = match make_int_gauge(concat(prefix.as_str(), "_connection_rate_down"), concat(prefix.as_str(), "_connection_rate_down")) { Ok(g) => g, Err(e) => { return Err(e); } };
        let rate_up_metric = match make_int_gauge(concat(prefix.as_str(), "_connection_rate_up"), concat(prefix.as_str(), "_connection_rate_up")) { Ok(g) => g, Err(e) => { return Err(e); } };
        let bandwidth_down_metric = match make_int_gauge(concat(prefix.as_str(), "_connection_bandwidth_down"), concat(prefix.as_str(), "_connection_bandwidth_down")) { Ok(g) => g, Err(e) => { return Err(e); } };
        let bandwidth_up_metric = match make_int_gauge(concat(prefix.as_str(), "_connection_bandwidth_up"), concat(prefix.as_str(), "_connection_bandwidth_up")) { Ok(g) => g, Err(e) => { return Err(e); } };
        let type_metric_labels = vec![String::from_str("type")];
        proof { assert(label_view(type_metric_labels@) =~= seq!["type"@]); }
        let type_metric = match make_family(concat(prefix.as_str(), "_connection_type"), concat(prefix.as_str(), "_connection_type"), type_metric_labels) { Ok(g) => g, Err(e) => { return Err(e); } };
        let media_metric_labels = vec![String::from_str("media")];
        proof { assert(label_view(media_metric_labels@) =~= seq!["media"@]); }
        let media_metric = match make_family(concat(prefix.as_str(), "_connection_media"), concat(prefix.as_str(), "_connection_media"), media_metric_labels) { Ok(g) => g, Err(e) => { return Err(e); } };
        let state_metric_labels = vec![String::from_str("state")];
        proof { assert(label_view(state_metric_labels@) =~= seq!["state"@]); }
        let state_metric = match make_family(concat(prefix.as_str(), "_connection_state"), concat(prefix.as_str(), "_connection_state"), state_metric_labels) { Ok(g) => g, Err(e) => { return Err(e); } };
        let ipv4_metric_labels = vec![String::from_str("ipv4")];
        proof { assert(label_view(ipv4_metric_labels@) =~= seq!["ipv4"@]); }
        let ipv4_metric = match make_family(concat(prefix.as_str(), "_connection_ipv4"), concat(prefix.as_str(), "_connection_ipv4"), ipv4_metric_labels) { Ok(g) => g, Err(e) => { return Err(e); } };
        let ipv6_metric_labels = vec![String::from_str("ipv6")];
        proof { assert(label_view(ipv6_metric_labels@) =~= seq!["ipv6"@]); }
        let ipv6_metric = match make_family(concat(prefix.as_str(), "_connection_ipv6"), concat(prefix.as_str(), "_connection_ipv6"), ipv6_metric_labels) { Ok(g) => g, Err(e) => { return Err(e); } };
        let ping_metric = match make_int_gauge(concat(prefix.as_str(), "_connection_conf_ping"), concat(prefix.as_str(), "_connection_conf_ping")) { Ok(g) => g, Err(e) => { return Err(e); } };
        let is_secure_pass_metric = match make_int_gauge(concat(prefix.as_str(), "_connection_conf_is_secure_pass"), concat(prefix.as_str(), "_connection_conf_is_secure_pass")) { Ok(g) => g, Err(e) => { return Err(e); } };
        let remote_access_port_metric = match make_int_gauge(concat(prefix.as_str(), "_connection_conf_remote_access_port"), concat(prefix.as_str(), "_connection_conf_remote_access_port")) { Ok(g) => g, Err(e) => { return Err(e); } };
        let remote_access_metric = match make_int_gauge(concat(prefix.as_str(), "_connection_conf_remote_access"), concat(prefix.as_str(), "_connection_conf_remote_access")) { Ok(g) => g, Err(e) => { return Err(e); } };
        let wol_metric = match make_int_gauge(concat(prefix.as_str(), "_connection_wol_conf"), concat(prefix.as_str(), "_connection_conf_wol")) { Ok(g) => g, Err(e) => { return Err(e); } };
        let adblock_metric = match make_int_gauge(concat(prefix.as_str(), "_connection_conf_adblock"), concat(prefix.as_str(), "_connection_conf_adblock")) { Ok(g) => g, Err(e) => { return Err(e); } };
        let adblock_not_set_metric = match make_int_gauge(concat(prefix.as_str(), "_connection_conf_adblock_not_set"), concat(prefix.as_str(), "_connection_conf_adblock_not_set")) { Ok(g) => g, Err(e) => { return Err(e); } };
        let api_remote_access_metric = match make_int_gauge(concat(prefix.as_str(), "_connection_conf_api_remote_access"), concat(prefix.as_str(), "_connection_conf_api_remote_access")) { Ok(g) => g, Err(e) => { return Err(e); } };
        let allow_token_request_metric = match make_int_gauge(concat(prefix.as_str(), "_connection_conf_allow_token_request"), concat(prefix.as_str(), "_connection_conf_allow_token_request")) { Ok(g) => g, Err(e) => { return Err(e); } };
        let remote_access_ip_metric_labels = vec![String::from_str("remote_access_ip")];
        proof { assert(label_view(remote_access_ip_metric_labels@) =~= seq!["remote_access_ip"@]); }
        let remote_access_ip_metric = match make_family(concat(prefix.as_str(), "_connection_conf_remote_access_ip"), concat(prefix.as_str(), "_connection_conf_remote_access_ip"), remote_access_ip_metric_labels) { Ok(g) => g, Err(e) => { return Err(e); } };
        let ipv6_enabled_metric = match make_int_gauge(concat(prefix.as_str(), "_connection_ipv6_conf_ipv6_enabled"), concat(prefix.as_str(), "_connection_ipv6_conf_ipv6_enabled")) { Ok(g) => g, Err(e) => { return Err(e); } };
        let delegations_metric_labels = vec![String::from_str("prefix"), String::from_str("next_hop")];
        proof { assert(label_view(delegations_metric_labels@) =~= seq!["prefix"@, "next_hop"@]); }
        let delegations_metric = match make_family(concat(prefix.as_str(), "_connection_ipv6_conf_delegations"), concat(prefix.as_str(), "_connection_ipv6_conf_delegations"), delegations_metric_labels) { Ok(g) => g, Err(e) => { return Err(e); } };
        let sfp_has_power_report_metric = match make_int_gauge(concat(prefix.as_str(), "_connection_ftth_sfp_has_power_report"), concat(prefix.as_str(), "_connection_ftth_sfp_has_power_report")) { Ok(g) => g, Err(e) => { return Err(e); } };
        let sfp_has_signal_metric = match make_int_gauge(concat(prefix.as_str(), "_connection_ftth_sfp_has_signal"), concat(prefix.as_str(), "_connection_ftth_sfp_has_signal")) { Ok(g) => g, Err(e) => { return Err(e); } };
        let sfp_model_metric_labels = vec![String::from_str("sfp_model")];
        proof { assert(label_view(sfp_model_metric_labels@) =~= seq!["sfp_model"@]); }
        let sfp_model_metric = match make_family(concat(prefix.as_str(), "_connection_ftth_sfp_model"), concat(prefix.as_str(), "_connection_ftth_sfp_model"), sfp_model_metric_labels) { Ok(g) => g, Err(e) => { return Err(e); } };
        let sfp_vendor_metric_labels = vec![String::from_str("sfp_vendor")];
        proof { assert(label_view(sfp_vendor_metric_labels@) =~= seq!["sfp_vendor"@]); }
        let sfp_vendor_metric = match make_family(concat(prefix.as_str(), "_connection_ftth_sfp_vendor"), concat(prefix.as_str(), "_connection_ftth_sfp_vendor"), sfp_vendor_metric_labels) { Ok(g) => g, Err(e) => { return Err(e); } };
        let sfp_pwr_tx_metric = match make_int_gauge(concat(prefix.as_str(), "_connection_ftth_sfp_pwr_tx"), concat(prefix.as_str(), "_connection_ftth_sfp_pwr_tx")) { Ok(g) => g, Err(e) => { return Err(e); } };
        let sfp_pwr_rx_metric = match make_int_gauge(concat(prefix.as_str(), "_connection_ftth_sfp_pwr_rx"), concat(prefix.as_str(), "_connection_ftth_sfp_pwr_rx")) { Ok(g) => g, Err(e) => { return Err(e); } };
        let link_metric = match make_int_gauge(concat(prefix.as_str(), "_connection_ftth_link"), concat(prefix.as_str(), "_connection_ftth_link")) { Ok(g) => g, Err(e) => { return Err(e); } };
        let sfp_alim_ok_metric = match make_int_gauge(concat(prefix.as_str(), "_connection_ffth_sfp_alim_ok"), concat(prefix.as_str(), "_connection_ffth_sfp_alim_ok")) { Ok(g) => g, Err(e) => { return Err(e); } };
        let sfp_serial_metric_labels = vec![String::from_str("sfp_serial")];
        proof { assert(label_view(sfp_serial_metric_labels@) =~= seq!["sfp_serial"@]); }
        let sfp_serial_metric = match make_family(concat(prefix.as_str(), "_connection_ftth_sfp_serial"), concat(prefix.as_str(), "_connection_ftth_sfp_serial"), sfp_serial_metric_labels) { Ok(g) => g, Err(e) => { return Err(e); } };
        let sfp_present_metric = match make_int_gauge(concat(prefix.as_str(), "_connection_ffth_sfp_present"), concat(prefix.as_str(), "_connection_ffth_sfp_present")) { Ok(g) => g, Err(e) => { return Err(e); } };
        let xdsl_status_uptime_labels = vec![String::from_str("status"), String::from_str("protocol"), String::from_str("modulation")];
        proof { assert(label_view(xdsl_status_uptime_labels@) =~= seq!["status"@, "protocol"@, "modulation"@]); }
        let xdsl_status_uptime = match make_family(concat(prefix.as_str(), "_connection_xdsl_status_uptime"), concat(prefix.as_str(), "_connection_xdsl_status_uptime"), xdsl_status_uptime_labels) { Ok(g) => g, Err(e) => { return Err(e); } };
        let xdsl_stats_maxrate_labels = vec![String::from_str("direction")];
        proof { assert(label_view(xdsl_stats_maxrate_labels@) =~= seq!["direction"@]); }
        let xdsl_stats_maxrate = match make_family(concat(prefix.as_str(), "_connection_xdsl_stats_maxrate"), concat(prefix.as_str(), "_connection_xdsl_stats_maxrate"), xdsl_stats_maxrate_labels) { Ok(g) => g, Err(e) => { return Err(e); } };
        let xdsl_stats_rate_labels = vec![String::from_str("direction")];
        proof { assert(label_view(xdsl_stats_rate_labels@) =~= seq!["direction"@]); }
        let xdsl_stats_rate = match make_family(concat(prefix.as_str(), "_connection_xdsl_stats_rate"), concat(prefix.as_str(), "_connection_xdsl_stats_rate"), xdsl_stats_rate_labels) { Ok(g) => g, Err(e) => { return Err(e); } };
        let xdsl_stats_snr_labels = vec![String::from_str("direction")];
        proof { assert(label_view(xdsl_stats_snr_labels@) =~= seq!["direction"@]); }
        let xdsl_stats_snr = match make_family(concat(prefix.as_str(), "_connection_xdsl_stats_snr"), concat(prefix.as_str(), "_connection_xdsl_stats_snr"), xdsl_stats_snr_labels) { Ok(g) => g, Err(e) => { return Err(e); } };
        let xdsl_stats_attn_labels = vec![String::from_str("direction")];
        proof { assert(label_view(xdsl_stats_attn_labels@) =~= seq!["direction"@]); }
        let xdsl_stats_attn = match make_family(concat(prefix.as_str(), "_connection_xdsl_stats_attn"), concat(prefix.as_str(), "_connection_xdsl_stats_attn"), xdsl_stats_attn_labels) { Ok(g) => g, Err(e) => { return Err(e); } };
        let xdsl_stats_fec_labels = vec![String::from_str("direction")];
        proof { assert(label_view(xdsl_stats_fec_labels@) =~= seq!["direction"@]); }
        let xdsl_stats_fec = match make_family(concat(prefix.as_str(), "_connection_xdsl_stats_fec"), concat(prefix.as_str(), "_connection_xdsl_stats_fec"), xdsl_stats_fec_labels) { Ok(g) => g, Err(e) => { return Err(e); } };
        let xdsl_stats_crc_labels = vec![String::from_str("direction")];
        proof { assert(label_view(xdsl_stats_crc_labels@) =~= seq!["direction"@]); }
        let xdsl_stats_crc = match make_family(concat(prefix.as_str(), "_connection_xdsl_stats_crc"), concat(prefix.as_str(), "_connection_xdsl_stats_crc"), xdsl_stats_crc_labels) { Ok(g) => g, Err(e) => { return Err(e); } };
        let xdsl_stats_hec_labels = vec![String::from_str("direction")];
        proof { assert(label_view(xdsl_stats_hec_labels@) =~= seq!["direction"@]); }
        let xdsl_stats_hec = match make_family(concat(prefix.as_str(), "_connection_xdsl_stats_hec"), concat(prefix.as_str(), "_connection_xdsl_stats_hec"), xdsl_stats_hec_labels) { Ok(g) => g, Err(e) => { return Err(e); } };
        let xdsl_stats_es_labels = vec![String::from_str("direction")];
        proof { assert(label_view(xdsl_stats_es_labels@) =~= seq!["direction"@]); }
        let xdsl_stats_es = match make_family(concat(prefix.as_str(), "_connection_xdsl_stats_es"), concat(prefix.as_str(), "_connection_xdsl_stats_es"), xdsl_stats_es_labels) { Ok(g) => g, Err(e) => { return Err(e); } };
        let xdsl_stats_ses_labels = vec![String::from_str("direction")];
        proof { assert(label_view(xdsl_stats_ses_labels@) =~= seq!["direction"@]); }
        let xdsl_stats_ses = match make_family(concat(prefix.as_str(), "_connection_xdsl_stats_ses"), concat(prefix.as_str(), "_connection_xdsl_stats_ses"), xdsl_stats_ses_labels) { Ok(g) => g, Err(e) => { return Err(e); } };
        let xdsl_stats_rxmt_labels = vec![String::from_str("direction")];
        proof { assert(label_view(xdsl_stats_rxmt_labels@) =~= seq!["direction"@]); }
        let xdsl_stats_rxmt = match make_family(concat(prefix.as_str(), "_connection_xdsl_stats_rxmt"), concat(prefix.as_str(), "_connection_xdsl_stats_rxmt"), xdsl_stats_rxmt_labels) { Ok(g) => g, Err(e) => { return Err(e); } };
        let xdsl_stats_rxmt_corr_labels = vec![String::from_str("direction")];
        proof { assert(label_view(xdsl_stats_rxmt_corr_labels@) =~= seq!["direction"@]); }
        let xdsl_stats_rxmt_corr = match make_family(concat(prefix.as_str(), "_connection_xdsl_stats_rxmt_corr"), concat(prefix.as_str(), "_connection_xdsl_stats_rxmt_corr"), xdsl_stats_rxmt_corr_labels) { Ok(g) => g, Err(e) => { return Err(e); } };
        let xdsl_stats_rxmt_uncorr_labels = vec![String::from_str("direction")];
        proof { assert(label_view(xdsl_stats_rxmt_uncorr_labels@) =~= seq!["direction"@]); }
        let xdsl_stats_rxmt_uncorr = match make_family(concat(prefix.as_str(), "_connection_xdsl_stats_rxmt_uncorr"), concat(prefix.as_str(), "_connection_xdsl_stats_rxmt_uncorr"), xdsl_stats_rxmt_uncorr_labels) { Ok(g) => g, Err(e) => { return Err(e); } };
        let xdsl_stats_rtx_tx_labels = vec![String::from_str("direction")];
        proof { assert(label_view(xdsl_stats_rtx_tx_labels@) =~= seq!["direction"@]); }
        let xdsl_stats_rtx_tx = match make_family(concat(prefix.as_str(), "_connection_xdsl_stats_rtx_tx"), concat(prefix.as_str(), "_connection_xdsl_stats_rtx_tx"), xdsl_stats_rtx_tx_labels) { Ok(g) => g, Err(e) => { return Err(e); } };
        let xdsl_stats_rtx_c_labels = vec![String::from_str("direction")];
        proof { assert(label_view(xdsl_stats_rtx_c_labels@) =~= seq!["direction"@]); }
        let xdsl_stats_rtx_c = match make_family(concat(prefix.as_str(), "_connection_xdsl_stats_rtx_c"), concat(prefix.as_str(), "_connection_xdsl_stats_rtx_c"), xdsl_stats_rtx_c_labels) { Ok(g) => g, Err(e) => { return Err(e); } };
        let xdsl_stats_rtx_uc_labels = vec![String::from_str("direction")];
        proof { assert(label_view(xdsl_stats_rtx_uc_labels@) =~= seq!["direction"@]); }
        let xdsl_stats_rtx_uc = match make_family(concat(prefix.as_str(), "_connection_xdsl_stats_rtx_uc"), concat(prefix.as_str(), "_connection_xdsl_stats_rtx_uc"), xdsl_stats_rtx_uc_labels) { Ok(g) => g, Err(e) => { return Err(e); } };
        Ok(ConnectionMetricMap { is_ftth: None, bytes_down_metric, bytes_up_metric, rate_down_metric, rate_up_metric, bandwidth_down_metric, bandwidth_up_metric, type_metric, media_metric, state_metric, ipv4_metric, ipv6_metric, ping_metric, is_secure_pass_metric, remote_access_port_metric, remote_access_metric, wol_metric, adblock_metric, adblock_not_set_metric, api_remote_access_metric, allow_token_request_metric, remote_access_ip_metric, ipv6_enabled_metric, delegations_metric, sfp_has_power_report_metric, sfp_has_signal_metric, sfp_model_metric, sfp_vendor_metric, sfp_pwr_tx_metric, sfp_pwr_rx_metric, link_metric, sfp_alim_ok_metric, sfp_serial_metric, sfp_present_metric, xdsl_status_uptime, xdsl_stats_maxrate, xdsl_stats_rate, xdsl_stats_snr, xdsl_stats_attn, xdsl_stats_fec, xdsl_stats_crc, xdsl_stats_hec, xdsl_stats_es, xdsl_stats_ses, xdsl_stats_rxmt, xdsl_stats_rxmt_corr, xdsl_stats_rxmt_uncorr, xdsl_stats_rtx_tx, xdsl_stats_rtx_c, xdsl_stats_rtx_uc })
    }

    /// The metric names of the gauges, in declaration order.
    pub open spec fn names_of(&self) -> Seq<Seq<char>> {
        seq![int_gauge_name(self.bytes_down_metric), int_gauge_name(self.bytes_up_metric), int_gauge_name(self.rate_down_metric), int_gauge_name(self.rate_up_metric), int_gauge_name(self.bandwidth_down_metric), int_gauge_name(self.bandwidth_up_metric), family_name(self.type_metric), family_name(self.media_metric), family_name(self.state_metric), family_name(self.ipv4_metric), family_name(self.ipv6_metric), int_gauge_name(self.ping_metric), int_gauge_name(self.is_secure_pass_metric), int_gauge_name(self.remote_access_port_metric), int_gauge_name(self.remote_access_metric), int_gauge_name(self.wol_metric), int_gauge_name(self.adblock_metric), int_gauge_name(self.adblock_not_set_metric), int_gauge_name(self.api_remote_access_metric), int_gauge_name(self.allow_token_request_metric), family_name(self.remote_access_ip_metric), int_gauge_name(self.ipv6_enabled_metric), family_name(self.delegations_metric), int_gauge_name(self.sfp_has_power_report_metric), int_gauge_name(self.sfp_has_signal_metric), family_name(self.sfp_model_metric), family_name(self.sfp_vendor_metric), int_gauge_name(self.sfp_pwr_tx_metric), int_gauge_name(self.sfp_pwr_rx_metric), int_gauge_name(self.link_metric), int_gauge_name(self.sfp_alim_ok_metric), family_name(self.sfp_serial_metric), int_gauge_name(self.sfp_present_metric), family_name(self.xdsl_status_uptime), family_name(self.xdsl_stats_maxrate), family_name(self.xdsl_stats_rate), family_name(self.xdsl_stats_snr), family_name(self.xdsl_stats_attn), family_name(self.xdsl_stats_fec), family_name(self.xdsl_stats_crc), family_name(self.xdsl_stats_hec), family_name(self.xdsl_stats_es), family_name(self.xdsl_stats_ses), family_name(self.xdsl_stats_rxmt), family_name(self.xdsl_stats_rxmt_corr), family_name(self.xdsl_stats_rxmt_uncorr), family_name(self.xdsl_stats_rtx_tx), family_name(self.xdsl_stats_rtx_c), family_name(self.xdsl_stats_rtx_uc)]
    }

    /// Drops every child of every family and puts every single gauge at 0.
    pub fn reset_all(&mut self)
        requires
            old(self).well_formed(),
        ensures
            final(self).well_formed(),
            final(self).is_cleared(),
            final(self).names_of() == old(self).names_of(),
            final(self).is_ftth == old(self).is_ftth,
    {
        int_gauge_set(&mut self.bytes_down_metric, 0);
        int_gauge_set(&mut self.bytes_up_metric, 0);
        int_gauge_set(&mut self.rate_down_metric, 0);
        int_gauge_set(&mut self.rate_up_metric, 0);
        int_gauge_set(&mut self.bandwidth_down_metric, 0);
        int_gauge_set(&mut self.bandwidth_up_metric, 0);
        family_reset(&mut self.type_metric);
        family_reset(&mut self.media_metric);
        family_reset(&mut self.state_metric);
        family_reset(&mut self.ipv4_metric);
        family_reset(&mut self.ipv6_metric);
        int_gauge_set(&mut self.ping_metric, 0);
        int_gauge_set(&mut self.is_secure_pass_metric, 0);
        int_gauge_set(&mut self.remote_access_port_metric, 0);
        int_gauge_set(&mut self.remote_access_metric, 0);
        int_gauge_set(&mut self.wol_metric, 0);
        int_gauge_set(&mut self.adblock_metric, 0);
        int_gauge_set(&mut self.adblock_not_set_metric, 0);
        int_gauge_set(&mut self.api_remote_access_metric, 0);
        int_gauge_set(&mut self.allow_token_request_metric, 0);
        family_reset(&mut self.remote_access_ip_metric);
        int_gauge_set(&mut self.ipv6_enabled_metric, 0);
        family_reset(&mut self.delegations_metric);
        int_gauge_set(&mut self.sfp_has_power_report_metric, 0);
        int_gauge_set(&mut self.sfp_has_signal_metric, 0);
        family_reset(&mut self.sfp_model_metric);
        family_reset(&mut self.sfp_vendor_metric);
        int_gauge_set(&mut self.sfp_pwr_tx_metric, 0);
        int_gauge_set(&mut self.sfp_pwr_rx_metric, 0);
        int_gauge_set(&mut self.link_metric, 0);
        int_gauge_set(&mut self.sfp_alim_ok_metric, 0);
        family_reset(&mut self.sfp_serial_metric);
        int_gauge_set(&mut self.sfp_present_metric, 0);
        family_reset(&mut self.xdsl_status_uptime);
        family_reset(&mut self.xdsl_stats_maxrate);
        family_reset(&mut self.xdsl_stats_rate);
        family_reset(&mut self.xdsl_stats_snr);
        family_reset(&mut self.xdsl_stats_attn);
        family_reset(&mut self.xdsl_stats_fec);
        family_reset(&mut self.xdsl_stats_crc);
        family_reset(&mut self.xdsl_stats_hec);
        family_reset(&mut self.xdsl_stats_es);
        family_reset(&mut self.xdsl_stats_ses);
        family_reset(&mut self.xdsl_stats_rxmt);
        family_reset(&mut self.xdsl_stats_rxmt_corr);
        family_reset(&mut self.xdsl_stats_rxmt_uncorr);
        family_reset(&mut self.xdsl_stats_rtx_tx);
        family_reset(&mut self.xdsl_stats_rtx_c);
        family_reset(&mut self.xdsl_stats_rtx_uc);
    }

    /// Records the media reported at start-up: FTTH exactly when the trimmed,
    /// lower-cased media (empty when absent) is "ftth".
    pub fn init_media(&mut self, status: &ConnectionStatus)
        ensures
            final(self).is_ftth == Some(unicode_lowercase(spec_trim(opt_text(status.media))) == "ftth"@),
            final(self).bytes_down_metric == old(self).bytes_down_metric,
            final(self).bytes_up_metric == old(self).bytes_up_metric,
            final(self).rate_down_metric == old(self).rate_down_metric,
            final(self).rate_up_metric == old(self).rate_up_metric,
            final(self).bandwidth_down_metric == old(self).bandwidth_down_metric,
            final(self).bandwidth_up_metric == old(self).bandwidth_up_metric,
            final(self).type_metric == old(self).type_metric,
            final(self).media_metric == old(self).media_metric,
            final(self).state_metric == old(self).state_metric,
            final(self).ipv4_metric == old(self).ipv4_metric,
            final(self).ipv6_metric == old(self).ipv6_metric,
            final(self).ping_metric == old(self).ping_metric,
            final(self).is_secure_pass_metric == old(self).is_secure_pass_metric,
            final(self).remote_access_port_metric == old(self).remote_access_port_metric,
            final(self).remote_access_metric == old(self).remote_access_metric,
            final(self).wol_metric == old(self).wol_metric,
            final(self).adblock_metric == old(self).adblock_metric,
            final(self).adblock_not_set_metric == old(self).adblock_not_set_metric,
            final(self).api_remote_access_metric == old(self).api_remote_access_metric,
            final(self).allow_token_request_metric == old(self).allow_token_request_metric,
            final(self).remote_access_ip_metric == old(self).remote_access_ip_metric,
            final(self).ipv6_enabled_metric == old(self).ipv6_enabled_metric,
            final(self).delegations_metric == old(self).delegations_metric,
            final(self).sfp_has_power_report_metric == old(self).sfp_has_power_report_metric,
            final(self).sfp_has_signal_metric == old(self).sfp_has_signal_metric,
            final(self).sfp_model_metric == old(self).sfp_model_metric,
            final(self).sfp_vendor_metric == old(self).sfp_vendor_metric,
            final(self).sfp_pwr_tx_metric == old(self).sfp_pwr_tx_metric,
            final(self).sfp_pwr_rx_metric == old(self).sfp_pwr_rx_metric,
            final(self).link_metric == old(self).link_metric,
            final(self).sfp_alim_ok_metric == old(self).sfp_alim_ok_metric,
            final(self).sfp_serial_metric == old(self).sfp_serial_metric,
            final(self).sfp_present_metric == old(self).sfp_present_metric,
            final(self).xdsl_status_uptime == old(self).xdsl_status_uptime,
            final(self).xdsl_stats_maxrate == old(self).xdsl_stats_maxrate,
            final(self).xdsl_stats_rate == old(self).xdsl_stats_rate,
            final(self).xdsl_stats_snr == old(self).xdsl_stats_snr,
            final(self).xdsl_stats_attn == old(self).xdsl_stats_attn,
            final(self).xdsl_stats_fec == old(self).xdsl_stats_fec,
            final(self).xdsl_stats_crc == old(self).xdsl_stats_crc,
            final(self).xdsl_stats_hec == old(self).xdsl_stats_hec,
            final(self).xdsl_stats_es == old(self).xdsl_stats_es,
            final(self).xdsl_stats_ses == old(self).xdsl_stats_ses,
            final(self).xdsl_stats_rxmt == old(self).xdsl_stats_rxmt,
            final(self).xdsl_stats_rxmt_corr == old(self).xdsl_stats_rxmt_corr,
            final(self).xdsl_stats_rxmt_uncorr == old(self).xdsl_stats_rxmt_uncorr,
            final(self).xdsl_stats_rtx_tx == old(self).xdsl_stats_rtx_tx,
            final(self).xdsl_stats_rtx_c == old(self).xdsl_stats_rtx_c,
            final(self).xdsl_stats_rtx_uc == old(self).xdsl_stats_rtx_uc,
    {
        let media = text_or_default(&status.media);
        let trimmed = trim(media.as_str());
        let lowered = to_lowercase(trimmed.as_str());
        self.is_ftth = Some(str_eq(lowered.as_str(), "ftth"));
    }

    /// Decides, from a fresh status, whether the fibre or the xDSL metrics are exposed:
    /// fibre exactly when the lower-cased media is "ftth". The recorded media is updated
    /// when it differs from the decision, an unknown record counting as fibre.
    pub fn observe_media(&mut self, status: &ConnectionStatus) -> (is_ftth: bool)
        ensures
            is_ftth == (media_key(*status) == "ftth"@),
            final(self).is_ftth == (if is_ftth != old(self).is_ftth.unwrap_or(true) { Some(is_ftth) } else { old(self).is_ftth }),
            final(self).bytes_down_metric == old(self).bytes_down_metric,
            final(self).bytes_up_metric == old(self).bytes_up_metric,
            final(self).rate_down_metric == old(self).rate_down_metric,
            final(self).rate_up_metric == old(self).rate_up_metric,
            final(self).bandwidth_down_metric == old(self).bandwidth_down_metric,
            final(self).bandwidth_up_metric == old(self).bandwidth_up_metric,
            final(self).type_metric == old(self).type_metric,
            final(self).media_metric == old(self).media_metric,
            final(self).state_metric == old(self).state_metric,
            final(self).ipv4_metric == old(self).ipv4_metric,
            final(self).ipv6_metric == old(self).ipv6_metric,
            final(self).ping_metric == old(self).ping_metric,
            final(self).is_secure_pass_metric == old(self).is_secure_pass_metric,
            final(self).remote_access_port_metric == old(self).remote_access_port_metric,
            final(self).remote_access_metric == old(self).remote_access_metric,
            final(self).wol_metric == old(self).wol_metric,
            final(self).adblock_metric == old(self).adblock_metric,
            final(self).adblock_not_set_metric == old(self).adblock_not_set_metric,
            final(self).api_remote_access_metric == old(self).api_remote_access_metric,
            final(self).allow_token_request_metric == old(self).allow_token_request_metric,
            final(self).remote_access_ip_metric == old(self).remote_access_ip_metric,
            final(self).ipv6_enabled_metric == old(self).ipv6_enabled_metric,
            final(self).delegations_metric == old(self).delegations_metric,
            final(self).sfp_has_power_report_metric == old(self).sfp_has_power_report_metric,
            final(self).sfp_has_signal_metric == old(self).sfp_has_signal_metric,
            final(self).sfp_model_metric == old(self).sfp_model_metric,
            final(self).sfp_vendor_metric == old(self).sfp_vendor_metric,
            final(self).sfp_pwr_tx_metric == old(self).sfp_pwr_tx_metric,
            final(self).sfp_pwr_rx_metric == old(self).sfp_pwr_rx_metric,
            final(self).link_metric == old(self).link_metric,
            final(self).sfp_alim_ok_metric == old(self).sfp_alim_ok_metric,
            final(self).sfp_serial_metric == old(self).sfp_serial_metric,
            final(self).sfp_present_metric == old(self).sfp_present_metric,
            final(self).xdsl_status_uptime == old(self).xdsl_status_uptime,
            final(self).xdsl_stats_maxrate == old(self).xdsl_stats_maxrate,
            final(self).xdsl_stats_rate == old(self).xdsl_stats_rate,
            final(self).xdsl_stats_snr == old(self).xdsl_stats_snr,
            final(self).xdsl_stats_attn == old(self).xdsl_stats_attn,
            final(self).xdsl_stats_fec == old(self).xdsl_stats_fec,
            final(self).xdsl_stats_crc == old(self).xdsl_stats_crc,
            final(self).xdsl_stats_hec == old(self).xdsl_stats_hec,
            final(self).xdsl_stats_es == old(self).xdsl_stats_es,
            final(self).xdsl_stats_ses == old(self).xdsl_stats_ses,
            final(self).xdsl_stats_rxmt == old(self).xdsl_stats_rxmt,
            final(self).xdsl_stats_rxmt_corr == old(self).xdsl_stats_rxmt_corr,
            final(self).xdsl_stats_rxmt_uncorr == old(self).xdsl_stats_rxmt_uncorr,
            final(self).xdsl_stats_rtx_tx == old(self).xdsl_stats_rtx_tx,
            final(self).xdsl_stats_rtx_c == old(self).xdsl_stats_rtx_c,
            final(self).xdsl_stats_rtx_uc == old(self).xdsl_stats_rtx_uc,
    {
        let media = text_or(&status.media, "unknown");
        let lowered = to_lowercase(media.as_str());
        let is_ftth = str_eq(lowered.as_str(), "ftth");
        let recorded = match self.is_ftth {
            Some(b) => b,
            None => true,
        };
        if is_ftth != recorded {
            self.is_ftth = Some(is_ftth);
        }
        is_ftth
    }

    /// Writes the connection status: one child per type, media and address (at 1),
    /// the "up" state child (1 when the state is "up"), and the byte, rate and bandwidth counters.
    pub fn set_connection_status(&mut self, status: &ConnectionStatus)
        requires
            old(self).well_formed(),
        ensures
            final(self).well_formed(),
            final(self).names_of() == old(self).names_of(),
            final(self).is_ftth == old(self).is_ftth,
            final(self).type_metric@ == family_put(old(self).type_metric@, seq![opt_text(status._type)], 1),
            final(self).state_metric@ == family_put(old(self).state_metric@, seq!["up"@], flag(opt_text(status.state) == "up"@)),
            final(self).media_metric@ == family_put(old(self).media_metric@, seq![opt_text(status.media)], 1),
            final(self).ipv4_metric@ == family_put(old(self).ipv4_metric@, seq![opt_text(status.ipv4)], 1),
            final(self).ipv6_metric@ == family_put(old(self).ipv6_metric@, seq![opt_text(status.ipv6)], 1),
            final(self).bytes_down_metric@ == opt_i64(status.bytes_down),
            final(self).bytes_up_metric@ == opt_i64(status.bytes_up),
            final(self).rate_down_metric@ == opt_i64(status.rate_down),
            final(self).rate_up_metric@ == opt_i64(status.rate_up),
            final(self).bandwidth_down_metric@ == opt_i64(status.bandwidth_down),
            final(self).bandwidth_up_metric@ == opt_i64(status.bandwidth_up),
            final(self).ping_metric == old(self).ping_metric,
            final(self).is_secure_pass_metric == old(self).is_secure_pass_metric,
            final(self).remote_access_port_metric == old(self).remote_access_port_metric,
            final(self).remote_access_metric == old(self).remote_access_metric,
            final(self).wol_metric == old(self).wol_metric,
            final(self).adblock_metric == old(self).adblock_metric,
            final(self).adblock_not_set_metric == old(self).adblock_not_set_metric,
            final(self).api_remote_access_metric == old(self).api_remote_access_metric,
            final(self).allow_token_request_metric == old(self).allow_token_request_metric,
            final(self).remote_access_ip_metric == old(self).remote_access_ip_metric,
            final(self).ipv6_enabled_metric == old(self).ipv6_enabled_metric,
            final(self).delegations_metric == old(self).delegations_metric,
            final(self).sfp_has_power_report_metric == old(self).sfp_has_power_report_metric,
            final(self).sfp_has_signal_metric == old(self).sfp_has_signal_metric,
            final(self).sfp_model_metric == old(self).sfp_model_metric,
            final(self).sfp_vendor_metric == old(self).sfp_vendor_metric,
            final(self).sfp_pwr_tx_metric == old(self).sfp_pwr_tx_metric,
            final(self).sfp_pwr_rx_metric == old(self).sfp_pwr_rx_metric,
            final(self).link_metric == old(self).link_metric,
            final(self).sfp_alim_ok_metric == old(self).sfp_alim_ok_metric,
            final(self).sfp_serial_metric == old(self).sfp_serial_metric,
            final(self).sfp_present_metric == old(self).sfp_present_metric,
            final(self).xdsl_status_uptime == old(self).xdsl_status_uptime,
            final(self).xdsl_stats_maxrate == old(self).xdsl_stats_maxrate,
            final(self).xdsl_stats_rate == old(self).xdsl_stats_rate,
            final(self).xdsl_stats_snr == old(self).xdsl_stats_snr,
            final(self).xdsl_stats_attn == old(self).xdsl_stats_attn,
            final(self).xdsl_stats_fec == old(self).xdsl_stats_fec,
            final(self).xdsl_stats_crc == old(self).xdsl_stats_crc,
            final(self).xdsl_stats_hec == old(self).xdsl_stats_hec,
            final(self).xdsl_stats_es == old(self).xdsl_stats_es,
            final(self).xdsl_stats_ses == old(self).xdsl_stats_ses,
            final(self).xdsl_stats_rxmt == old(self).xdsl_stats_rxmt,
            final(self).xdsl_stats_rxmt_corr == old(self).xdsl_stats_rxmt_corr,
            final(self).xdsl_stats_rxmt_uncorr == old(self).xdsl_stats_rxmt_uncorr,
            final(self).xdsl_stats_rtx_tx == old(self).xdsl_stats_rtx_tx,
            final(self).xdsl_stats_rtx_c == old(self).xdsl_stats_rtx_c,
            final(self).xdsl_stats_rtx_uc == old(self).xdsl_stats_rtx_uc,
    {
        family_set(&mut self.type_metric, &labels1(text_or_default(&status._type)), 1);
        let state = text_or_default(&status.state);
        let up = flag_value(str_eq(state.as_str(), "up"));
        family_set(&mut self.state_metric, &labels1(String::from_str("up")), up);
        family_set(&mut self.media_metric, &labels1(text_or_default(&status.media)), 1);
        family_set(&mut self.ipv4_metric, &labels1(text_or_default(&status.ipv4)), 1);
        family_set(&mut self.ipv6_metric, &labels1(text_or_default(&status.ipv6)), 1);
        int_gauge_set(&mut self.bytes_down_metric, opt_i64_value(status.bytes_down));
        int_gauge_set(&mut self.bytes_up_metric, opt_i64_value(status.bytes_up));
        int_gauge_set(&mut self.rate_down_metric, opt_i64_value(status.rate_down));
        int_gauge_set(&mut self.rate_up_metric, opt_i64_value(status.rate_up));
        int_gauge_set(&mut self.bandwidth_down_metric, opt_i64_value(status.bandwidth_down));
        int_gauge_set(&mut self.bandwidth_up_metric, opt_i64_value(status.bandwidth_up));
    }

    /// Writes the connection configuration. The remote access address child is valued
    /// by whether remote access is reported at all.
    pub fn set_connection_conf(&mut self, conf: &ConnectionConfiguration)
        requires
            old(self).well_formed(),
        ensures
            final(self).well_formed(),
            final(self).names_of() == old(self).names_of(),
            final(self).is_ftth == old(self).is_ftth,
            final(self).ping_metric@ == opt_flag(conf.ping),
            final(self).is_secure_pass_metric@ == opt_flag(conf.is_secure_pass),
            final(self).remote_access_port_metric@ == opt_u16(conf.remote_access_port),
            final(self).remote_access_metric@ == opt_flag(conf.remote_access),
            final(self).wol_metric@ == opt_flag(conf.wol),
            final(self).adblock_metric@ == opt_flag(conf.adblock),
            final(self).adblock_not_set_metric@ == opt_flag(conf.adblock_not_set),
            final(self).api_remote_access_metric@ == opt_flag(conf.api_remote_access),
            final(self).allow_token_request_metric@ == opt_flag(conf.allow_token_request),
            final(self).remote_access_ip_metric@ == family_put(old(self).remote_access_ip_metric@, seq![opt_text(conf.remote_access_ip)], flag(conf.remote_access is Some)),
            final(self).bytes_down_metric == old(self).bytes_down_metric,
            final(self).bytes_up_metric == old(self).bytes_up_metric,
            final(self).rate_down_metric == old(self).rate_down_metric,
            final(self).rate_up_metric == old(self).rate_up_metric,
            final(self).bandwidth_down_metric == old(self).bandwidth_down_metric,
            final(self).bandwidth_up_metric == old(self).bandwidth_up_metric,
            final(self).type_metric == old(self).type_metric,
            final(self).media_metric == old(self).media_metric,
            final(self).state_metric == old(self).state_metric,
            final(self).ipv4_metric == old(self).ipv4_metric,
            final(self).ipv6_metric == old(self).ipv6_metric,
            final(self).ipv6_enabled_metric == old(self).ipv6_enabled_metric,
            final(self).delegations_metric == old(self).delegations_metric,
            final(self).sfp_has_power_report_metric == old(self).sfp_has_power_report_metric,
            final(self).sfp_has_signal_metric == old(self).sfp_has_signal_metric,
            final(self).sfp_model_metric == old(self).sfp_model_metric,
            final(self).sfp_vendor_metric == old(self).sfp_vendor_metric,
            final(self).sfp_pwr_tx_metric == old(self).sfp_pwr_tx_metric,
            final(self).sfp_pwr_rx_metric == old(self).sfp_pwr_rx_metric,
            final(self).link_metric == old(self).link_metric,
            final(self).sfp_alim_ok_metric == old(self).sfp_alim_ok_metric,
            final(self).sfp_serial_metric == old(self).sfp_serial_metric,
            final(self).sfp_present_metric == old(self).sfp_present_metric,
            final(self).xdsl_status_uptime == old(self).xdsl_status_uptime,
            final(self).xdsl_stats_maxrate == old(self).xdsl_stats_maxrate,
            final(self).xdsl_stats_rate == old(self).xdsl_stats_rate,
            final(self).xdsl_stats_snr == old(self).xdsl_stats_snr,
            final(self).xdsl_stats_attn == old(self).xdsl_stats_attn,
            final(self).xdsl_stats_fec == old(self).xdsl_stats_fec,
            final(self).xdsl_stats_crc == old(self).xdsl_stats_crc,
            final(self).xdsl_stats_hec == old(self).xdsl_stats_hec,
            final(self).xdsl_stats_es == old(self).xdsl_stats_es,
            final(self).xdsl_stats_ses == old(self).xdsl_stats_ses,
            final(self).xdsl_stats_rxmt == old(self).xdsl_stats_rxmt,
            final(self).xdsl_stats_rxmt_corr == old(self).xdsl_stats_rxmt_corr,
            final(self).xdsl_stats_rxmt_uncorr == old(self).xdsl_stats_rxmt_uncorr,
            final(self).xdsl_stats_rtx_tx == old(self).xdsl_stats_rtx_tx,
            final(self).xdsl_stats_rtx_c == old(self).xdsl_stats_rtx_c,
            final(self).xdsl_stats_rtx_uc == old(self).xdsl_stats_rtx_uc,
    {
        int_gauge_set(&mut self.ping_metric, opt_flag_value(conf.ping));
        int_gauge_set(&mut self.is_secure_pass_metric, opt_flag_value(conf.is_secure_pass));
        int_gauge_set(&mut self.remote_access_port_metric, opt_u16_value(conf.remote_access_port));
        int_gauge_set(&mut self.remote_access_metric, opt_flag_value(conf.remote_access));
        int_gauge_set(&mut self.wol_metric, opt_flag_value(conf.wol));
        int_gauge_set(&mut self.adblock_metric, opt_flag_value(conf.adblock));
        int_gauge_set(&mut self.adblock_not_set_metric, opt_flag_value(conf.adblock_not_set));
        int_gauge_set(&mut self.api_remote_access_metric, opt_flag_value(conf.api_remote_access));
        int_gauge_set(&mut self.allow_token_request_metric, opt_flag_value(conf.allow_token_request));
        family_set(&mut self.remote_access_ip_metric, &labels1(text_or_default(&conf.remote_access_ip)), flag_value(conf.remote_access.is_some()));
    }

    /// Writes the IPv6 configuration: whether IPv6 is enabled, and one child at 1 per
    /// delegation, labelled with its prefix and next hop.
    pub fn set_connection_ipv6_conf(&mut self, conf: &ConnectionIpv6Configuration)
        requires
            old(self).well_formed(),
            conf.delegations matches Some(ds) ==> delegations_complete(ds@),
        ensures
            final(self).well_formed(),
            final(self).names_of() == old(self).names_of(),
            final(self).is_ftth == old(self).is_ftth,
            final(self).ipv6_enabled_metric@ == opt_flag(conf.ipv6_enabled),
            final(self).delegations_metric@ == (match conf.delegations {
                Some(ds) => put_delegations(old(self).delegations_metric@, ds@),
                None => old(self).delegations_metric@,
            }),
            final(self).bytes_down_metric == old(self).bytes_down_metric,
            final(self).bytes_up_metric == old(self).bytes_up_metric,
            final(self).rate_down_metric == old(self).rate_down_metric,
            final(self).rate_up_metric == old(self).rate_up_metric,
            final(self).bandwidth_down_metric == old(self).bandwidth_down_metric,
            final(self).bandwidth_up_metric == old(self).bandwidth_up_metric,
            final(self).type_metric == old(self).type_metric,
            final(self).media_metric == old(self).media_metric,
            final(self).state_metric == old(self).state_metric,
            final(self).ipv4_metric == old(self).ipv4_metric,
            final(self).ipv6_metric == old(self).ipv6_metric,
            final(self).ping_metric == old(self).ping_metric,
            final(self).is_secure_pass_metric == old(self).is_secure_pass_metric,
            final(self).remote_access_port_metric == old(self).remote_access_port_metric,
            final(self).remote_access_metric == old(self).remote_access_metric,
            final(self).wol_metric == old(self).wol_metric,
            final(self).adblock_metric == old(self).adblock_metric,
            final(self).adblock_not_set_metric == old(self).adblock_not_set_metric,
            final(self).api_remote_access_metric == old(self).api_remote_access_metric,
            final(self).allow_token_request_metric == old(self).allow_token_request_metric,
            final(self).remote_access_ip_metric == old(self).remote_access_ip_metric,
            final(self).sfp_has_power_report_metric == old(self).sfp_has_power_report_metric,
            final(self).sfp_has_signal_metric == old(self).sfp_has_signal_metric,
            final(self).sfp_model_metric == old(self).sfp_model_metric,
            final(self).sfp_vendor_metric == old(self).sfp_vendor_metric,
            final(self).sfp_pwr_tx_metric == old(self).sfp_pwr_tx_metric,
            final(self).sfp_pwr_rx_metric == old(self).sfp_pwr_rx_metric,
            final(self).link_metric == old(self).link_metric,
            final(self).sfp_alim_ok_metric == old(self).sfp_alim_ok_metric,
            final(self).sfp_serial_metric == old(self).sfp_serial_metric,
            final(self).sfp_present_metric == old(self).sfp_present_metric,
            final(self).xdsl_status_uptime == old(self).xdsl_status_uptime,
            final(self).xdsl_stats_maxrate == old(self).xdsl_stats_maxrate,
            final(self).xdsl_stats_rate == old(self).xdsl_stats_rate,
            final(self).xdsl_stats_snr == old(self).xdsl_stats_snr,
            final(self).xdsl_stats_attn == old(self).xdsl_stats_attn,
            final(self).xdsl_stats_fec == old(self).xdsl_stats_fec,
            final(self).xdsl_stats_crc == old(self).xdsl_stats_crc,
            final(self).xdsl_stats_hec == old(self).xdsl_stats_hec,
            final(self).xdsl_stats_es == old(self).xdsl_stats_es,
            final(self).xdsl_stats_ses == old(self).xdsl_stats_ses,
            final(self).xdsl_stats_rxmt == old(self).xdsl_stats_rxmt,
            final(self).xdsl_stats_rxmt_corr == old(self).xdsl_stats_rxmt_corr,
            final(self).xdsl_stats_rxmt_uncorr == old(self).xdsl_stats_rxmt_uncorr,
            final(self).xdsl_stats_rtx_tx == old(self).xdsl_stats_rtx_tx,
            final(self).xdsl_stats_rtx_c == old(self).xdsl_stats_rtx_c,
            final(self).xdsl_stats_rtx_uc == old(self).xdsl_stats_rtx_uc,
    {
        int_gauge_set(&mut self.ipv6_enabled_metric, opt_flag_value(conf.ipv6_enabled));
        if let Some(ds) = &conf.delegations {
            put_all_delegations(&mut self.delegations_metric, ds);
        }
    }

    /// Writes the fibre module state; model, vendor and serial children are valued by
    /// whether the value is reported.
    pub fn set_connection_ftth_status(&mut self, ftth: &ConnectionFtth)
        requires
            old(self).well_formed(),
        ensures
            final(self).well_formed(),
            final(self).names_of() == old(self).names_of(),
            final(self).is_ftth == old(self).is_ftth,
            final(self).sfp_has_power_report_metric@ == opt_flag(ftth.sfp_has_power_report),
            final(self).sfp_has_signal_metric@ == opt_flag(ftth.sfp_has_signal),
            final(self).sfp_model_metric@ == family_put(old(self).sfp_model_metric@, seq![opt_text(ftth.sfp_model)], flag(ftth.sfp_model is Some)),
            final(self).sfp_vendor_metric@ == family_put(old(self).sfp_vendor_metric@, seq![opt_text(ftth.sfp_vendor)], flag(ftth.sfp_vendor is Some)),
            final(self).sfp_pwr_tx_metric@ == opt_i64(ftth.sfp_pwr_tx),
            final(self).sfp_pwr_rx_metric@ == opt_i64(ftth.sfp_pwr_rx),
            final(self).link_metric@ == opt_flag(ftth.link),
            final(self).sfp_alim_ok_metric@ == opt_flag(ftth.sfp_alim_ok),
            final(self).sfp_serial_metric@ == family_put(old(self).sfp_serial_metric@, seq![opt_text(ftth.sfp_serial)], flag(ftth.sfp_serial is Some)),
            final(self).sfp_present_metric@ == opt_flag(ftth.sfp_present),
            final(self).bytes_down_metric == old(self).bytes_down_metric,
            final(self).bytes_up_metric == old(self).bytes_up_metric,
            final(self).rate_down_metric == old(self).rate_down_metric,
            final(self).rate_up_metric == old(self).rate_up_metric,
            final(self).bandwidth_down_metric == old(self).bandwidth_down_metric,
            final(self).bandwidth_up_metric == old(self).bandwidth_up_metric,
            final(self).type_metric == old(self).type_metric,
            final(self).media_metric == old(self).media_metric,
            final(self).state_metric == old(self).state_metric,
            final(self).ipv4_metric == old(self).ipv4_metric,
            final(self).ipv6_metric == old(self).ipv6_metric,
            final(self).ping_metric == old(self).ping_metric,
            final(self).is_secure_pass_metric == old(self).is_secure_pass_metric,
            final(self).remote_access_port_metric == old(self).remote_access_port_metric,
            final(self).remote_access_metric == old(self).remote_access_metric,
            final(self).wol_metric == old(self).wol_metric,
            final(self).adblock_metric == old(self).adblock_metric,
            final(self).adblock_not_set_metric == old(self).adblock_not_set_metric,
            final(self).api_remote_access_metric == old(self).api_remote_access_metric,
            final(self).allow_token_request_metric == old(self).allow_token_request_metric,
            final(self).remote_access_ip_metric == old(self).remote_access_ip_metric,
            final(self).ipv6_enabled_metric == old(self).ipv6_enabled_metric,
            final(self).delegations_metric == old(self).delegations_metric,
            final(self).xdsl_status_uptime == old(self).xdsl_status_uptime,
            final(self).xdsl_stats_maxrate == old(self).xdsl_stats_maxrate,
            final(self).xdsl_stats_rate == old(self).xdsl_stats_rate,
            final(self).xdsl_stats_snr == old(self).xdsl_stats_snr,
            final(self).xdsl_stats_attn == old(self).xdsl_stats_attn,
            final(self).xdsl_stats_fec == old(self).xdsl_stats_fec,
            final(self).xdsl_stats_crc == old(self).xdsl_stats_crc,
            final(self).xdsl_stats_hec == old(self).xdsl_stats_hec,
            final(self).xdsl_stats_es == old(self).xdsl_stats_es,
            final(self).xdsl_stats_ses == old(self).xdsl_stats_ses,
            final(self).xdsl_stats_rxmt == old(self).xdsl_stats_rxmt,
            final(self).xdsl_stats_rxmt_corr == old(self).xdsl_stats_rxmt_corr,
            final(self).xdsl_stats_rxmt_uncorr == old(self).xdsl_stats_rxmt_uncorr,
            final(self).xdsl_stats_rtx_tx == old(self).xdsl_stats_rtx_tx,
            final(self).xdsl_stats_rtx_c == old(self).xdsl_stats_rtx_c,
            final(self).xdsl_stats_rtx_uc == old(self).xdsl_stats_rtx_uc,
    {
        int_gauge_set(&mut self.sfp_has_power_report_metric, opt_flag_value(ftth.sfp_has_power_report));
        int_gauge_set(&mut self.sfp_has_signal_metric, opt_flag_value(ftth.sfp_has_signal));
        family_set(&mut self.sfp_model_metric, &labels1(text_or_default(&ftth.sfp_model)), flag_value(ftth.sfp_model.is_some()));
        family_set(&mut self.sfp_vendor_metric, &labels1(text_or_default(&ftth.sfp_vendor)), flag_value(ftth.sfp_vendor.is_some()));
        int_gauge_set(&mut self.sfp_pwr_tx_metric, opt_i64_value(ftth.sfp_pwr_tx));
        int_gauge_set(&mut self.sfp_pwr_rx_metric, opt_i64_value(ftth.sfp_pwr_rx));
        int_gauge_set(&mut self.link_metric, opt_flag_value(ftth.link));
        int_gauge_set(&mut self.sfp_alim_ok_metric, opt_flag_value(ftth.sfp_alim_ok));
        family_set(&mut self.sfp_serial_metric, &labels1(text_or_default(&ftth.sfp_serial)), flag_value(ftth.sfp_serial.is_some()));
        int_gauge_set(&mut self.sfp_present_metric, opt_flag_value(ftth.sfp_present));
    }

    fn set_xdsl_direction(&mut self, direction: &str, stats: &XdslStats)
        requires
            old(self).well_formed(),
        ensures
            final(self).well_formed(),
            final(self).names_of() == old(self).names_of(),
            final(self).is_ftth == old(self).is_ftth,
            final(self).xdsl_stats_maxrate@ == family_put(old(self).xdsl_stats_maxrate@, seq![direction@], opt_i64(stats.maxrate)),
            final(self).xdsl_stats_rate@ == family_put(old(self).xdsl_stats_rate@, seq![direction@], opt_i64(stats.rate)),
            final(self).xdsl_stats_snr@ == family_put(old(self).xdsl_stats_snr@, seq![direction@], opt_i16(stats.snr)),
            final(self).xdsl_stats_attn@ == family_put(old(self).xdsl_stats_attn@, seq![direction@], opt_i16(stats.attn)),
            final(self).xdsl_stats_fec@ == family_put(old(self).xdsl_stats_fec@, seq![direction@], opt_i32(stats.fec)),
            final(self).xdsl_stats_crc@ == family_put(old(self).xdsl_stats_crc@, seq![direction@], opt_i32(stats.crc)),
            final(self).xdsl_stats_hec@ == family_put(old(self).xdsl_stats_hec@, seq![direction@], opt_i32(stats.hec)),
            final(self).xdsl_stats_es@ == family_put(old(self).xdsl_stats_es@, seq![direction@], opt_u32(stats.es)),
            final(self).xdsl_stats_ses@ == family_put(old(self).xdsl_stats_ses@, seq![direction@], opt_i32(stats.ses)),
            final(self).xdsl_stats_rxmt@ == family_put(old(self).xdsl_stats_rxmt@, seq![direction@], opt_i32(stats.rxmt)),
            final(self).xdsl_stats_rxmt_corr@ == family_put(old(self).xdsl_stats_rxmt_corr@, seq![direction@], opt_i32(stats.rxmt_corr)),
            final(self).xdsl_stats_rxmt_uncorr@ == family_put(old(self).xdsl_stats_rxmt_uncorr@, seq![direction@], opt_i32(stats.rxmt_uncorr)),
            final(self).xdsl_stats_rtx_tx@ == family_put(old(self).xdsl_stats_rtx_tx@, seq![direction@], opt_i32(stats.rtx_tx)),
            final(self).xdsl_stats_rtx_c@ == family_put(old(self).xdsl_stats_rtx_c@, seq![direction@], opt_i32(stats.rtx_c)),
            final(self).xdsl_stats_rtx_uc@ == family_put(old(self).xdsl_stats_rtx_uc@, seq![direction@], opt_i32(stats.rtx_uc)),
            final(self).bytes_down_metric == old(self).bytes_down_metric,
            final(self).bytes_up_metric == old(self).bytes_up_metric,
            final(self).rate_down_metric == old(self).rate_down_metric,
            final(self).rate_up_metric == old(self).rate_up_metric,
            final(self).bandwidth_down_metric == old(self).bandwidth_down_metric,
            final(self).bandwidth_up_metric == old(self).bandwidth_up_metric,
            final(self).type_metric == old(self).type_metric,
            final(self).media_metric == old(self).media_metric,
            final(self).state_metric == old(self).state_metric,
            final(self).ipv4_metric == old(self).ipv4_metric,
            final(self).ipv6_metric == old(self).ipv6_metric,
            final(self).ping_metric == old(self).ping_metric,
            final(self).is_secure_pass_metric == old(self).is_secure_pass_metric,
            final(self).remote_access_port_metric == old(self).remote_access_port_metric,
            final(self).remote_access_metric == old(self).remote_access_metric,
            final(self).wol_metric == old(self).wol_metric,
            final(self).adblock_metric == old(self).adblock_metric,
            final(self).adblock_not_set_metric == old(self).adblock_not_set_metric,
            final(self).api_remote_access_metric == old(self).api_remote_access_metric,
            final(self).allow_token_request_metric == old(self).allow_token_request_metric,
            final(self).remote_access_ip_metric == old(self).remote_access_ip_metric,
            final(self).ipv6_enabled_metric == old(self).ipv6_enabled_metric,
            final(self).delegations_metric == old(self).delegations_metric,
            final(self).sfp_has_power_report_metric == old(self).sfp_has_power_report_metric,
            final(self).sfp_has_signal_metric == old(self).sfp_has_signal_metric,
            final(self).sfp_model_metric == old(self).sfp_model_metric,
            final(self).sfp_vendor_metric == old(self).sfp_vendor_metric,
            final(self).sfp_pwr_tx_metric == old(self).sfp_pwr_tx_metric,
            final(self).sfp_pwr_rx_metric == old(self).sfp_pwr_rx_metric,
            final(self).link_metric == old(self).link_metric,
            final(self).sfp_alim_ok_metric == old(self).sfp_alim_ok_metric,
            final(self).sfp_serial_metric == old(self).sfp_serial_metric,
            final(self).sfp_present_metric == old(self).sfp_present_metric,
            final(self).xdsl_status_uptime == old(self).xdsl_status_uptime,
    {
        family_set(&mut self.xdsl_stats_maxrate, &labels1(String::from_str(direction)), opt_i64_value(stats.maxrate));
        family_set(&mut self.xdsl_stats_rate, &labels1(String::from_str(direction)), opt_i64_value(stats.rate));
        family_set(&mut self.xdsl_stats_snr, &labels1(String::from_str(direction)), opt_i16_value(stats.snr));
        family_set(&mut self.xdsl_stats_attn, &labels1(String::from_str(direction)), opt_i16_value(stats.attn));
        family_set(&mut self.xdsl_stats_fec, &labels1(String::from_str(direction)), opt_i32_value(stats.fec));
        family_set(&mut self.xdsl_stats_crc, &labels1(String::from_str(direction)), opt_i32_value(stats.crc));
        family_set(&mut self.xdsl_stats_hec, &labels1(String::from_str(direction)), opt_i32_value(stats.hec));
        family_set(&mut self.xdsl_stats_es, &labels1(String::from_str(direction)), opt_u32_value(stats.es));
        family_set(&mut self.xdsl_stats_ses, &labels1(String::from_str(direction)), opt_i32_value(stats.ses));
        family_set(&mut self.xdsl_stats_rxmt, &labels1(String::from_str(direction)), opt_i32_value(stats.rxmt));
        family_set(&mut self.xdsl_stats_rxmt_corr, &labels1(String::from_str(direction)), opt_i32_value(stats.rxmt_corr));
        family_set(&mut self.xdsl_stats_rxmt_uncorr, &labels1(String::from_str(direction)), opt_i32_value(stats.rxmt_uncorr));
        family_set(&mut self.xdsl_stats_rtx_tx, &labels1(String::from_str(direction)), opt_i32_value(stats.rtx_tx));
        family_set(&mut self.xdsl_stats_rtx_c, &labels1(String::from_str(direction)), opt_i32_value(stats.rtx_c));
        family_set(&mut self.xdsl_stats_rtx_uc, &labels1(String::from_str(direction)), opt_i32_value(stats.rtx_uc));
    }

    /// Writes the xDSL line: one uptime child labelled with status, protocol and
    /// modulation, then the "up" and the "down" child of every statistics family.
    pub fn set_xdsl_status(&mut self, info: &XdslInfo)
        requires
            old(self).well_formed(),
            info.status is Some,
            info.up is Some,
            info.down is Some,
        ensures
            final(self).well_formed(),
            final(self).names_of() == old(self).names_of(),
            final(self).is_ftth == old(self).is_ftth,
            final(self).xdsl_status_uptime@ == family_put(old(self).xdsl_status_uptime@,
                seq![opt_text(info.status.unwrap().status), opt_text(info.status.unwrap().protocol), opt_text(info.status.unwrap().modulation)],
                opt_u32(info.status.unwrap().uptime)),
            final(self).xdsl_stats_maxrate@ == put_directions(old(self).xdsl_stats_maxrate@, opt_i64(info.up.unwrap().maxrate), opt_i64(info.down.unwrap().maxrate)),
            final(self).xdsl_stats_rate@ == put_directions(old(self).xdsl_stats_rate@, opt_i64(info.up.unwrap().rate), opt_i64(info.down.unwrap().rate)),
            final(self).xdsl_stats_snr@ == put_directions(old(self).xdsl_stats_snr@, opt_i16(info.up.unwrap().snr), opt_i16(info.down.unwrap().snr)),
            final(self).xdsl_stats_attn@ == put_directions(old(self).xdsl_stats_attn@, opt_i16(info.up.unwrap().attn), opt_i16(info.down.unwrap().attn)),
            final(self).xdsl_stats_fec@ == put_directions(old(self).xdsl_stats_fec@, opt_i32(info.up.unwrap().fec), opt_i32(info.down.unwrap().fec)),
            final(self).xdsl_stats_crc@ == put_directions(old(self).xdsl_stats_crc@, opt_i32(info.up.unwrap().crc), opt_i32(info.down.unwrap().crc)),
            final(self).xdsl_stats_hec@ == put_directions(old(self).xdsl_stats_hec@, opt_i32(info.up.unwrap().hec), opt_i32(info.down.unwrap().hec)),
            final(self).xdsl_stats_es@ == put_directions(old(self).xdsl_stats_es@, opt_u32(info.up.unwrap().es), opt_u32(info.down.unwrap().es)),
            final(self).xdsl_stats_ses@ == put_directions(old(self).xdsl_stats_ses@, opt_i32(info.up.unwrap().ses), opt_i32(info.down.unwrap().ses)),
            final(self).xdsl_stats_rxmt@ == put_directions(old(self).xdsl_stats_rxmt@, opt_i32(info.up.unwrap().rxmt), opt_i32(info.down.unwrap().rxmt)),
            final(self).xdsl_stats_rxmt_corr@ == put_directions(old(self).xdsl_stats_rxmt_corr@, opt_i32(info.up.unwrap().rxmt_corr), opt_i32(info.down.unwrap().rxmt_corr)),
            final(self).xdsl_stats_rxmt_uncorr@ == put_directions(old(self).xdsl_stats_rxmt_uncorr@, opt_i32(info.up.unwrap().rxmt_uncorr), opt_i32(info.down.unwrap().rxmt_uncorr)),
            final(self).xdsl_stats_rtx_tx@ == put_directions(old(self).xdsl_stats_rtx_tx@, opt_i32(info.up.unwrap().rtx_tx), opt_i32(info.down.unwrap().rtx_tx)),
            final(self).xdsl_stats_rtx_c@ == put_directions(old(self).xdsl_stats_rtx_c@, opt_i32(info.up.unwrap().rtx_c), opt_i32(info.down.unwrap().rtx_c)),
            final(self).xdsl_stats_rtx_uc@ == put_directions(old(self).xdsl_stats_rtx_uc@, opt_i32(info.up.unwrap().rtx_uc), opt_i32(info.down.unwrap().rtx_uc)),
            final(self).bytes_down_metric == old(self).bytes_down_metric,
            final(self).bytes_up_metric == old(self).bytes_up_metric,
            final(self).rate_down_metric == old(self).rate_down_metric,
            final(self).rate_up_metric == old(self).rate_up_metric,
            final(self).bandwidth_down_metric == old(self).bandwidth_down_metric,
            final(self).bandwidth_up_metric == old(self).bandwidth_up_metric,
            final(self).type_metric == old(self).type_metric,
            final(self).media_metric == old(self).media_metric,
            final(self).state_metric == old(self).state_metric,
            final(self).ipv4_metric == old(self).ipv4_metric,
            final(self).ipv6_metric == old(self).ipv6_metric,
            final(self).ping_metric == old(self).ping_metric,
            final(self).is_secure_pass_metric == old(self).is_secure_pass_metric,
            final(self).remote_access_port_metric == old(self).remote_access_port_metric,
            final(self).remote_access_metric == old(self).remote_access_metric,
            final(self).wol_metric == old(self).wol_metric,
            final(self).adblock_metric == old(self).adblock_metric,
            final(self).adblock_not_set_metric == old(self).adblock_not_set_metric,
            final(self).api_remote_access_metric == old(self).api_remote_access_metric,
            final(self).allow_token_request_metric == old(self).allow_token_request_metric,
            final(self).remote_access_ip_metric == old(self).remote_access_ip_metric,
            final(self).ipv6_enabled_metric == old(self).ipv6_enabled_metric,
            final(self).delegations_metric == old(self).delegations_metric,
            final(self).sfp_has_power_report_metric == old(self).sfp_has_power_report_metric,
            final(self).sfp_has_signal_metric == old(self).sfp_has_signal_metric,
            final(self).sfp_model_metric == old(self).sfp_model_metric,
            final(self).sfp_vendor_metric == old(self).sfp_vendor_metric,
            final(self).sfp_pwr_tx_metric == old(self).sfp_pwr_tx_metric,
            final(self).sfp_pwr_rx_metric == old(self).sfp_pwr_rx_metric,
            final(self).link_metric == old(self).link_metric,
            final(self).sfp_alim_ok_metric == old(self).sfp_alim_ok_metric,
            final(self).sfp_serial_metric == old(self).sfp_serial_metric,
            final(self).sfp_present_metric == old(self).sfp_present_metric,
    {
        let status = info.status.as_ref().unwrap();
        family_set(&mut self.xdsl_status_uptime,
            &labels3(text_or_default(&status.status), text_or_default(&status.protocol), text_or_default(&status.modulation)),
            opt_u32_value(status.uptime));
        let up = info.up.as_ref().unwrap();
        let down = info.down.as_ref().unwrap();
        self.set_xdsl_direction("up", up);
        self.set_xdsl_direction("down", down);
    }
}

}
