//! Metrics of the Ethernet switch (`v4/switch/status/` and `v4/switch/port/{id}/stats`).
use super::{flag, flag_value, labels1, labels3, opt_i16, opt_i16_value, opt_i64, opt_i64_value, opt_text, opt_text_or, text_or, text_or_default};
use crate::gauge::{
    family_value, label_key,
    family_args_accepted, lemma_prefixed_name_valid, valid_label_name, valid_prefix,
    family_help, family_label_names,
    label_view, family_arity, family_name, family_put, family_reset, family_set, int_gauge_name, int_gauge_set,
    make_family, make_int_gauge, FamilyEntries, Gauge, gauge_error_name, GaugeError, GaugeFamily,
};
use crate::text::{concat, i64_to_decimal, int_to_decimal, lemma_decimal_round_trip, parse_i64, spec_parse_i64, str_eq};
use crate::transport::{expect_result, succeeded, FreeboxResponse, FreeboxResponseError};
use vstd::prelude::*;

verus! {

/// The state of one switch port.
#[derive(Clone, Debug)]
pub struct SwitchPortStatus {
    pub id: Option<i16>,
    pub link: Option<String>,
    pub speed: Option<String>,
    pub mac_list: Option<Vec<SwitchPortHost>>,
}

/// The traffic counters of one switch port.
#[derive(Clone, Debug)]
pub struct SwitchPortStats {
    pub rx_packets_rate: Option<i64>,
    pub rx_good_bytes: Option<i64>,
    pub rx_oversize_packets: Option<i64>,
    pub rx_unicast_packets: Option<i64>,
    pub tx_bytes_rate: Option<i64>,
    pub tx_unicast_packets: Option<i64>,
    pub rx_bytes_rate: Option<i64>,
    pub tx_packets: Option<i64>,
    pub tx_collisions: Option<i64>,
    pub tx_packets_rate: Option<i64>,
    pub tx_fcs: Option<i64>,
    pub tx_bytes: Option<i64>,
    pub rx_jabber_packets: Option<i64>,
    pub tx_single: Option<i64>,
    pub tx_excessive: Option<i64>,
    pub rx_pause: Option<i64>,
    pub rx_multicast_packets: Option<i64>,
    pub tx_pause: Option<i64>,
    pub rx_good_packets: Option<i64>,
    pub rx_broadcast_packets: Option<i64>,
    pub tx_multiple: Option<i64>,
    pub tx_deferred: Option<i64>,
    pub tx_late: Option<i64>,
    pub tx_multicast_packets: Option<i64>,
    pub rx_fcs_packets: Option<i64>,
    pub tx_broadcast_packets: Option<i64>,
    pub rx_err_packets: Option<i64>,
    pub rx_fragments_packets: Option<i64>,
    pub rx_bad_bytes: Option<i64>,
    pub rx_undersize_packets: Option<i64>,
}

/// A host seen behind a switch port.
#[derive(Clone, Debug)]
pub struct SwitchPortHost {
    pub mac: Option<String>,
    pub hostname: Option<String>,
}

/// The label of a port: its number in decimal (0 when not reported).
pub open spec fn port_label(p: SwitchPortStatus) -> Seq<char> {
    int_to_decimal(opt_i16(p.id) as int)
}

/// The speed of a port: its reported speed (or "0") read as an integer, 0 when it does not read.
pub open spec fn port_speed(p: SwitchPortStatus) -> i64 {
    match spec_parse_i64(opt_text_or(p.speed, "0"@)) {
        Some(v) => v,
        None => 0,
    }
}

/// The hosts of a port, none when absent.
pub open spec fn port_hosts(p: SwitchPortStatus) -> Seq<SwitchPortHost> {
    match p.mac_list {
        Some(v) => v@,
        None => Seq::empty(),
    }
}

/// The host family after one child at 1 per host of a port.
pub open spec fn put_hosts(m: FamilyEntries, port: Seq<char>, hosts: Seq<SwitchPortHost>) -> FamilyEntries
    decreases hosts.len(),
{
    if hosts.len() == 0 {
        m
    } else {
        family_put(put_hosts(m, port, hosts.drop_last()), seq![port, opt_text(hosts.last().mac), opt_text(hosts.last().hostname)], 1)
    }
}

/// A family after one child per port, in order: the child of a port is set to `f` of
/// the port and its counters.
pub open spec fn put_ports(
    m: FamilyEntries,
    ports: Seq<SwitchPortStatus>,
    stats: Seq<SwitchPortStats>,
    f: spec_fn(SwitchPortStatus, SwitchPortStats) -> i64,
) -> FamilyEntries
    decreases ports.len(),
{
    if ports.len() == 0 || stats.len() == 0 {
        m
    } else {
        family_put(put_ports(m, ports.drop_last(), stats.drop_last(), f), seq![port_label(ports.last())], f(ports.last(), stats.last()))
    }
}

/// The host family after the hosts of each port, in order.
pub open spec fn put_ports_hosts(m: FamilyEntries, ports: Seq<SwitchPortStatus>) -> FamilyEntries
    decreases ports.len(),
{
    if ports.len() == 0 {
        m
    } else {
        put_hosts(put_ports_hosts(m, ports.drop_last()), port_label(ports.last()), port_hosts(ports.last()))
    }
}

/// Setting ports one after another leaves, for each port whose label no later port
/// shares a key with, the value picked for that port.
proof fn lemma_put_ports_keeps_last_write(
    m: FamilyEntries,
    ports: Seq<SwitchPortStatus>,
    stats: Seq<SwitchPortStats>,
    f: spec_fn(SwitchPortStatus, SwitchPortStats) -> i64,
    i: int,
)
    requires
        ports.len() == stats.len(),
        0 <= i < ports.len(),
        forall|j: int| i < j < ports.len() ==> label_key(seq![port_label(#[trigger] ports[j])]) != label_key(seq![port_label(ports[i])]),
    ensures
        family_value(put_ports(m, ports, stats, f), seq![port_label(ports[i])]) == Some(f(ports[i], stats[i])),
    decreases ports.len(),
{
    if i < ports.len() - 1 {
        let tp = ports.drop_last();
        let ts = stats.drop_last();
        assert forall|j: int| i < j < tp.len() implies label_key(seq![port_label(#[trigger] tp[j])]) != label_key(seq![port_label(tp[i])]) by {
            assert(tp[j] == ports[j]);
        }
        lemma_put_ports_keeps_last_write(m, tp, ts, f, i);
        assert(tp[i] == ports[i]);
        assert(ts[i] == stats[i]);
    }
}

/// After a whole refresh, each port whose label no later port shares a key with shows
/// its own counters (0 when absent), 1 for its link exactly when the link is "up", and
/// its speed.
pub proof fn lemma_refresh_shows_each_port(m: SwitchMetricMap, ports: Seq<SwitchPortStatus>, stats: Seq<SwitchPortStats>, i: int)
    requires
        m.shows_ports(ports, stats),
        ports.len() == stats.len(),
        0 <= i < ports.len(),
        forall|j: int| i < j < ports.len() ==> label_key(seq![port_label(#[trigger] ports[j])]) != label_key(seq![port_label(ports[i])]),
    ensures
        family_value(m.rx_packets_rate_gauge@, seq![port_label(ports[i])]) == Some(match stats[i].rx_packets_rate { Some(v) => v, None => 0i64 }),
        family_value(m.rx_good_bytes_gauge@, seq![port_label(ports[i])]) == Some(match stats[i].rx_good_bytes { Some(v) => v, None => 0i64 }),
        family_value(m.rx_oversize_packets_gauge@, seq![port_label(ports[i])]) == Some(match stats[i].rx_oversize_packets { Some(v) => v, None => 0i64 }),
        family_value(m.rx_unicast_packets_gauge@, seq![port_label(ports[i])]) == Some(match stats[i].rx_unicast_packets { Some(v) => v, None => 0i64 }),
        family_value(m.tx_bytes_rate_gauge@, seq![port_label(ports[i])]) == Some(match stats[i].tx_bytes_rate { Some(v) => v, None => 0i64 }),
        family_value(m.tx_unicast_packets_gauge@, seq![port_label(ports[i])]) == Some(match stats[i].tx_unicast_packets { Some(v) => v, None => 0i64 }),
        family_value(m.rx_bytes_rate_gauge@, seq![port_label(ports[i])]) == Some(match stats[i].rx_bytes_rate { Some(v) => v, None => 0i64 }),
        family_value(m.tx_packets_gauge@, seq![port_label(ports[i])]) == Some(match stats[i].tx_packets { Some(v) => v, None => 0i64 }),
        family_value(m.tx_collisions_gauge@, seq![port_label(ports[i])]) == Some(match stats[i].tx_collisions { Some(v) => v, None => 0i64 }),
        family_value(m.tx_packets_rate_gauge@, seq![port_label(ports[i])]) == Some(match stats[i].tx_packets_rate { Some(v) => v, None => 0i64 }),
        family_value(m.tx_fcs_gauge@, seq![port_label(ports[i])]) == Some(match stats[i].tx_fcs { Some(v) => v, None => 0i64 }),
        family_value(m.tx_bytes_gauge@, seq![port_label(ports[i])]) == Some(match stats[i].tx_bytes { Some(v) => v, None => 0i64 }),
        family_value(m.rx_jabber_packets_gauge@, seq![port_label(ports[i])]) == Some(match stats[i].rx_jabber_packets { Some(v) => v, None => 0i64 }),
        family_value(m.tx_single_gauge@, seq![port_label(ports[i])]) == Some(match stats[i].tx_single { Some(v) => v, None => 0i64 }),
        family_value(m.tx_excessive_gauge@, seq![port_label(ports[i])]) == Some(match stats[i].tx_excessive { Some(v) => v, None => 0i64 }),
        family_value(m.rx_pause_gauge@, seq![port_label(ports[i])]) == Some(match stats[i].rx_pause { Some(v) => v, None => 0i64 }),
        family_value(m.rx_multicast_packets_gauge@, seq![port_label(ports[i])]) == Some(match stats[i].rx_multicast_packets { Some(v) => v, None => 0i64 }),
        family_value(m.tx_pause_gauge@, seq![port_label(ports[i])]) == Some(match stats[i].tx_pause { Some(v) => v, None => 0i64 }),
        family_value(m.rx_good_packets_gauge@, seq![port_label(ports[i])]) == Some(match stats[i].rx_good_packets { Some(v) => v, None => 0i64 }),
        family_value(m.rx_broadcast_packets_gauge@, seq![port_label(ports[i])]) == Some(match stats[i].rx_broadcast_packets { Some(v) => v, None => 0i64 }),
        family_value(m.tx_multiple_gauge@, seq![port_label(ports[i])]) == Some(match stats[i].tx_multiple { Some(v) => v, None => 0i64 }),
        family_value(m.tx_deferred_gauge@, seq![port_label(ports[i])]) == Some(match stats[i].tx_deferred { Some(v) => v, None => 0i64 }),
        family_value(m.tx_late_gauge@, seq![port_label(ports[i])]) == Some(match stats[i].tx_late { Some(v) => v, None => 0i64 }),
        family_value(m.tx_multicast_packets_gauge@, seq![port_label(ports[i])]) == Some(match stats[i].tx_multicast_packets { Some(v) => v, None => 0i64 }),
        family_value(m.rx_fcs_packets_gauge@, seq![port_label(ports[i])]) == Some(match stats[i].rx_fcs_packets { Some(v) => v, None => 0i64 }),
        family_value(m.tx_broadcast_packets_gauge@, seq![port_label(ports[i])]) == Some(match stats[i].tx_broadcast_packets { Some(v) => v, None => 0i64 }),
        family_value(m.rx_err_packets_gauge@, seq![port_label(ports[i])]) == Some(match stats[i].rx_err_packets { Some(v) => v, None => 0i64 }),
        family_value(m.rx_fragments_packets_gauge@, seq![port_label(ports[i])]) == Some(match stats[i].rx_fragments_packets { Some(v) => v, None => 0i64 }),
        family_value(m.rx_bad_bytes_gauge@, seq![port_label(ports[i])]) == Some(match stats[i].rx_bad_bytes { Some(v) => v, None => 0i64 }),
        family_value(m.rx_undersize_packets_gauge@, seq![port_label(ports[i])]) == Some(match stats[i].rx_undersize_packets { Some(v) => v, None => 0i64 }),
        family_value(m.port_status_gauge@, seq![port_label(ports[i])]) == Some(if (match ports[i].link { Some(t) => t@ == "up"@, None => false }) { 1i64 } else { 0i64 }),
        family_value(m.port_speed_gauge@, seq![port_label(ports[i])]) == Some(port_speed(ports[i])),
{
    reveal_strlit("up");
    lemma_put_ports_keeps_last_write(FamilyEntries::empty(), ports, stats, |p: SwitchPortStatus, s: SwitchPortStats| opt_i64(s.rx_packets_rate), i);
    lemma_put_ports_keeps_last_write(FamilyEntries::empty(), ports, stats, |p: SwitchPortStatus, s: SwitchPortStats| opt_i64(s.rx_good_bytes), i);
    lemma_put_ports_keeps_last_write(FamilyEntries::empty(), ports, stats, |p: SwitchPortStatus, s: SwitchPortStats| opt_i64(s.rx_oversize_packets), i);
    lemma_put_ports_keeps_last_write(FamilyEntries::empty(), ports, stats, |p: SwitchPortStatus, s: SwitchPortStats| opt_i64(s.rx_unicast_packets), i);
    lemma_put_ports_keeps_last_write(FamilyEntries::empty(), ports, stats, |p: SwitchPortStatus, s: SwitchPortStats| opt_i64(s.tx_bytes_rate), i);
    lemma_put_ports_keeps_last_write(FamilyEntries::empty(), ports, stats, |p: SwitchPortStatus, s: SwitchPortStats| opt_i64(s.tx_unicast_packets), i);
    lemma_put_ports_keeps_last_write(FamilyEntries::empty(), ports, stats, |p: SwitchPortStatus, s: SwitchPortStats| opt_i64(s.rx_bytes_rate), i);
    lemma_put_ports_keeps_last_write(FamilyEntries::empty(), ports, stats, |p: SwitchPortStatus, s: SwitchPortStats| opt_i64(s.tx_packets), i);
    lemma_put_ports_keeps_last_write(FamilyEntries::empty(), ports, stats, |p: SwitchPortStatus, s: SwitchPortStats| opt_i64(s.tx_collisions), i);
    lemma_put_ports_keeps_last_write(FamilyEntries::empty(), ports, stats, |p: SwitchPortStatus, s: SwitchPortStats| opt_i64(s.tx_packets_rate), i);
    lemma_put_ports_keeps_last_write(FamilyEntries::empty(), ports, stats, |p: SwitchPortStatus, s: SwitchPortStats| opt_i64(s.tx_fcs), i);
    lemma_put_ports_keeps_last_write(FamilyEntries::empty(), ports, stats, |p: SwitchPortStatus, s: SwitchPortStats| opt_i64(s.tx_bytes), i);
    lemma_put_ports_keeps_last_write(FamilyEntries::empty(), ports, stats, |p: SwitchPortStatus, s: SwitchPortStats| opt_i64(s.rx_jabber_packets), i);
    lemma_put_ports_keeps_last_write(FamilyEntries::empty(), ports, stats, |p: SwitchPortStatus, s: SwitchPortStats| opt_i64(s.tx_single), i);
    lemma_put_ports_keeps_last_write(FamilyEntries::empty(), ports, stats, |p: SwitchPortStatus, s: SwitchPortStats| opt_i64(s.tx_excessive), i);
    lemma_put_ports_keeps_last_write(FamilyEntries::empty(), ports, stats, |p: SwitchPortStatus, s: SwitchPortStats| opt_i64(s.rx_pause), i);
    lemma_put_ports_keeps_last_write(FamilyEntries::empty(), ports, stats, |p: SwitchPortStatus, s: SwitchPortStats| opt_i64(s.rx_multicast_packets), i);
    lemma_put_ports_keeps_last_write(FamilyEntries::empty(), ports, stats, |p: SwitchPortStatus, s: SwitchPortStats| opt_i64(s.tx_pause), i);
    lemma_put_ports_keeps_last_write(FamilyEntries::empty(), ports, stats, |p: SwitchPortStatus, s: SwitchPortStats| opt_i64(s.rx_good_packets), i);
    lemma_put_ports_keeps_last_write(FamilyEntries::empty(), ports, stats, |p: SwitchPortStatus, s: SwitchPortStats| opt_i64(s.rx_broadcast_packets), i);
    lemma_put_ports_keeps_last_write(FamilyEntries::empty(), ports, stats, |p: SwitchPortStatus, s: SwitchPortStats| opt_i64(s.tx_multiple), i);
    lemma_put_ports_keeps_last_write(FamilyEntries::empty(), ports, stats, |p: SwitchPortStatus, s: SwitchPortStats| opt_i64(s.tx_deferred), i);
    lemma_put_ports_keeps_last_write(FamilyEntries::empty(), ports, stats, |p: SwitchPortStatus, s: SwitchPortStats| opt_i64(s.tx_late), i);
    lemma_put_ports_keeps_last_write(FamilyEntries::empty(), ports, stats, |p: SwitchPortStatus, s: SwitchPortStats| opt_i64(s.tx_multicast_packets), i);
    lemma_put_ports_keeps_last_write(FamilyEntries::empty(), ports, stats, |p: SwitchPortStatus, s: SwitchPortStats| opt_i64(s.rx_fcs_packets), i);
    lemma_put_ports_keeps_last_write(FamilyEntries::empty(), ports, stats, |p: SwitchPortStatus, s: SwitchPortStats| opt_i64(s.tx_broadcast_packets), i);
    lemma_put_ports_keeps_last_write(FamilyEntries::empty(), ports, stats, |p: SwitchPortStatus, s: SwitchPortStats| opt_i64(s.rx_err_packets), i);
    lemma_put_ports_keeps_last_write(FamilyEntries::empty(), ports, stats, |p: SwitchPortStatus, s: SwitchPortStats| opt_i64(s.rx_fragments_packets), i);
    lemma_put_ports_keeps_last_write(FamilyEntries::empty(), ports, stats, |p: SwitchPortStatus, s: SwitchPortStats| opt_i64(s.rx_bad_bytes), i);
    lemma_put_ports_keeps_last_write(FamilyEntries::empty(), ports, stats, |p: SwitchPortStatus, s: SwitchPortStats| opt_i64(s.rx_undersize_packets), i);
    lemma_put_ports_keeps_last_write(FamilyEntries::empty(), ports, stats, |p: SwitchPortStatus, s: SwitchPortStats| flag(opt_text(p.link) == "up"@), i);
    lemma_put_ports_keeps_last_write(FamilyEntries::empty(), ports, stats, |p: SwitchPortStatus, s: SwitchPortStats| port_speed(p), i);
}

/// A port's speed is the number its speed text writes in decimal; a port that reports
/// no speed shows 0.
pub proof fn lemma_port_speed(p: SwitchPortStatus, v: i64)
    ensures
        (p.speed matches Some(t) && t@ == int_to_decimal(v as int)) ==> port_speed(p) == v,
        p.speed is None ==> port_speed(p) == 0,
{
    lemma_decimal_round_trip(v);
    lemma_decimal_round_trip(0);
    reveal_strlit("0");
    assert(int_to_decimal(0) =~= "0"@);
}

fn put_port_hosts(f: &mut GaugeFamily, port: &String, p: &SwitchPortStatus)
    requires
        family_arity(*old(f)) == 3,
    ensures
        family_arity(*final(f)) == 3,
        family_name(*final(f)) == family_name(*old(f)),
        final(f)@ == put_hosts(old(f)@, port@, port_hosts(*p)),
{
    if let Some(v) = &p.mac_list {
        let mut i: usize = 0;
        while i < v.len()
            invariant
                i <= v.len(),
                family_arity(*f) == 3,
                family_name(*f) == family_name(*old(f)),
                f@ == put_hosts(old(f)@, port@, v@.take(i as int)),
            decreases v.len() - i,
        {
            let host = &v[i];
            assert(v@.take(i as int + 1).drop_last() =~= v@.take(i as int));
            family_set(f, &labels3(port.clone(), text_or_default(&host.mac), text_or_default(&host.hostname)), 1);
            i = i + 1;
        }
        assert(v@.take(v.len() as int) =~= v@);
    }
}

/// Gauges of the switch; every family has one child per port.
pub struct SwitchMetricMap {
    pub rx_packets_rate_gauge: GaugeFamily,
    pub rx_good_bytes_gauge: GaugeFamily,
    pub rx_oversize_packets_gauge: GaugeFamily,
    pub rx_unicast_packets_gauge: GaugeFamily,
    pub tx_bytes_rate_gauge: GaugeFamily,
    pub tx_unicast_packets_gauge: GaugeFamily,
    pub rx_bytes_rate_gauge: GaugeFamily,
    pub tx_packets_gauge: GaugeFamily,
    pub tx_collisions_gauge: GaugeFamily,
    pub tx_packets_rate_gauge: GaugeFamily,
    pub tx_fcs_gauge: GaugeFamily,
    pub tx_bytes_gauge: GaugeFamily,
    pub rx_jabber_packets_gauge: GaugeFamily,
    pub tx_single_gauge: GaugeFamily,
    pub tx_excessive_gauge: GaugeFamily,
    pub rx_pause_gauge: GaugeFamily,
    pub rx_multicast_packets_gauge: GaugeFamily,
    pub tx_pause_gauge: GaugeFamily,
    pub rx_good_packets_gauge: GaugeFamily,
    pub rx_broadcast_packets_gauge: GaugeFamily,
    pub tx_multiple_gauge: GaugeFamily,
    pub tx_deferred_gauge: GaugeFamily,
    pub tx_late_gauge: GaugeFamily,
    pub tx_multicast_packets_gauge: GaugeFamily,
    pub rx_fcs_packets_gauge: GaugeFamily,
    pub tx_broadcast_packets_gauge: GaugeFamily,
    pub rx_err_packets_gauge: GaugeFamily,
    pub rx_fragments_packets_gauge: GaugeFamily,
    pub rx_bad_bytes_gauge: GaugeFamily,
    pub rx_undersize_packets_gauge: GaugeFamily,
    pub port_status_gauge: GaugeFamily,
    pub port_speed_gauge: GaugeFamily,
    pub port_mac_list_gauge: GaugeFamily,
}

impl SwitchMetricMap {
    /// Every family takes as many label values as it was made with label names.
    pub open spec fn well_formed(&self) -> bool {
        &&& family_arity(self.rx_packets_rate_gauge) == 1
        &&& family_arity(self.rx_good_bytes_gauge) == 1
        &&& family_arity(self.rx_oversize_packets_gauge) == 1
        &&& family_arity(self.rx_unicast_packets_gauge) == 1
        &&& family_arity(self.tx_bytes_rate_gauge) == 1
        &&& family_arity(self.tx_unicast_packets_gauge) == 1
        &&& family_arity(self.rx_bytes_rate_gauge) == 1
        &&& family_arity(self.tx_packets_gauge) == 1
        &&& family_arity(self.tx_collisions_gauge) == 1
        &&& family_arity(self.tx_packets_rate_gauge) == 1
        &&& family_arity(self.tx_fcs_gauge) == 1
        &&& family_arity(self.tx_bytes_gauge) == 1
        &&& family_arity(self.rx_jabber_packets_gauge) == 1
        &&& family_arity(self.tx_single_gauge) == 1
        &&& family_arity(self.tx_excessive_gauge) == 1
        &&& family_arity(self.rx_pause_gauge) == 1
        &&& family_arity(self.rx_multicast_packets_gauge) == 1
        &&& family_arity(self.tx_pause_gauge) == 1
        &&& family_arity(self.rx_good_packets_gauge) == 1
        &&& family_arity(self.rx_broadcast_packets_gauge) == 1
        &&& family_arity(self.tx_multiple_gauge) == 1
        &&& family_arity(self.tx_deferred_gauge) == 1
        &&& family_arity(self.tx_late_gauge) == 1
        &&& family_arity(self.tx_multicast_packets_gauge) == 1
        &&& family_arity(self.rx_fcs_packets_gauge) == 1
        &&& family_arity(self.tx_broadcast_packets_gauge) == 1
        &&& family_arity(self.rx_err_packets_gauge) == 1
        &&& family_arity(self.rx_fragments_packets_gauge) == 1
        &&& family_arity(self.rx_bad_bytes_gauge) == 1
        &&& family_arity(self.rx_undersize_packets_gauge) == 1
        &&& family_arity(self.port_status_gauge) == 1
        &&& family_arity(self.port_speed_gauge) == 1
        &&& family_arity(self.port_mac_list_gauge) == 3
    }

    /// No family has a child and every single gauge is at 0.
    pub open spec fn is_cleared(&self) -> bool {
        &&& self.rx_packets_rate_gauge@ == FamilyEntries::empty()
        &&& self.rx_good_bytes_gauge@ == FamilyEntries::empty()
        &&& self.rx_oversize_packets_gauge@ == FamilyEntries::empty()
        &&& self.rx_unicast_packets_gauge@ == FamilyEntries::empty()
        &&& self.tx_bytes_rate_gauge@ == FamilyEntries::empty()
        &&& self.tx_unicast_packets_gauge@ == FamilyEntries::empty()
        &&& self.rx_bytes_rate_gauge@ == FamilyEntries::empty()
        &&& self.tx_packets_gauge@ == FamilyEntries::empty()
        &&& self.tx_collisions_gauge@ == FamilyEntries::empty()
        &&& self.tx_packets_rate_gauge@ == FamilyEntries::empty()
        &&& self.tx_fcs_gauge@ == FamilyEntries::empty()
        &&& self.tx_bytes_gauge@ == FamilyEntries::empty()
        &&& self.rx_jabber_packets_gauge@ == FamilyEntries::empty()
        &&& self.tx_single_gauge@ == FamilyEntries::empty()
        &&& self.tx_excessive_gauge@ == FamilyEntries::empty()
        &&& self.rx_pause_gauge@ == FamilyEntries::empty()
        &&& self.rx_multicast_packets_gauge@ == FamilyEntries::empty()
        &&& self.tx_pause_gauge@ == FamilyEntries::empty()
        &&& self.rx_good_packets_gauge@ == FamilyEntries::empty()
        &&& self.rx_broadcast_packets_gauge@ == FamilyEntries::empty()
        &&& self.tx_multiple_gauge@ == FamilyEntries::empty()
        &&& self.tx_deferred_gauge@ == FamilyEntries::empty()
        &&& self.tx_late_gauge@ == FamilyEntries::empty()
        &&& self.tx_multicast_packets_gauge@ == FamilyEntries::empty()
        &&& self.rx_fcs_packets_gauge@ == FamilyEntries::empty()
        &&& self.tx_broadcast_packets_gauge@ == FamilyEntries::empty()
        &&& self.rx_err_packets_gauge@ == FamilyEntries::empty()
        &&& self.rx_fragments_packets_gauge@ == FamilyEntries::empty()
        &&& self.rx_bad_bytes_gauge@ == FamilyEntries::empty()
        &&& self.rx_undersize_packets_gauge@ == FamilyEntries::empty()
        &&& self.port_status_gauge@ == FamilyEntries::empty()
        &&& self.port_speed_gauge@ == FamilyEntries::empty()
        &&& self.port_mac_list_gauge@ == FamilyEntries::empty()
    }

    /// The metric names, help texts and label names the gauges were made with.
    pub open spec fn named(&self, prefix: Seq<char>) -> bool {
        &&& family_name(self.rx_packets_rate_gauge) == prefix + "_switch_stats_rx_packets_rate"@
        &&& family_name(self.rx_good_bytes_gauge) == prefix + "_switch_stats_rx_good_bytes"@
        &&& family_name(self.rx_oversize_packets_gauge) == prefix + "_switch_stats_rx_oversize_packets"@
        &&& family_name(self.rx_unicast_packets_gauge) == prefix + "_switch_stats_rx_unicast_packets"@
        &&& family_name(self.tx_bytes_rate_gauge) == prefix + "_switch_stats_tx_bytes_rate"@
        &&& family_name(self.tx_unicast_packets_gauge) == prefix + "_switch_stats_tx_unicast_packets"@
        &&& family_name(self.rx_bytes_rate_gauge) == prefix + "_switch_stats_rx_bytes_rate"@
        &&& family_name(self.tx_packets_gauge) == prefix + "_switch_stats_tx_packets"@
        &&& family_name(self.tx_collisions_gauge) == prefix + "_switch_stats_tx_collisions"@
        &&& family_name(self.tx_packets_rate_gauge) == prefix + "_switch_stats_tx_packets_rate"@
        &&& family_name(self.tx_fcs_gauge) == prefix + "_switch_stats_tx_fcs"@
        &&& family_name(self.tx_bytes_gauge) == prefix + "_switch_stats_tx_bytes"@
        &&& family_name(self.rx_jabber_packets_gauge) == prefix + "_switch_stats_rx_jabber_packets"@
        &&& family_name(self.tx_single_gauge) == prefix + "_switch_stats_tx_single"@
        &&& family_name(self.tx_excessive_gauge) == prefix + "_switch_stats_tx_excessive"@
        &&& family_name(self.rx_pause_gauge) == prefix + "_switch_stats_rx_pause"@
        &&& family_name(self.rx_multicast_packets_gauge) == prefix + "_switch_stats_rx_multicast_packets"@
        &&& family_name(self.tx_pause_gauge) == prefix + "_switch_stats_tx_pause"@
        &&& family_name(self.rx_good_packets_gauge) == prefix + "_switch_stats_rx_good_packets"@
        &&& family_name(self.rx_broadcast_packets_gauge) == prefix + "_switch_stats_rx_broadcast_packets"@
        &&& family_name(self.tx_multiple_gauge) == prefix + "_switch_stats_tx_multiple"@
        &&& family_name(self.tx_deferred_gauge) == prefix + "_switch_stats_tx_deferred"@
        &&& family_name(self.tx_late_gauge) == prefix + "_switch_stats_tx_late"@
        &&& family_name(self.tx_multicast_packets_gauge) == prefix + "_switch_stats_tx_multicast_packets"@
        &&& family_name(self.rx_fcs_packets_gauge) == prefix + "_switch_stats_rx_fcs_packets"@
        &&& family_name(self.tx_broadcast_packets_gauge) == prefix + "_switch_stats_tx_broadcast_packets"@
        &&& family_name(self.rx_err_packets_gauge) == prefix + "_switch_stats_rx_err_packets"@
        &&& family_name(self.rx_fragments_packets_gauge) == prefix + "_switch_stats_rx_fragments_packets"@
        &&& family_name(self.rx_bad_bytes_gauge) == prefix + "_switch_stats_rx_bad_bytes"@
        &&& family_name(self.rx_undersize_packets_gauge) == prefix + "_switch_stats_rx_undersize_packets"@
        &&& family_name(self.port_status_gauge) == prefix + "_switch_port_status"@
        &&& family_name(self.port_speed_gauge) == prefix + "_switch_port_speed"@
        &&& family_name(self.port_mac_list_gauge) == prefix + "_switch_port_mac_list"@
        &&& family_help(self.rx_packets_rate_gauge) == "rx packet rate"@
        &&& family_label_names(self.rx_packets_rate_gauge) == seq!["port"@]
        &&& family_help(self.rx_good_bytes_gauge) == "rx good bytes"@
        &&& family_label_names(self.rx_good_bytes_gauge) == seq!["port"@]
        &&& family_help(self.rx_oversize_packets_gauge) == "rx oversize packets"@
        &&& family_label_names(self.rx_oversize_packets_gauge) == seq!["port"@]
        &&& family_help(self.rx_unicast_packets_gauge) == "rx unicast packets"@
        &&& family_label_names(self.rx_unicast_packets_gauge) == seq!["port"@]
        &&& family_help(self.tx_bytes_rate_gauge) == "tx bytes rate"@
        &&& family_label_names(self.tx_bytes_rate_gauge) == seq!["port"@]
        &&& family_help(self.tx_unicast_packets_gauge) == "tx unicast packets"@
        &&& family_label_names(self.tx_unicast_packets_gauge) == seq!["port"@]
        &&& family_help(self.rx_bytes_rate_gauge) == "rx bytes rate"@
        &&& family_label_names(self.rx_bytes_rate_gauge) == seq!["port"@]
        &&& family_help(self.tx_packets_gauge) == "tx packets"@
        &&& family_label_names(self.tx_packets_gauge) == seq!["port"@]
        &&& family_help(self.tx_collisions_gauge) == "tx collisions"@
        &&& family_label_names(self.tx_collisions_gauge) == seq!["port"@]
        &&& family_help(self.tx_packets_rate_gauge) == "tx packets rate"@
        &&& family_label_names(self.tx_packets_rate_gauge) == seq!["port"@]
        &&& family_help(self.tx_fcs_gauge) == "tx fcs"@
        &&& family_label_names(self.tx_fcs_gauge) == seq!["port"@]
        &&& family_help(self.tx_bytes_gauge) == "tx bytes"@
        &&& family_label_names(self.tx_bytes_gauge) == seq!["port"@]
        &&& family_help(self.rx_jabber_packets_gauge) == "rx jabber packets"@
        &&& family_label_names(self.rx_jabber_packets_gauge) == seq!["port"@]
        &&& family_help(self.tx_single_gauge) == "tx single"@
        &&& family_label_names(self.tx_single_gauge) == seq!["port"@]
        &&& family_help(self.tx_excessive_gauge) == "tx excessive"@
        &&& family_label_names(self.tx_excessive_gauge) == seq!["port"@]
        &&& family_help(self.rx_pause_gauge) == "rx pause"@
        &&& family_label_names(self.rx_pause_gauge) == seq!["port"@]
        &&& family_help(self.rx_multicast_packets_gauge) == "rx multicast packets"@
        &&& family_label_names(self.rx_multicast_packets_gauge) == seq!["port"@]
        &&& family_help(self.tx_pause_gauge) == "tx pause"@
        &&& family_label_names(self.tx_pause_gauge) == seq!["port"@]
        &&& family_help(self.rx_good_packets_gauge) == "tx good packets"@
        &&& family_label_names(self.rx_good_packets_gauge) == seq!["port"@]
        &&& family_help(self.rx_broadcast_packets_gauge) == "rx broadcast packets"@
        &&& family_label_names(self.rx_broadcast_packets_gauge) == seq!["port"@]
        &&& family_help(self.tx_multiple_gauge) == "tx multiple"@
        &&& family_label_names(self.tx_multiple_gauge) == seq!["port"@]
        &&& family_help(self.tx_deferred_gauge) == "tx deferred"@
        &&& family_label_names(self.tx_deferred_gauge) == seq!["port"@]
        &&& family_help(self.tx_late_gauge) == "tx late"@
        &&& family_label_names(self.tx_late_gauge) == seq!["port"@]
        &&& family_help(self.tx_multicast_packets_gauge) == "tx multicast packets"@
        &&& family_label_names(self.tx_multicast_packets_gauge) == seq!["port"@]
        &&& family_help(self.rx_fcs_packets_gauge) == "rx fcs packets"@
        &&& family_label_names(self.rx_fcs_packets_gauge) == seq!["port"@]
        &&& family_help(self.tx_broadcast_packets_gauge) == "tx broadcast packets"@
        &&& family_label_names(self.tx_broadcast_packets_gauge) == seq!["port"@]
        &&& family_help(self.rx_err_packets_gauge) == "rx err packets"@
        &&& family_label_names(self.rx_err_packets_gauge) == seq!["port"@]
        &&& family_help(self.rx_fragments_packets_gauge) == "rx fragments packets"@
        &&& family_label_names(self.rx_fragments_packets_gauge) == seq!["port"@]
        &&& family_help(self.rx_bad_bytes_gauge) == "rx bad bytes"@
        &&& family_label_names(self.rx_bad_bytes_gauge) == seq!["port"@]
        &&& family_help(self.rx_undersize_packets_gauge) == "rx undersize packets"@
        &&& family_label_names(self.rx_undersize_packets_gauge) == seq!["port"@]
        &&& family_help(self.port_status_gauge) == "port status, 1 for link up"@
        &&& family_label_names(self.port_status_gauge) == seq!["port"@]
        &&& family_help(self.port_speed_gauge) == "port status speed"@
        &&& family_label_names(self.port_speed_gauge) == seq!["port"@]
        &&& family_help(self.port_mac_list_gauge) == "port mac list, always 1"@
        &&& family_label_names(self.port_mac_list_gauge) == seq!["port"@, "mac"@, "hostname"@]
    }

    /// Whether `n` is the name of one of the map's metrics under `prefix`.
    pub open spec fn is_metric_name(prefix: Seq<char>, n: Seq<char>) -> bool {
        ||| n == prefix + "_switch_stats_rx_packets_rate"@
        ||| n == prefix + "_switch_stats_rx_good_bytes"@
        ||| n == prefix + "_switch_stats_rx_oversize_packets"@
        ||| n == prefix + "_switch_stats_rx_unicast_packets"@
        ||| n == prefix + "_switch_stats_tx_bytes_rate"@
        ||| n == prefix + "_switch_stats_tx_unicast_packets"@
        ||| n == prefix + "_switch_stats_rx_bytes_rate"@
        ||| n == prefix + "_switch_stats_tx_packets"@
        ||| n == prefix + "_switch_stats_tx_collisions"@
        ||| n == prefix + "_switch_stats_tx_packets_rate"@
        ||| n == prefix + "_switch_stats_tx_fcs"@
        ||| n == prefix + "_switch_stats_tx_bytes"@
        ||| n == prefix + "_switch_stats_rx_jabber_packets"@
        ||| n == prefix + "_switch_stats_tx_single"@
        ||| n == prefix + "_switch_stats_tx_excessive"@
        ||| n == prefix + "_switch_stats_rx_pause"@
        ||| n == prefix + "_switch_stats_rx_multicast_packets"@
        ||| n == prefix + "_switch_stats_tx_pause"@
        ||| n == prefix + "_switch_stats_rx_good_packets"@
        ||| n == prefix + "_switch_stats_rx_broadcast_packets"@
        ||| n == prefix + "_switch_stats_tx_multiple"@
        ||| n == prefix + "_switch_stats_tx_deferred"@
        ||| n == prefix + "_switch_stats_tx_late"@
        ||| n == prefix + "_switch_stats_tx_multicast_packets"@
        ||| n == prefix + "_switch_stats_rx_fcs_packets"@
        ||| n == prefix + "_switch_stats_tx_broadcast_packets"@
        ||| n == prefix + "_switch_stats_rx_err_packets"@
        ||| n == prefix + "_switch_stats_rx_fragments_packets"@
        ||| n == prefix + "_switch_stats_rx_bad_bytes"@
        ||| n == prefix + "_switch_stats_rx_undersize_packets"@
        ||| n == prefix + "_switch_port_status"@
        ||| n == prefix + "_switch_port_speed"@
        ||| n == prefix + "_switch_port_mac_list"@
    }

    /// Prometheus accepts what each gauge of the map is made with exactly when the
    /// prefix is one metric names may be built from.
    proof fn lemma_gauge_args(prefix: Seq<char>)
        ensures
            family_args_accepted(prefix + "_switch_stats_rx_packets_rate"@, "rx packet rate"@, seq!["port"@]) == valid_prefix(prefix),
            family_args_accepted(prefix + "_switch_stats_rx_good_bytes"@, "rx good bytes"@, seq!["port"@]) == valid_prefix(prefix),
            family_args_accepted(prefix + "_switch_stats_rx_oversize_packets"@, "rx oversize packets"@, seq!["port"@]) == valid_prefix(prefix),
            family_args_accepted(prefix + "_switch_stats_rx_unicast_packets"@, "rx unicast packets"@, seq!["port"@]) == valid_prefix(prefix),
            family_args_accepted(prefix + "_switch_stats_tx_bytes_rate"@, "tx bytes rate"@, seq!["port"@]) == valid_prefix(prefix),
            family_args_accepted(prefix + "_switch_stats_tx_unicast_packets"@, "tx unicast packets"@, seq!["port"@]) == valid_prefix(prefix),
            family_args_accepted(prefix + "_switch_stats_rx_bytes_rate"@, "rx bytes rate"@, seq!["port"@]) == valid_prefix(prefix),
            family_args_accepted(prefix + "_switch_stats_tx_packets"@, "tx packets"@, seq!["port"@]) == valid_prefix(prefix),
            family_args_accepted(prefix + "_switch_stats_tx_collisions"@, "tx collisions"@, seq!["port"@]) == valid_prefix(prefix),
            family_args_accepted(prefix + "_switch_stats_tx_packets_rate"@, "tx packets rate"@, seq!["port"@]) == valid_prefix(prefix),
            family_args_accepted(prefix + "_switch_stats_tx_fcs"@, "tx fcs"@, seq!["port"@]) == valid_prefix(prefix),
            family_args_accepted(prefix + "_switch_stats_tx_bytes"@, "tx bytes"@, seq!["port"@]) == valid_prefix(prefix),
            family_args_accepted(prefix + "_switch_stats_rx_jabber_packets"@, "rx jabber packets"@, seq!["port"@]) == valid_prefix(prefix),
            family_args_accepted(prefix + "_switch_stats_tx_single"@, "tx single"@, seq!["port"@]) == valid_prefix(prefix),
            family_args_accepted(prefix + "_switch_stats_tx_excessive"@, "tx excessive"@, seq!["port"@]) == valid_prefix(prefix),
            family_args_accepted(prefix + "_switch_stats_rx_pause"@, "rx pause"@, seq!["port"@]) == valid_prefix(prefix),
            family_args_accepted(prefix + "_switch_stats_rx_multicast_packets"@, "rx multicast packets"@, seq!["port"@]) == valid_prefix(prefix),
            family_args_accepted(prefix + "_switch_stats_tx_pause"@, "tx pause"@, seq!["port"@]) == valid_prefix(prefix),
            family_args_accepted(prefix + "_switch_stats_rx_good_packets"@, "tx good packets"@, seq!["port"@]) == valid_prefix(prefix),
            family_args_accepted(prefix + "_switch_stats_rx_broadcast_packets"@, "rx broadcast packets"@, seq!["port"@]) == valid_prefix(prefix),
            family_args_accepted(prefix + "_switch_stats_tx_multiple"@, "tx multiple"@, seq!["port"@]) == valid_prefix(prefix),
            family_args_accepted(prefix + "_switch_stats_tx_deferred"@, "tx deferred"@, seq!["port"@]) == valid_prefix(prefix),
            family_args_accepted(prefix + "_switch_stats_tx_late"@, "tx late"@, seq!["port"@]) == valid_prefix(prefix),
            family_args_accepted(prefix + "_switch_stats_tx_multicast_packets"@, "tx multicast packets"@, seq!["port"@]) == valid_prefix(prefix),
            family_args_accepted(prefix + "_switch_stats_rx_fcs_packets"@, "rx fcs packets"@, seq!["port"@]) == valid_prefix(prefix),
            family_args_accepted(prefix + "_switch_stats_tx_broadcast_packets"@, "tx broadcast packets"@, seq!["port"@]) == valid_prefix(prefix),
            family_args_accepted(prefix + "_switch_stats_rx_err_packets"@, "rx err packets"@, seq!["port"@]) == valid_prefix(prefix),
            family_args_accepted(prefix + "_switch_stats_rx_fragments_packets"@, "rx fragments packets"@, seq!["port"@]) == valid_prefix(prefix),
            family_args_accepted(prefix + "_switch_stats_rx_bad_bytes"@, "rx bad bytes"@, seq!["port"@]) == valid_prefix(prefix),
            family_args_accepted(prefix + "_switch_stats_rx_undersize_packets"@, "rx undersize packets"@, seq!["port"@]) == valid_prefix(prefix),
            family_args_accepted(prefix + "_switch_port_status"@, "port status, 1 for link up"@, seq!["port"@]) == valid_prefix(prefix),
            family_args_accepted(prefix + "_switch_port_speed"@, "port status speed"@, seq!["port"@]) == valid_prefix(prefix),
            family_args_accepted(prefix + "_switch_port_mac_list"@, "port mac list, always 1"@, seq!["port"@, "mac"@, "hostname"@]) == valid_prefix(prefix),
    {
        assert(family_args_accepted(prefix + "_switch_stats_rx_packets_rate"@, "rx packet rate"@, seq!["port"@]) == valid_prefix(prefix)) by {
            reveal_strlit("_switch_stats_rx_packets_rate");
            reveal_strlit("rx packet rate");
            reveal_strlit("port");
            lemma_prefixed_name_valid(prefix, "_switch_stats_rx_packets_rate"@);
            let l = seq!["port"@];
            assert(valid_label_name(l[0]));
        }
        assert(family_args_accepted(prefix + "_switch_stats_rx_good_bytes"@, "rx good bytes"@, seq!["port"@]) == valid_prefix(prefix)) by {
            reveal_strlit("_switch_stats_rx_good_bytes");
            reveal_strlit("rx good bytes");
            reveal_strlit("port");
            lemma_prefixed_name_valid(prefix, "_switch_stats_rx_good_bytes"@);
            let l = seq!["port"@];
            assert(valid_label_name(l[0]));
        }
        assert(family_args_accepted(prefix + "_switch_stats_rx_oversize_packets"@, "rx oversize packets"@, seq!["port"@]) == valid_prefix(prefix)) by {
            reveal_strlit("_switch_stats_rx_oversize_packets");
            reveal_strlit("rx oversize packets");
            reveal_strlit("port");
            lemma_prefixed_name_valid(prefix, "_switch_stats_rx_oversize_packets"@);
            let l = seq!["port"@];
            assert(valid_label_name(l[0]));
        }
        assert(family_args_accepted(prefix + "_switch_stats_rx_unicast_packets"@, "rx unicast packets"@, seq!["port"@]) == valid_prefix(prefix)) by {
            reveal_strlit("_switch_stats_rx_unicast_packets");
            reveal_strlit("rx unicast packets");
            reveal_strlit("port");
            lemma_prefixed_name_valid(prefix, "_switch_stats_rx_unicast_packets"@);
            let l = seq!["port"@];
            assert(valid_label_name(l[0]));
        }
        assert(family_args_accepted(prefix + "_switch_stats_tx_bytes_rate"@, "tx bytes rate"@, seq!["port"@]) == valid_prefix(prefix)) by {
            reveal_strlit("_switch_stats_tx_bytes_rate");
            reveal_strlit("tx bytes rate");
            reveal_strlit("port");
            lemma_prefixed_name_valid(prefix, "_switch_stats_tx_bytes_rate"@);
            let l = seq!["port"@];
            assert(valid_label_name(l[0]));
        }
        assert(family_args_accepted(prefix + "_switch_stats_tx_unicast_packets"@, "tx unicast packets"@, seq!["port"@]) == valid_prefix(prefix)) by {
            reveal_strlit("_switch_stats_tx_unicast_packets");
            reveal_strlit("tx unicast packets");
            reveal_strlit("port");
            lemma_prefixed_name_valid(prefix, "_switch_stats_tx_unicast_packets"@);
            let l = seq!["port"@];
            assert(valid_label_name(l[0]));
        }
        assert(family_args_accepted(prefix + "_switch_stats_rx_bytes_rate"@, "rx bytes rate"@, seq!["port"@]) == valid_prefix(prefix)) by {
            reveal_strlit("_switch_stats_rx_bytes_rate");
            reveal_strlit("rx bytes rate");
            reveal_strlit("port");
            lemma_prefixed_name_valid(prefix, "_switch_stats_rx_bytes_rate"@);
            let l = seq!["port"@];
            assert(valid_label_name(l[0]));
        }
        assert(family_args_accepted(prefix + "_switch_stats_tx_packets"@, "tx packets"@, seq!["port"@]) == valid_prefix(prefix)) by {
            reveal_strlit("_switch_stats_tx_packets");
            reveal_strlit("tx packets");
            reveal_strlit("port");
            lemma_prefixed_name_valid(prefix, "_switch_stats_tx_packets"@);
            let l = seq!["port"@];
            assert(valid_label_name(l[0]));
        }
        assert(family_args_accepted(prefix + "_switch_stats_tx_collisions"@, "tx collisions"@, seq!["port"@]) == valid_prefix(prefix)) by {
            reveal_strlit("_switch_stats_tx_collisions");
            reveal_strlit("tx collisions");
            reveal_strlit("port");
            lemma_prefixed_name_valid(prefix, "_switch_stats_tx_collisions"@);
            let l = seq!["port"@];
            assert(valid_label_name(l[0]));
        }
        assert(family_args_accepted(prefix + "_switch_stats_tx_packets_rate"@, "tx packets rate"@, seq!["port"@]) == valid_prefix(prefix)) by {
            reveal_strlit("_switch_stats_tx_packets_rate");
            reveal_strlit("tx packets rate");
            reveal_strlit("port");
            lemma_prefixed_name_valid(prefix, "_switch_stats_tx_packets_rate"@);
            let l = seq!["port"@];
            assert(valid_label_name(l[0]));
        }
        assert(family_args_accepted(prefix + "_switch_stats_tx_fcs"@, "tx fcs"@, seq!["port"@]) == valid_prefix(prefix)) by {
            reveal_strlit("_switch_stats_tx_fcs");
            reveal_strlit("tx fcs");
            reveal_strlit("port");
            lemma_prefixed_name_valid(prefix, "_switch_stats_tx_fcs"@);
            let l = seq!["port"@];
            assert(valid_label_name(l[0]));
        }
        assert(family_args_accepted(prefix + "_switch_stats_tx_bytes"@, "tx bytes"@, seq!["port"@]) == valid_prefix(prefix)) by {
            reveal_strlit("_switch_stats_tx_bytes");
            reveal_strlit("tx bytes");
            reveal_strlit("port");
            lemma_prefixed_name_valid(prefix, "_switch_stats_tx_bytes"@);
            let l = seq!["port"@];
            assert(valid_label_name(l[0]));
        }
        assert(family_args_accepted(prefix + "_switch_stats_rx_jabber_packets"@, "rx jabber packets"@, seq!["port"@]) == valid_prefix(prefix)) by {
            reveal_strlit("_switch_stats_rx_jabber_packets");
            reveal_strlit("rx jabber packets");
            reveal_strlit("port");
            lemma_prefixed_name_valid(prefix, "_switch_stats_rx_jabber_packets"@);
            let l = seq!["port"@];
            assert(valid_label_name(l[0]));
        }
        assert(family_args_accepted(prefix + "_switch_stats_tx_single"@, "tx single"@, seq!["port"@]) == valid_prefix(prefix)) by {
            reveal_strlit("_switch_stats_tx_single");
            reveal_strlit("tx single");
            reveal_strlit("port");
            lemma_prefixed_name_valid(prefix, "_switch_stats_tx_single"@);
            let l = seq!["port"@];
            assert(valid_label_name(l[0]));
        }
        assert(family_args_accepted(prefix + "_switch_stats_tx_excessive"@, "tx excessive"@, seq!["port"@]) == valid_prefix(prefix)) by {
            reveal_strlit("_switch_stats_tx_excessive");
            reveal_strlit("tx excessive");
            reveal_strlit("port");
            lemma_prefixed_name_valid(prefix, "_switch_stats_tx_excessive"@);
            let l = seq!["port"@];
            assert(valid_label_name(l[0]));
        }
        assert(family_args_accepted(prefix + "_switch_stats_rx_pause"@, "rx pause"@, seq!["port"@]) == valid_prefix(prefix)) by {
            reveal_strlit("_switch_stats_rx_pause");
            reveal_strlit("rx pause");
            reveal_strlit("port");
            lemma_prefixed_name_valid(prefix, "_switch_stats_rx_pause"@);
            let l = seq!["port"@];
            assert(valid_label_name(l[0]));
        }
        assert(family_args_accepted(prefix + "_switch_stats_rx_multicast_packets"@, "rx multicast packets"@, seq!["port"@]) == valid_prefix(prefix)) by {
            reveal_strlit("_switch_stats_rx_multicast_packets");
            reveal_strlit("rx multicast packets");
            reveal_strlit("port");
            lemma_prefixed_name_valid(prefix, "_switch_stats_rx_multicast_packets"@);
            let l = seq!["port"@];
            assert(valid_label_name(l[0]));
        }
        assert(family_args_accepted(prefix + "_switch_stats_tx_pause"@, "tx pause"@, seq!["port"@]) == valid_prefix(prefix)) by {
            reveal_strlit("_switch_stats_tx_pause");
            reveal_strlit("tx pause");
            reveal_strlit("port");
            lemma_prefixed_name_valid(prefix, "_switch_stats_tx_pause"@);
            let l = seq!["port"@];
            assert(valid_label_name(l[0]));
        }
        assert(family_args_accepted(prefix + "_switch_stats_rx_good_packets"@, "tx good packets"@, seq!["port"@]) == valid_prefix(prefix)) by {
            reveal_strlit("_switch_stats_rx_good_packets");
            reveal_strlit("tx good packets");
            reveal_strlit("port");
            lemma_prefixed_name_valid(prefix, "_switch_stats_rx_good_packets"@);
            let l = seq!["port"@];
            assert(valid_label_name(l[0]));
        }
        assert(family_args_accepted(prefix + "_switch_stats_rx_broadcast_packets"@, "rx broadcast packets"@, seq!["port"@]) == valid_prefix(prefix)) by {
            reveal_strlit("_switch_stats_rx_broadcast_packets");
            reveal_strlit("rx broadcast packets");
            reveal_strlit("port");
            lemma_prefixed_name_valid(prefix, "_switch_stats_rx_broadcast_packets"@);
            let l = seq!["port"@];
            assert(valid_label_name(l[0]));
        }
        assert(family_args_accepted(prefix + "_switch_stats_tx_multiple"@, "tx multiple"@, seq!["port"@]) == valid_prefix(prefix)) by {
            reveal_strlit("_switch_stats_tx_multiple");
            reveal_strlit("tx multiple");
            reveal_strlit("port");
            lemma_prefixed_name_valid(prefix, "_switch_stats_tx_multiple"@);
            let l = seq!["port"@];
            assert(valid_label_name(l[0]));
        }
        assert(family_args_accepted(prefix + "_switch_stats_tx_deferred"@, "tx deferred"@, seq!["port"@]) == valid_prefix(prefix)) by {
            reveal_strlit("_switch_stats_tx_deferred");
            reveal_strlit("tx deferred");
            reveal_strlit("port");
            lemma_prefixed_name_valid(prefix, "_switch_stats_tx_deferred"@);
            let l = seq!["port"@];
            assert(valid_label_name(l[0]));
        }
        assert(family_args_accepted(prefix + "_switch_stats_tx_late"@, "tx late"@, seq!["port"@]) == valid_prefix(prefix)) by {
            reveal_strlit("_switch_stats_tx_late");
            reveal_strlit("tx late");
            reveal_strlit("port");
            lemma_prefixed_name_valid(prefix, "_switch_stats_tx_late"@);
            let l = seq!["port"@];
            assert(valid_label_name(l[0]));
        }
        assert(family_args_accepted(prefix + "_switch_stats_tx_multicast_packets"@, "tx multicast packets"@, seq!["port"@]) == valid_prefix(prefix)) by {
            reveal_strlit("_switch_stats_tx_multicast_packets");
            reveal_strlit("tx multicast packets");
            reveal_strlit("port");
            lemma_prefixed_name_valid(prefix, "_switch_stats_tx_multicast_packets"@);
            let l = seq!["port"@];
            assert(valid_label_name(l[0]));
        }
        assert(family_args_accepted(prefix + "_switch_stats_rx_fcs_packets"@, "rx fcs packets"@, seq!["port"@]) == valid_prefix(prefix)) by {
            reveal_strlit("_switch_stats_rx_fcs_packets");
            reveal_strlit("rx fcs packets");
            reveal_strlit("port");
            lemma_prefixed_name_valid(prefix, "_switch_stats_rx_fcs_packets"@);
            let l = seq!["port"@];
            assert(valid_label_name(l[0]));
        }
        assert(family_args_accepted(prefix + "_switch_stats_tx_broadcast_packets"@, "tx broadcast packets"@, seq!["port"@]) == valid_prefix(prefix)) by {
            reveal_strlit("_switch_stats_tx_broadcast_packets");
            reveal_strlit("tx broadcast packets");
            reveal_strlit("port");
            lemma_prefixed_name_valid(prefix, "_switch_stats_tx_broadcast_packets"@);
            let l = seq!["port"@];
            assert(valid_label_name(l[0]));
        }
        assert(family_args_accepted(prefix + "_switch_stats_rx_err_packets"@, "rx err packets"@, seq!["port"@]) == valid_prefix(prefix)) by {
            reveal_strlit("_switch_stats_rx_err_packets");
            reveal_strlit("rx err packets");
            reveal_strlit("port");
            lemma_prefixed_name_valid(prefix, "_switch_stats_rx_err_packets"@);
            let l = seq!["port"@];
            assert(valid_label_name(l[0]));
        }
        assert(family_args_accepted(prefix + "_switch_stats_rx_fragments_packets"@, "rx fragments packets"@, seq!["port"@]) == valid_prefix(prefix)) by {
            reveal_strlit("_switch_stats_rx_fragments_packets");
            reveal_strlit("rx fragments packets");
            reveal_strlit("port");
            lemma_prefixed_name_valid(prefix, "_switch_stats_rx_fragments_packets"@);
            let l = seq!["port"@];
            assert(valid_label_name(l[0]));
        }
        assert(family_args_accepted(prefix + "_switch_stats_rx_bad_bytes"@, "rx bad bytes"@, seq!["port"@]) == valid_prefix(prefix)) by {
            reveal_strlit("_switch_stats_rx_bad_bytes");
            reveal_strlit("rx bad bytes");
            reveal_strlit("port");
            lemma_prefixed_name_valid(prefix, "_switch_stats_rx_bad_bytes"@);
            let l = seq!["port"@];
            assert(valid_label_name(l[0]));
        }
        assert(family_args_accepted(prefix + "_switch_stats_rx_undersize_packets"@, "rx undersize packets"@, seq!["port"@]) == valid_prefix(prefix)) by {
            reveal_strlit("_switch_stats_rx_undersize_packets");
            reveal_strlit("rx undersize packets");
            reveal_strlit("port");
            lemma_prefixed_name_valid(prefix, "_switch_stats_rx_undersize_packets"@);
            let l = seq!["port"@];
            assert(valid_label_name(l[0]));
        }
        assert(family_args_accepted(prefix + "_switch_port_status"@, "port status, 1 for link up"@, seq!["port"@]) == valid_prefix(prefix)) by {
            reveal_strlit("_switch_port_status");
            reveal_strlit("port status, 1 for link up");
            reveal_strlit("port");
            lemma_prefixed_name_valid(prefix, "_switch_port_status"@);
            let l = seq!["port"@];
            assert(valid_label_name(l[0]));
        }
        assert(family_args_accepted(prefix + "_switch_port_speed"@, "port status speed"@, seq!["port"@]) == valid_prefix(prefix)) by {
            reveal_strlit("_switch_port_speed");
            reveal_strlit("port status speed");
            reveal_strlit("port");
            lemma_prefixed_name_valid(prefix, "_switch_port_speed"@);
            let l = seq!["port"@];
            assert(valid_label_name(l[0]));
        }
        assert(family_args_accepted(prefix + "_switch_port_mac_list"@, "port mac list, always 1"@, seq!["port"@, "mac"@, "hostname"@]) == valid_prefix(prefix)) by {
            reveal_strlit("_switch_port_mac_list");
            reveal_strlit("port mac list, always 1");
            reveal_strlit("port");
            reveal_strlit("mac");
            reveal_strlit("hostname");
            lemma_prefixed_name_valid(prefix, "_switch_port_mac_list"@);
            let l = seq!["port"@, "mac"@, "hostname"@];
            assert(valid_label_name(l[0]));
            assert(valid_label_name(l[1]));
            assert(valid_label_name(l[2]));
            assert(l[0] != l[1]);
            assert(l[0] != l[2]);
            assert(l[1] != l[2]);
        }
    }

    /// Makes and registers every gauge of the map, named after `prefix`.
    pub fn new(prefix: String) -> (r: Result<Self, GaugeError>)
        ensures
            r matches Ok(m) ==> m.well_formed() && m.is_cleared() && m.named(prefix@),
            r matches Err(e) ==> Self::is_metric_name(prefix@, gauge_error_name(e)),
            (r matches Err(e) && e is Creation) <==> !valid_prefix(prefix@),
            !valid_prefix(prefix@) ==> (r matches Err(e) && gauge_error_name(e) == prefix@ + "_switch_stats_rx_packets_rate"@),
    {
        proof { Self::lemma_gauge_args(prefix@); }
        let rx_packets_rate_gauge_labels = vec![String::from_str("port")];
        proof { assert(label_view(rx_packets_rate_gauge_labels@) =~= seq!["port"@]); }
        let rx_packets_rate_gauge = match make_family(concat(prefix.as_str(), "_switch_stats_rx_packets_rate"), String::from_str("rx packet rate"), rx_packets_rate_gauge_labels) { Ok(g) => g, Err(e) => { return Err(e); } };
        let rx_good_bytes_gauge_labels = vec![String::from_str("port")];
        proof { assert(label_view(rx_good_bytes_gauge_labels@) =~= seq!["port"@]); }
        let rx_good_bytes_gauge = match make_family(concat(prefix.as_str(), "_switch_stats_rx_good_bytes"), String::from_str("rx good bytes"), rx_good_bytes_gauge_labels) { Ok(g) => g, Err(e) => { return Err(e); } };
        let rx_oversize_packets_gauge_labels = vec![String::from_str("port")];
        proof { assert(label_view(rx_oversize_packets_gauge_labels@) =~= seq!["port"@]); }
        let rx_oversize_packets_gauge = match make_family(concat(prefix.as_str(), "_switch_stats_rx_oversize_packets"), String::from_str("rx oversize packets"), rx_oversize_packets_gauge_labels) { Ok(g) => g, Err(e) => { return Err(e); } };
        let rx_unicast_packets_gauge_labels = vec![String::from_str("port")];
        proof { assert(label_view(rx_unicast_packets_gauge_labels@) =~= seq!["port"@]); }
        let rx_unicast_packets_gauge = match make_family(concat(prefix.as_str(), "_switch_stats_rx_unicast_packets"), String::from_str("rx unicast packets"), rx_unicast_packets_gauge_labels) { Ok(g) => g, Err(e) => { return Err(e); } };
        let tx_bytes_rate_gauge_labels = vec![String::from_str("port")];
        proof { assert(label_view(tx_bytes_rate_gauge_labels@) =~= seq!["port"@]); }
        let tx_bytes_rate_gauge = match make_family(concat(prefix.as_str(), "_switch_stats_tx_bytes_rate"), String::from_str("tx bytes rate"), tx_bytes_rate_gauge_labels) { Ok(g) => g, Err(e) => { return Err(e); } };
        let tx_unicast_packets_gauge_labels = vec![String::from_str("port")];
        proof { assert(label_view(tx_unicast_packets_gauge_labels@) =~= seq!["port"@]); }
        let tx_unicast_packets_gauge = match make_family(concat(prefix.as_str(), "_switch_stats_tx_unicast_packets"), String::from_str("tx unicast packets"), tx_unicast_packets_gauge_labels) { Ok(g) => g, Err(e) => { return Err(e); } };
        let rx_bytes_rate_gauge_labels = vec![String::from_str("port")];
        proof { assert(label_view(rx_bytes_rate_gauge_labels@) =~= seq!["port"@]); }
        let rx_bytes_rate_gauge = match make_family(concat(prefix.as_str(), "_switch_stats_rx_bytes_rate"), String::from_str("rx bytes rate"), rx_bytes_rate_gauge_labels) { Ok(g) => g, Err(e) => { return Err(e); } };
        let tx_packets_gauge_labels = vec![String::from_str("port")];
        proof { assert(label_view(tx_packets_gauge_labels@) =~= seq!["port"@]); }
        let tx_packets_gauge = match make_family(concat(prefix.as_str(), "_switch_stats_tx_packets"), String::from_str("tx packets"), tx_packets_gauge_labels) { Ok(g) => g, Err(e) => { return Err(e); } };
        let tx_collisions_gauge_labels = vec![String::from_str("port")];
        proof { assert(label_view(tx_collisions_gauge_labels@) =~= seq!["port"@]); }
        let tx_collisions_gauge = match make_family(concat(prefix.as_str(), "_switch_stats_tx_collisions"), String::from_str("tx collisions"), tx_collisions_gauge_labels) { Ok(g) => g, Err(e) => { return Err(e); } };
        let tx_packets_rate_gauge_labels = vec![String::from_str("port")];
        proof { assert(label_view(tx_packets_rate_gauge_labels@) =~= seq!["port"@]); }
        let tx_packets_rate_gauge = match make_family(concat(prefix.as_str(), "_switch_stats_tx_packets_rate"), String::from_str("tx packets rate"), tx_packets_rate_gauge_labels) { Ok(g) => g, Err(e) => { return Err(e); } };
        let tx_fcs_gauge_labels = vec![String::from_str("port")];
        proof { assert(label_view(tx_fcs_gauge_labels@) =~= seq!["port"@]); }
        let tx_fcs_gauge = match make_family(concat(prefix.as_str(), "_switch_stats_tx_fcs"), String::from_str("tx fcs"), tx_fcs_gauge_labels) { Ok(g) => g, Err(e) => { return Err(e); } };
        let tx_bytes_gauge_labels = vec![String::from_str("port")];
        proof { assert(label_view(tx_bytes_gauge_labels@) =~= seq!["port"@]); }
        let tx_bytes_gauge = match make_family(concat(prefix.as_str(), "_switch_stats_tx_bytes"), String::from_str("tx bytes"), tx_bytes_gauge_labels) { Ok(g) => g, Err(e) => { return Err(e); } };
        let rx_jabber_packets_gauge_labels = vec![String::from_str("port")];
        proof { assert(label_view(rx_jabber_packets_gauge_labels@) =~= seq!["port"@]); }
        let rx_jabber_packets_gauge = match make_family(concat(prefix.as_str(), "_switch_stats_rx_jabber_packets"), String::from_str("rx jabber packets"), rx_jabber_packets_gauge_labels) { Ok(g) => g, Err(e) => { return Err(e); } };
        let tx_single_gauge_labels = vec![String::from_str("port")];
        proof { assert(label_view(tx_single_gauge_labels@) =~= seq!["port"@]); }
        let tx_single_gauge = match make_family(concat(prefix.as_str(), "_switch_stats_tx_single"), String::from_str("tx single"), tx_single_gauge_labels) { Ok(g) => g, Err(e) => { return Err(e); } };
        let tx_excessive_gauge_labels = vec![String::from_str("port")];
        proof { assert(label_view(tx_excessive_gauge_labels@) =~= seq!["port"@]); }
        let tx_excessive_gauge = match make_family(concat(prefix.as_str(), "_switch_stats_tx_excessive"), String::from_str("tx excessive"), tx_excessive_gauge_labels) { Ok(g) => g, Err(e) => { return Err(e); } };
        let rx_pause_gauge_labels = vec![String::from_str("port")];
        proof { assert(label_view(rx_pause_gauge_labels@) =~= seq!["port"@]); }
        let rx_pause_gauge = match make_family(concat(prefix.as_str(), "_switch_stats_rx_pause"), String::from_str("rx pause"), rx_pause_gauge_labels) { Ok(g) => g, Err(e) => { return Err(e); } };
        let rx_multicast_packets_gauge_labels = vec![String::from_str("port")];
        proof { assert(label_view(rx_multicast_packets_gauge_labels@) =~= seq!["port"@]); }
        let rx_multicast_packets_gauge = match make_family(concat(prefix.as_str(), "_switch_stats_rx_multicast_packets"), String::from_str("rx multicast packets"), rx_multicast_packets_gauge_labels) { Ok(g) => g, Err(e) => { return Err(e); } };
        let tx_pause_gauge_labels = vec![String::from_str("port")];
        proof { assert(label_view(tx_pause_gauge_labels@) =~= seq!["port"@]); }
        let tx_pause_gauge = match make_family(concat(prefix.as_str(), "_switch_stats_tx_pause"), String::from_str("tx pause"), tx_pause_gauge_labels) { Ok(g) => g, Err(e) => { return Err(e); } };
        let rx_good_packets_gauge_labels = vec![String::from_str("port")];
        proof { assert(label_view(rx_good_packets_gauge_labels@) =~= seq!["port"@]); }
        let rx_good_packets_gauge = match make_family(concat(prefix.as_str(), "_switch_stats_rx_good_packets"), String::from_str("tx good packets"), rx_good_packets_gauge_labels) { Ok(g) => g, Err(e) => { return Err(e); } };
        let rx_broadcast_packets_gauge_labels = vec![String::from_str("port")];
        proof { assert(label_view(rx_broadcast_packets_gauge_labels@) =~= seq!["port"@]); }
        let rx_broadcast_packets_gauge = match make_family(concat(prefix.as_str(), "_switch_stats_rx_broadcast_packets"), String::from_str("rx broadcast packets"), rx_broadcast_packets_gauge_labels) { Ok(g) => g, Err(e) => { return Err(e); } };
        let tx_multiple_gauge_labels = vec![String::from_str("port")];
        proof { assert(label_view(tx_multiple_gauge_labels@) =~= seq!["port"@]); }
        let tx_multiple_gauge = match make_family(concat(prefix.as_str(), "_switch_stats_tx_multiple"), String::from_str("tx multiple"), tx_multiple_gauge_labels) { Ok(g) => g, Err(e) => { return Err(e); } };
        let tx_deferred_gauge_labels = vec![String::from_str("port")];
        proof { assert(label_view(tx_deferred_gauge_labels@) =~= seq!["port"@]); }
        let tx_deferred_gauge = match make_family(concat(prefix.as_str(), "_switch_stats_tx_deferred"), String::from_str("tx deferred"), tx_deferred_gauge_labels) { Ok(g) => g, Err(e) => { return Err(e); } };
        let tx_late_gauge_labels = vec![String::from_str("port")];
        proof { assert(label_view(tx_late_gauge_labels@) =~= seq!["port"@]); }
        let tx_late_gauge = match make_family(concat(prefix.as_str(), "_switch_stats_tx_late"), String::from_str("tx late"), tx_late_gauge_labels) { Ok(g) => g, Err(e) => { return Err(e); } };
        let tx_multicast_packets_gauge_labels = vec![String::from_str("port")];
        proof { assert(label_view(tx_multicast_packets_gauge_labels@) =~= seq!["port"@]); }
        let tx_multicast_packets_gauge = match make_family(concat(prefix.as_str(), "_switch_stats_tx_multicast_packets"), String::from_str("tx multicast packets"), tx_multicast_packets_gauge_labels) { Ok(g) => g, Err(e) => { return Err(e); } };
        let rx_fcs_packets_gauge_labels = vec![String::from_str("port")];
        proof { assert(label_view(rx_fcs_packets_gauge_labels@) =~= seq!["port"@]); }
        let rx_fcs_packets_gauge = match make_family(concat(prefix.as_str(), "_switch_stats_rx_fcs_packets"), String::from_str("rx fcs packets"), rx_fcs_packets_gauge_labels) { Ok(g) => g, Err(e) => { return Err(e); } };
        let tx_broadcast_packets_gauge_labels = vec![String::from_str("port")];
        proof { assert(label_view(tx_broadcast_packets_gauge_labels@) =~= seq!["port"@]); }
        let tx_broadcast_packets_gauge = match make_family(concat(prefix.as_str(), "_switch_stats_tx_broadcast_packets"), String::from_str("tx broadcast packets"), tx_broadcast_packets_gauge_labels) { Ok(g) => g, Err(e) => { return Err(e); } };
        let rx_err_packets_gauge_labels = vec![String::from_str("port")];
        proof { assert(label_view(rx_err_packets_gauge_labels@) =~= seq!["port"@]); }
        let rx_err_packets_gauge = match make_family(concat(prefix.as_str(), "_switch_stats_rx_err_packets"), String::from_str("rx err packets"), rx_err_packets_gauge_labels) { Ok(g) => g, Err(e) => { return Err(e); } };
        let rx_fragments_packets_gauge_labels = vec![String::from_str("port")];
        proof { assert(label_view(rx_fragments_packets_gauge_labels@) =~= seq!["port"@]); }
        let rx_fragments_packets_gauge = match make_family(concat(prefix.as_str(), "_switch_stats_rx_fragments_packets"), String::from_str("rx fragments packets"), rx_fragments_packets_gauge_labels) { Ok(g) => g, Err(e) => { return Err(e); } };
        let rx_bad_bytes_gauge_labels = vec![String::from_str("port")];
        proof { assert(label_view(rx_bad_bytes_gauge_labels@) =~= seq!["port"@]); }
        let rx_bad_bytes_gauge = match make_family(concat(prefix.as_str(), "_switch_stats_rx_bad_bytes"), String::from_str("rx bad bytes"), rx_bad_bytes_gauge_labels) { Ok(g) => g, Err(e) => { return Err(e); } };
        let rx_undersize_packets_gauge_labels = vec![String::from_str("port")];
        proof { assert(label_view(rx_undersize_packets_gauge_labels@) =~= seq!["port"@]); }
        let rx_undersize_packets_gauge = match make_family(concat(prefix.as_str(), "_switch_stats_rx_undersize_packets"), String::from_str("rx undersize packets"), rx_undersize_packets_gauge_labels) { Ok(g) => g, Err(e) => { return Err(e); } };
        let port_status_gauge_labels = vec![String::from_str("port")];
        proof { assert(label_view(port_status_gauge_labels@) =~= seq!["port"@]); }
        let port_status_gauge = match make_family(concat(prefix.as_str(), "_switch_port_status"), String::from_str("port status, 1 for link up"), port_status_gauge_labels) { Ok(g) => g, Err(e) => { return Err(e); } };
        let port_speed_gauge_labels = vec![String::from_str("port")];
        proof { assert(label_view(port_speed_gauge_labels@) =~= seq!["port"@]); }
        let port_speed_gauge = match make_family(concat(prefix.as_str(), "_switch_port_speed"), String::from_str("port status speed"), port_speed_gauge_labels) { Ok(g) => g, Err(e) => { return Err(e); } };
        let port_mac_list_gauge_labels = vec![String::from_str("port"), String::from_str("mac"), String::from_str("hostname")];
        proof { assert(label_view(port_mac_list_gauge_labels@) =~= seq!["port"@, "mac"@, "hostname"@]); }
        let port_mac_list_gauge = match make_family(concat(prefix.as_str(), "_switch_port_mac_list"), String::from_str("port mac list, always 1"), port_mac_list_gauge_labels) { Ok(g) => g, Err(e) => { return Err(e); } };
        Ok(SwitchMetricMap { rx_packets_rate_gauge, rx_good_bytes_gauge, rx_oversize_packets_gauge, rx_unicast_packets_gauge, tx_bytes_rate_gauge, tx_unicast_packets_gauge, rx_bytes_rate_gauge, tx_packets_gauge, tx_collisions_gauge, tx_packets_rate_gauge, tx_fcs_gauge, tx_bytes_gauge, rx_jabber_packets_gauge, tx_single_gauge, tx_excessive_gauge, rx_pause_gauge, rx_multicast_packets_gauge, tx_pause_gauge, rx_good_packets_gauge, rx_broadcast_packets_gauge, tx_multiple_gauge, tx_deferred_gauge, tx_late_gauge, tx_multicast_packets_gauge, rx_fcs_packets_gauge, tx_broadcast_packets_gauge, rx_err_packets_gauge, rx_fragments_packets_gauge, rx_bad_bytes_gauge, rx_undersize_packets_gauge, port_status_gauge, port_speed_gauge, port_mac_list_gauge })
    }

    /// The metric names of the gauges, in declaration order.
    pub open spec fn names_of(&self) -> Seq<Seq<char>> {
        seq![family_name(self.rx_packets_rate_gauge), family_name(self.rx_good_bytes_gauge), family_name(self.rx_oversize_packets_gauge), family_name(self.rx_unicast_packets_gauge), family_name(self.tx_bytes_rate_gauge), family_name(self.tx_unicast_packets_gauge), family_name(self.rx_bytes_rate_gauge), family_name(self.tx_packets_gauge), family_name(self.tx_collisions_gauge), family_name(self.tx_packets_rate_gauge), family_name(self.tx_fcs_gauge), family_name(self.tx_bytes_gauge), family_name(self.rx_jabber_packets_gauge), family_name(self.tx_single_gauge), family_name(self.tx_excessive_gauge), family_name(self.rx_pause_gauge), family_name(self.rx_multicast_packets_gauge), family_name(self.tx_pause_gauge), family_name(self.rx_good_packets_gauge), family_name(self.rx_broadcast_packets_gauge), family_name(self.tx_multiple_gauge), family_name(self.tx_deferred_gauge), family_name(self.tx_late_gauge), family_name(self.tx_multicast_packets_gauge), family_name(self.rx_fcs_packets_gauge), family_name(self.tx_broadcast_packets_gauge), family_name(self.rx_err_packets_gauge), family_name(self.rx_fragments_packets_gauge), family_name(self.rx_bad_bytes_gauge), family_name(self.rx_undersize_packets_gauge), family_name(self.port_status_gauge), family_name(self.port_speed_gauge), family_name(self.port_mac_list_gauge)]
    }

    /// Drops every child of every family and puts every single gauge at 0.
    pub fn reset_all(&mut self)
        requires
            old(self).well_formed(),
        ensures
            final(self).well_formed(),
            final(self).is_cleared(),
            final(self).names_of() == old(self).names_of(),
    {
        family_reset(&mut self.rx_packets_rate_gauge);
        family_reset(&mut self.rx_good_bytes_gauge);
        family_reset(&mut self.rx_oversize_packets_gauge);
        family_reset(&mut self.rx_unicast_packets_gauge);
        family_reset(&mut self.tx_bytes_rate_gauge);
        family_reset(&mut self.tx_unicast_packets_gauge);
        family_reset(&mut self.rx_bytes_rate_gauge);
        family_reset(&mut self.tx_packets_gauge);
        family_reset(&mut self.tx_collisions_gauge);
        family_reset(&mut self.tx_packets_rate_gauge);
        family_reset(&mut self.tx_fcs_gauge);
        family_reset(&mut self.tx_bytes_gauge);
        family_reset(&mut self.rx_jabber_packets_gauge);
        family_reset(&mut self.tx_single_gauge);
        family_reset(&mut self.tx_excessive_gauge);
        family_reset(&mut self.rx_pause_gauge);
        family_reset(&mut self.rx_multicast_packets_gauge);
        family_reset(&mut self.tx_pause_gauge);
        family_reset(&mut self.rx_good_packets_gauge);
        family_reset(&mut self.rx_broadcast_packets_gauge);
        family_reset(&mut self.tx_multiple_gauge);
        family_reset(&mut self.tx_deferred_gauge);
        family_reset(&mut self.tx_late_gauge);
        family_reset(&mut self.tx_multicast_packets_gauge);
        family_reset(&mut self.rx_fcs_packets_gauge);
        family_reset(&mut self.tx_broadcast_packets_gauge);
        family_reset(&mut self.rx_err_packets_gauge);
        family_reset(&mut self.rx_fragments_packets_gauge);
        family_reset(&mut self.rx_bad_bytes_gauge);
        family_reset(&mut self.rx_undersize_packets_gauge);
        family_reset(&mut self.port_status_gauge);
        family_reset(&mut self.port_speed_gauge);
        family_reset(&mut self.port_mac_list_gauge);
    }

    /// Writes one port: its traffic counters, whether its link is up, its speed and
    /// one child per host behind it.
    pub fn set_port(&mut self, port_status: &SwitchPortStatus, stats: &SwitchPortStats)
        requires
            old(self).well_formed(),
        ensures
            final(self).well_formed(),
            final(self).names_of() == old(self).names_of(),
            final(self).rx_packets_rate_gauge@ == family_put(old(self).rx_packets_rate_gauge@, seq![port_label(*port_status)], opt_i64(stats.rx_packets_rate)),
            final(self).rx_good_bytes_gauge@ == family_put(old(self).rx_good_bytes_gauge@, seq![port_label(*port_status)], opt_i64(stats.rx_good_bytes)),
            final(self).rx_oversize_packets_gauge@ == family_put(old(self).rx_oversize_packets_gauge@, seq![port_label(*port_status)], opt_i64(stats.rx_oversize_packets)),
            final(self).rx_unicast_packets_gauge@ == family_put(old(self).rx_unicast_packets_gauge@, seq![port_label(*port_status)], opt_i64(stats.rx_unicast_packets)),
            final(self).tx_bytes_rate_gauge@ == family_put(old(self).tx_bytes_rate_gauge@, seq![port_label(*port_status)], opt_i64(stats.tx_bytes_rate)),
            final(self).tx_unicast_packets_gauge@ == family_put(old(self).tx_unicast_packets_gauge@, seq![port_label(*port_status)], opt_i64(stats.tx_unicast_packets)),
            final(self).rx_bytes_rate_gauge@ == family_put(old(self).rx_bytes_rate_gauge@, seq![port_label(*port_status)], opt_i64(stats.rx_bytes_rate)),
            final(self).tx_packets_gauge@ == family_put(old(self).tx_packets_gauge@, seq![port_label(*port_status)], opt_i64(stats.tx_packets)),
            final(self).tx_collisions_gauge@ == family_put(old(self).tx_collisions_gauge@, seq![port_label(*port_status)], opt_i64(stats.tx_collisions)),
            final(self).tx_packets_rate_gauge@ == family_put(old(self).tx_packets_rate_gauge@, seq![port_label(*port_status)], opt_i64(stats.tx_packets_rate)),
            final(self).tx_fcs_gauge@ == family_put(old(self).tx_fcs_gauge@, seq![port_label(*port_status)], opt_i64(stats.tx_fcs)),
            final(self).tx_bytes_gauge@ == family_put(old(self).tx_bytes_gauge@, seq![port_label(*port_status)], opt_i64(stats.tx_bytes)),
            final(self).rx_jabber_packets_gauge@ == family_put(old(self).rx_jabber_packets_gauge@, seq![port_label(*port_status)], opt_i64(stats.rx_jabber_packets)),
            final(self).tx_single_gauge@ == family_put(old(self).tx_single_gauge@, seq![port_label(*port_status)], opt_i64(stats.tx_single)),
            final(self).tx_excessive_gauge@ == family_put(old(self).tx_excessive_gauge@, seq![port_label(*port_status)], opt_i64(stats.tx_excessive)),
            final(self).rx_pause_gauge@ == family_put(old(self).rx_pause_gauge@, seq![port_label(*port_status)], opt_i64(stats.rx_pause)),
            final(self).rx_multicast_packets_gauge@ == family_put(old(self).rx_multicast_packets_gauge@, seq![port_label(*port_status)], opt_i64(stats.rx_multicast_packets)),
            final(self).tx_pause_gauge@ == family_put(old(self).tx_pause_gauge@, seq![port_label(*port_status)], opt_i64(stats.tx_pause)),
            final(self).rx_good_packets_gauge@ == family_put(old(self).rx_good_packets_gauge@, seq![port_label(*port_status)], opt_i64(stats.rx_good_packets)),
            final(self).rx_broadcast_packets_gauge@ == family_put(old(self).rx_broadcast_packets_gauge@, seq![port_label(*port_status)], opt_i64(stats.rx_broadcast_packets)),
            final(self).tx_multiple_gauge@ == family_put(old(self).tx_multiple_gauge@, seq![port_label(*port_status)], opt_i64(stats.tx_multiple)),
            final(self).tx_deferred_gauge@ == family_put(old(self).tx_deferred_gauge@, seq![port_label(*port_status)], opt_i64(stats.tx_deferred)),
            final(self).tx_late_gauge@ == family_put(old(self).tx_late_gauge@, seq![port_label(*port_status)], opt_i64(stats.tx_late)),
            final(self).tx_multicast_packets_gauge@ == family_put(old(self).tx_multicast_packets_gauge@, seq![port_label(*port_status)], opt_i64(stats.tx_multicast_packets)),
            final(self).rx_fcs_packets_gauge@ == family_put(old(self).rx_fcs_packets_gauge@, seq![port_label(*port_status)], opt_i64(stats.rx_fcs_packets)),
            final(self).tx_broadcast_packets_gauge@ == family_put(old(self).tx_broadcast_packets_gauge@, seq![port_label(*port_status)], opt_i64(stats.tx_broadcast_packets)),
            final(self).rx_err_packets_gauge@ == family_put(old(self).rx_err_packets_gauge@, seq![port_label(*port_status)], opt_i64(stats.rx_err_packets)),
            final(self).rx_fragments_packets_gauge@ == family_put(old(self).rx_fragments_packets_gauge@, seq![port_label(*port_status)], opt_i64(stats.rx_fragments_packets)),
            final(self).rx_bad_bytes_gauge@ == family_put(old(self).rx_bad_bytes_gauge@, seq![port_label(*port_status)], opt_i64(stats.rx_bad_bytes)),
            final(self).rx_undersize_packets_gauge@ == family_put(old(self).rx_undersize_packets_gauge@, seq![port_label(*port_status)], opt_i64(stats.rx_undersize_packets)),
            final(self).port_status_gauge@ == family_put(old(self).port_status_gauge@, seq![port_label(*port_status)], flag(opt_text(port_status.link) == "up"@)),
            final(self).port_speed_gauge@ == family_put(old(self).port_speed_gauge@, seq![port_label(*port_status)], port_speed(*port_status)),
            final(self).port_mac_list_gauge@ == put_hosts(old(self).port_mac_list_gauge@, port_label(*port_status), port_hosts(*port_status)),
    {
        let port = i64_to_decimal(opt_i16_value(port_status.id));
        family_set(&mut self.rx_packets_rate_gauge, &labels1(port.clone()), opt_i64_value(stats.rx_packets_rate));
        family_set(&mut self.rx_good_bytes_gauge, &labels1(port.clone()), opt_i64_value(stats.rx_good_bytes));
        family_set(&mut self.rx_oversize_packets_gauge, &labels1(port.clone()), opt_i64_value(stats.rx_oversize_packets));
        family_set(&mut self.rx_unicast_packets_gauge, &labels1(port.clone()), opt_i64_value(stats.rx_unicast_packets));
        family_set(&mut self.tx_bytes_rate_gauge, &labels1(port.clone()), opt_i64_value(stats.tx_bytes_rate));
        family_set(&mut self.tx_unicast_packets_gauge, &labels1(port.clone()), opt_i64_value(stats.tx_unicast_packets));
        family_set(&mut self.rx_bytes_rate_gauge, &labels1(port.clone()), opt_i64_value(stats.rx_bytes_rate));
        family_set(&mut self.tx_packets_gauge, &labels1(port.clone()), opt_i64_value(stats.tx_packets));
        family_set(&mut self.tx_collisions_gauge, &labels1(port.clone()), opt_i64_value(stats.tx_collisions));
        family_set(&mut self.tx_packets_rate_gauge, &labels1(port.clone()), opt_i64_value(stats.tx_packets_rate));
        family_set(&mut self.tx_fcs_gauge, &labels1(port.clone()), opt_i64_value(stats.tx_fcs));
        family_set(&mut self.tx_bytes_gauge, &labels1(port.clone()), opt_i64_value(stats.tx_bytes));
        family_set(&mut self.rx_jabber_packets_gauge, &labels1(port.clone()), opt_i64_value(stats.rx_jabber_packets));
        family_set(&mut self.tx_single_gauge, &labels1(port.clone()), opt_i64_value(stats.tx_single));
        family_set(&mut self.tx_excessive_gauge, &labels1(port.clone()), opt_i64_value(stats.tx_excessive));
        family_set(&mut self.rx_pause_gauge, &labels1(port.clone()), opt_i64_value(stats.rx_pause));
        family_set(&mut self.rx_multicast_packets_gauge, &labels1(port.clone()), opt_i64_value(stats.rx_multicast_packets));
        family_set(&mut self.tx_pause_gauge, &labels1(port.clone()), opt_i64_value(stats.tx_pause));
        family_set(&mut self.rx_good_packets_gauge, &labels1(port.clone()), opt_i64_value(stats.rx_good_packets));
        family_set(&mut self.rx_broadcast_packets_gauge, &labels1(port.clone()), opt_i64_value(stats.rx_broadcast_packets));
        family_set(&mut self.tx_multiple_gauge, &labels1(port.clone()), opt_i64_value(stats.tx_multiple));
        family_set(&mut self.tx_deferred_gauge, &labels1(port.clone()), opt_i64_value(stats.tx_deferred));
        family_set(&mut self.tx_late_gauge, &labels1(port.clone()), opt_i64_value(stats.tx_late));
        family_set(&mut self.tx_multicast_packets_gauge, &labels1(port.clone()), opt_i64_value(stats.tx_multicast_packets));
        family_set(&mut self.rx_fcs_packets_gauge, &labels1(port.clone()), opt_i64_value(stats.rx_fcs_packets));
        family_set(&mut self.tx_broadcast_packets_gauge, &labels1(port.clone()), opt_i64_value(stats.tx_broadcast_packets));
        family_set(&mut self.rx_err_packets_gauge, &labels1(port.clone()), opt_i64_value(stats.rx_err_packets));
        family_set(&mut self.rx_fragments_packets_gauge, &labels1(port.clone()), opt_i64_value(stats.rx_fragments_packets));
        family_set(&mut self.rx_bad_bytes_gauge, &labels1(port.clone()), opt_i64_value(stats.rx_bad_bytes));
        family_set(&mut self.rx_undersize_packets_gauge, &labels1(port.clone()), opt_i64_value(stats.rx_undersize_packets));
        let link = text_or_default(&port_status.link);
        family_set(&mut self.port_status_gauge, &labels1(port.clone()), flag_value(str_eq(link.as_str(), "up")));
        let speed_text = text_or(&port_status.speed, "0");
        let speed = match parse_i64(speed_text.as_str()) {
            Some(v) => v,
            None => 0,
        };
        family_set(&mut self.port_speed_gauge, &labels1(port.clone()), speed);
        put_port_hosts(&mut self.port_mac_list_gauge, &port, port_status);
    }

    /// The families as a refresh leaves them: cleared, then one child per port, in
    /// order, set from the port's status and counters.
    pub open spec fn shows_ports(&self, ports: Seq<SwitchPortStatus>, stats: Seq<SwitchPortStats>) -> bool {
        &&& self.rx_packets_rate_gauge@ == put_ports(FamilyEntries::empty(), ports, stats, |p: SwitchPortStatus, s: SwitchPortStats| opt_i64(s.rx_packets_rate))
        &&& self.rx_good_bytes_gauge@ == put_ports(FamilyEntries::empty(), ports, stats, |p: SwitchPortStatus, s: SwitchPortStats| opt_i64(s.rx_good_bytes))
        &&& self.rx_oversize_packets_gauge@ == put_ports(FamilyEntries::empty(), ports, stats, |p: SwitchPortStatus, s: SwitchPortStats| opt_i64(s.rx_oversize_packets))
        &&& self.rx_unicast_packets_gauge@ == put_ports(FamilyEntries::empty(), ports, stats, |p: SwitchPortStatus, s: SwitchPortStats| opt_i64(s.rx_unicast_packets))
        &&& self.tx_bytes_rate_gauge@ == put_ports(FamilyEntries::empty(), ports, stats, |p: SwitchPortStatus, s: SwitchPortStats| opt_i64(s.tx_bytes_rate))
        &&& self.tx_unicast_packets_gauge@ == put_ports(FamilyEntries::empty(), ports, stats, |p: SwitchPortStatus, s: SwitchPortStats| opt_i64(s.tx_unicast_packets))
        &&& self.rx_bytes_rate_gauge@ == put_ports(FamilyEntries::empty(), ports, stats, |p: SwitchPortStatus, s: SwitchPortStats| opt_i64(s.rx_bytes_rate))
        &&& self.tx_packets_gauge@ == put_ports(FamilyEntries::empty(), ports, stats, |p: SwitchPortStatus, s: SwitchPortStats| opt_i64(s.tx_packets))
        &&& self.tx_collisions_gauge@ == put_ports(FamilyEntries::empty(), ports, stats, |p: SwitchPortStatus, s: SwitchPortStats| opt_i64(s.tx_collisions))
        &&& self.tx_packets_rate_gauge@ == put_ports(FamilyEntries::empty(), ports, stats, |p: SwitchPortStatus, s: SwitchPortStats| opt_i64(s.tx_packets_rate))
        &&& self.tx_fcs_gauge@ == put_ports(FamilyEntries::empty(), ports, stats, |p: SwitchPortStatus, s: SwitchPortStats| opt_i64(s.tx_fcs))
        &&& self.tx_bytes_gauge@ == put_ports(FamilyEntries::empty(), ports, stats, |p: SwitchPortStatus, s: SwitchPortStats| opt_i64(s.tx_bytes))
        &&& self.rx_jabber_packets_gauge@ == put_ports(FamilyEntries::empty(), ports, stats, |p: SwitchPortStatus, s: SwitchPortStats| opt_i64(s.rx_jabber_packets))
        &&& self.tx_single_gauge@ == put_ports(FamilyEntries::empty(), ports, stats, |p: SwitchPortStatus, s: SwitchPortStats| opt_i64(s.tx_single))
        &&& self.tx_excessive_gauge@ == put_ports(FamilyEntries::empty(), ports, stats, |p: SwitchPortStatus, s: SwitchPortStats| opt_i64(s.tx_excessive))
        &&& self.rx_pause_gauge@ == put_ports(FamilyEntries::empty(), ports, stats, |p: SwitchPortStatus, s: SwitchPortStats| opt_i64(s.rx_pause))
        &&& self.rx_multicast_packets_gauge@ == put_ports(FamilyEntries::empty(), ports, stats, |p: SwitchPortStatus, s: SwitchPortStats| opt_i64(s.rx_multicast_packets))
        &&& self.tx_pause_gauge@ == put_ports(FamilyEntries::empty(), ports, stats, |p: SwitchPortStatus, s: SwitchPortStats| opt_i64(s.tx_pause))
        &&& self.rx_good_packets_gauge@ == put_ports(FamilyEntries::empty(), ports, stats, |p: SwitchPortStatus, s: SwitchPortStats| opt_i64(s.rx_good_packets))
        &&& self.rx_broadcast_packets_gauge@ == put_ports(FamilyEntries::empty(), ports, stats, |p: SwitchPortStatus, s: SwitchPortStats| opt_i64(s.rx_broadcast_packets))
        &&& self.tx_multiple_gauge@ == put_ports(FamilyEntries::empty(), ports, stats, |p: SwitchPortStatus, s: SwitchPortStats| opt_i64(s.tx_multiple))
        &&& self.tx_deferred_gauge@ == put_ports(FamilyEntries::empty(), ports, stats, |p: SwitchPortStatus, s: SwitchPortStats| opt_i64(s.tx_deferred))
        &&& self.tx_late_gauge@ == put_ports(FamilyEntries::empty(), ports, stats, |p: SwitchPortStatus, s: SwitchPortStats| opt_i64(s.tx_late))
        &&& self.tx_multicast_packets_gauge@ == put_ports(FamilyEntries::empty(), ports, stats, |p: SwitchPortStatus, s: SwitchPortStats| opt_i64(s.tx_multicast_packets))
        &&& self.rx_fcs_packets_gauge@ == put_ports(FamilyEntries::empty(), ports, stats, |p: SwitchPortStatus, s: SwitchPortStats| opt_i64(s.rx_fcs_packets))
        &&& self.tx_broadcast_packets_gauge@ == put_ports(FamilyEntries::empty(), ports, stats, |p: SwitchPortStatus, s: SwitchPortStats| opt_i64(s.tx_broadcast_packets))
        &&& self.rx_err_packets_gauge@ == put_ports(FamilyEntries::empty(), ports, stats, |p: SwitchPortStatus, s: SwitchPortStats| opt_i64(s.rx_err_packets))
        &&& self.rx_fragments_packets_gauge@ == put_ports(FamilyEntries::empty(), ports, stats, |p: SwitchPortStatus, s: SwitchPortStats| opt_i64(s.rx_fragments_packets))
        &&& self.rx_bad_bytes_gauge@ == put_ports(FamilyEntries::empty(), ports, stats, |p: SwitchPortStatus, s: SwitchPortStats| opt_i64(s.rx_bad_bytes))
        &&& self.rx_undersize_packets_gauge@ == put_ports(FamilyEntries::empty(), ports, stats, |p: SwitchPortStatus, s: SwitchPortStats| opt_i64(s.rx_undersize_packets))
        &&& self.port_status_gauge@ == put_ports(FamilyEntries::empty(), ports, stats, |p: SwitchPortStatus, s: SwitchPortStats| flag(opt_text(p.link) == "up"@))
        &&& self.port_speed_gauge@ == put_ports(FamilyEntries::empty(), ports, stats, |p: SwitchPortStatus, s: SwitchPortStats| port_speed(p))
        &&& self.port_mac_list_gauge@ == put_ports_hosts(FamilyEntries::empty(), ports)
    }

    /// A whole refresh: every family cleared, then each port set from its status and
    /// counters, in order.
    pub fn set_ports(&mut self, ports: &Vec<SwitchPortStatus>, stats: &Vec<SwitchPortStats>)
        requires
            old(self).well_formed(),
            ports.len() == stats.len(),
        ensures
            final(self).well_formed(),
            final(self).names_of() == old(self).names_of(),
            final(self).shows_ports(ports@, stats@),
    {
        self.reset_all();
        let mut i: usize = 0;
        while i < ports.len()
            invariant
                i <= ports.len() == stats.len(),
                self.well_formed(),
                self.names_of() == old(self).names_of(),
                self.shows_ports(ports@.take(i as int), stats@.take(i as int)),
            decreases ports.len() - i,
        {
            self.set_port(&ports[i], &stats[i]);
            assert(ports@.take(i as int + 1).drop_last() =~= ports@.take(i as int));
            assert(stats@.take(i as int + 1).drop_last() =~= stats@.take(i as int));
            i = i + 1;
        }
        assert(ports@.take(ports.len() as int) =~= ports@);
        assert(stats@.take(stats.len() as int) =~= stats@);
    }
}


/// The pattern of a host list that the box sends as an object, `{}`, where the API
/// promises an array.
pub const MALFORMED_MAC_LIST: &'static str = "\"mac_list\"[^\\[]+\\{\\s{0,}}";

/// What such a host list is replaced with: an empty array.
pub const EMPTY_MAC_LIST: &'static str = "\"mac_list\":[]";

/// The text with every match of a regular expression replaced (`$` names a group in
/// the replacement); None when the pattern is not a valid regular expression.
pub uninterp spec fn regex_replace_all(pattern: Seq<char>, haystack: Seq<char>, replacement: Seq<char>) -> Option<Seq<char>>;

/// `regex::Regex::new` then `Regex::replace_all`: the text with every leftmost-first,
/// non-overlapping match of `pattern` replaced; None when `Regex::new` refuses the
/// pattern. What the replacement of a given text is, is left to the regex crate.
#[verifier::external_body]
fn replace_all_matches(pattern: &str, haystack: &str, replacement: &str) -> (r: Option<String>)
    ensures
        match r {
            Some(s) => regex_replace_all(pattern@, haystack@, replacement@) == Some(s@),
            None => regex_replace_all(pattern@, haystack@, replacement@) is None,
        },
{
    match regex::Regex::new(pattern) {
        Ok(re) => Some(re.replace_all(haystack, replacement).into_owned()),
        Err(_) => None,
    }
}

/// The switch status with every host list sent as `{}` turned into `[]`, so that it
/// decodes; an error only if the pattern does not compile.
pub fn handle_malformed_mac_list(res: &str) -> (r: Result<String, FreeboxResponseError>)
    ensures
        r matches Ok(s) ==> regex_replace_all(MALFORMED_MAC_LIST@, res@, EMPTY_MAC_LIST@) == Some(s@),
        r is Err ==> regex_replace_all(MALFORMED_MAC_LIST@, res@, EMPTY_MAC_LIST@) is None,
{
    match replace_all_matches(MALFORMED_MAC_LIST, res, EMPTY_MAC_LIST) {
        Some(s) => Ok(s),
        None => Err(FreeboxResponseError::new(String::from_str("invalid mac_list pattern"))),
    }
}

/// The port statuses of a successful answer; a failed one gives its message, one
/// without payload says the status answer was empty.
pub fn ports_status_result(resp: FreeboxResponse<Vec<SwitchPortStatus>>) -> (r: Result<Vec<SwitchPortStatus>, FreeboxResponseError>)
    ensures
        !succeeded(resp) ==> (r matches Err(e) && e.reason@ == opt_text(resp.msg)),
        succeeded(resp) && resp.result is None ==> (r matches Err(e) && e.reason@ == "v4/switch/status/ response was empty"@),
        succeeded(resp) && resp.result is Some ==> r == Ok::<Vec<SwitchPortStatus>, FreeboxResponseError>(resp.result.unwrap()),
{
    expect_result(resp, String::from_str("v4/switch/status/ response was empty"))
}

/// The counters of a port from a successful answer; a failed one gives its message,
/// one without payload says which port's answer was empty.
pub fn port_stats_result(resp: FreeboxResponse<SwitchPortStats>, port_id: i16) -> (r: Result<SwitchPortStats, FreeboxResponseError>)
    ensures
        !succeeded(resp) ==> (r matches Err(e) && e.reason@ == opt_text(resp.msg)),
        succeeded(resp) && resp.result is None ==> (r matches Err(e)
            && e.reason@ == "v4/switch/port/"@ + int_to_decimal(port_id as int) + "/stats response was empty"@),
        succeeded(resp) && resp.result is Some ==> r == Ok::<SwitchPortStats, FreeboxResponseError>(resp.result.unwrap()),
{
    let head = concat("v4/switch/port/", i64_to_decimal(port_id as i64).as_str());
    expect_result(resp, concat(head.as_str(), "/stats response was empty"))
}

/// The texts joined with `sep` between consecutive ones.
pub open spec fn join(parts: Seq<Seq<char>>, sep: Seq<char>) -> Seq<char>
    decreases parts.len(),
{
    if parts.len() == 0 {
        Seq::empty()
    } else if parts.len() == 1 {
        parts[0]
    } else {
        join(parts.drop_last(), sep) + sep + parts.last()
    }
}

/// The document a dry run of the switch writes: the raw status answer and the raw
/// counters answer of each port, in order.
pub fn switch_dry_run_document(status: &str, stats: &Vec<String>) -> (doc: String)
    ensures
        doc@ == "{\"status\":"@ + status@ + ",\"stats\":["@ + join(label_view(stats@), ","@) + "]}"@,
{
    let mut result = concat("{\"status\":", status);
    result.append(",\"stats\":[");
    let ghost head = result@;
    let mut i: usize = 0;
    while i < stats.len()
        invariant
            i <= stats.len(),
            result@ == head + join(label_view(stats@.take(i as int)), ","@),
        decreases stats.len() - i,
    {
        assert(label_view(stats@.take(i as int + 1)).drop_last() =~= label_view(stats@.take(i as int)));
        assert(label_view(stats@.take(i as int + 1)).last() == stats@[i as int]@);
        if i > 0 {
            result.append(",");
        }
        result.append(stats[i].as_str());
        i = i + 1;
    }
    assert(stats@.take(stats.len() as int) =~= stats@);
    result.append("]}");
    result
}

}
