//! Metric maps: each turns one kind of Freebox API answer into gauge values.
//!
//! A map owns its gauges. `reset_all` clears them; the `set_*` functions write the
//! values of an answer that was already fetched and decoded.
use crate::capabilities::Capabilities;
use crate::configuration::{ApiConfiguration, CapabilitiesConfiguration};
use crate::gauge::{gauge_error_name, label_view, valid_prefix, GaugeError};
use connection::ConnectionMetricMap;
use dhcp::DhcpMetricMap;
use lan::LanMetricMap;
use lanbrowser::LanBrowserMetricMap;
use switch::SwitchMetricMap;
use system::SystemMetricMap;
use wifi::WifiMetricMap;
use vstd::prelude::*;

pub mod connection;
pub mod dhcp;
pub mod download;
pub mod lan;
pub mod lanbrowser;
pub mod nas;
pub mod switch;
pub mod system;
pub mod wifi;

verus! {

/// The text of an optional string, empty when absent (`unwrap_or_default`).
pub open spec fn opt_text(o: Option<String>) -> Seq<char> {
    match o {
        Some(s) => s@,
        None => Seq::empty(),
    }
}

/// The text of an optional string, or `default` when absent (`unwrap_or`).
pub open spec fn opt_text_or(o: Option<String>, default: Seq<char>) -> Seq<char> {
    match o {
        Some(s) => s@,
        None => default,
    }
}

/// A boolean as a gauge value: 1 for `true`, 0 for `false`.
pub open spec fn flag(b: bool) -> i64 {
    if b { 1 } else { 0 }
}

/// An optional boolean as a gauge value, absent counting as `false`.
pub open spec fn opt_flag(o: Option<bool>) -> i64 {
    match o {
        Some(b) => flag(b),
        None => 0,
    }
}

/// An optional integer, 0 when absent (`unwrap_or_default`).
pub open spec fn opt_i64(o: Option<i64>) -> i64 {
    match o {
        Some(v) => v,
        None => 0,
    }
}

/// How optional readings become gauge values and labels: a reported integer is shown as
/// it is and an absent one as 0; a flag is 1 exactly when it is reported `true`; a
/// reported text is used as it is, an absent one gives the default (empty unless given).
pub proof fn lemma_optional_readings(o: Option<i64>, b: Option<bool>, t: Option<String>, default: Seq<char>)
    ensures
        o matches Some(v) ==> opt_i64(o) == v,
        o is None ==> opt_i64(o) == 0,
        opt_flag(b) == 1 <==> b == Some(true),
        opt_flag(b) == 0 <==> b != Some(true),
        t matches Some(s) ==> opt_text(t) == s@ && opt_text_or(t, default) == s@,
        t is None ==> opt_text(t) == Seq::<char>::empty() && opt_text_or(t, default) == default,
{
}

/// The text of an optional string, empty when absent.
pub fn text_or_default(o: &Option<String>) -> (s: String)
    ensures
        s@ == opt_text(*o),
{
    match o {
        Some(s) => s.clone(),
        None => String::new(),
    }
}

/// The text of an optional string, or `default` when absent.
pub fn text_or(o: &Option<String>, default: &str) -> (s: String)
    ensures
        s@ == opt_text_or(*o, default@),
{
    match o {
        Some(s) => s.clone(),
        None => String::from_str(default),
    }
}

/// A boolean as a gauge value.
pub fn flag_value(b: bool) -> (v: i64)
    ensures
        v == flag(b),
{
    if b { 1 } else { 0 }
}

/// An optional boolean as a gauge value.
pub fn opt_flag_value(o: Option<bool>) -> (v: i64)
    ensures
        v == opt_flag(o),
{
    match o {
        Some(b) => flag_value(b),
        None => 0,
    }
}

/// An optional integer, 0 when absent.
pub fn opt_i64_value(o: Option<i64>) -> (v: i64)
    ensures
        v == opt_i64(o),
{
    match o {
        Some(v) => v,
        None => 0,
    }
}

/// Adds one label value at the end of a label list.
pub fn push_label(v: &mut Vec<String>, s: String)
    ensures
        final(v).len() == old(v).len() + 1,
        label_view(final(v)@) == label_view(old(v)@).push(s@),
{
    let ghost s_view = s@;
    v.push(s);
    assert(label_view(v@) =~= label_view(old(v)@).push(s_view));
}

/// A list of one label value.
pub fn labels1(a: String) -> (v: Vec<String>)
    ensures
        v.len() == 1,
        label_view(v@) == seq![a@],
{
    let mut v: Vec<String> = Vec::new();
    assert(label_view(v@) =~= Seq::<Seq<char>>::empty());
    push_label(&mut v, a);
    v
}


/// An optional `i32`, widened, 0 when absent.
pub open spec fn opt_i32(o: Option<i32>) -> i64 {
    match o {
        Some(v) => v as i64,
        None => 0,
    }
}

/// An optional `i16`, widened, 0 when absent.
pub open spec fn opt_i16(o: Option<i16>) -> i64 {
    match o {
        Some(v) => v as i64,
        None => 0,
    }
}

/// An optional `u32`, widened, 0 when absent.
pub open spec fn opt_u32(o: Option<u32>) -> i64 {
    match o {
        Some(v) => v as i64,
        None => 0,
    }
}

/// An optional `u16`, widened, 0 when absent.
pub open spec fn opt_u16(o: Option<u16>) -> i64 {
    match o {
        Some(v) => v as i64,
        None => 0,
    }
}

/// Narrower optional readings are shown as the same number when reported and as 0 when
/// absent, whatever their width or sign.
pub proof fn lemma_optional_numbers(a: Option<i32>, b: Option<i16>, c: Option<u32>, d: Option<u16>)
    ensures
        a matches Some(v) ==> opt_i32(a) == v as int,
        b matches Some(v) ==> opt_i16(b) == v as int,
        c matches Some(v) ==> opt_u32(c) == v as int,
        d matches Some(v) ==> opt_u16(d) == v as int,
        a is None ==> opt_i32(a) == 0,
        b is None ==> opt_i16(b) == 0,
        c is None ==> opt_u32(c) == 0,
        d is None ==> opt_u16(d) == 0,
{
}

/// An optional `i32`, widened, 0 when absent.
pub fn opt_i32_value(o: Option<i32>) -> (v: i64)
    ensures
        v == opt_i32(o),
{
    match o {
        Some(v) => v as i64,
        None => 0,
    }
}

/// An optional `i16`, widened, 0 when absent.
pub fn opt_i16_value(o: Option<i16>) -> (v: i64)
    ensures
        v == opt_i16(o),
{
    match o {
        Some(v) => v as i64,
        None => 0,
    }
}

/// An optional `u32`, widened, 0 when absent.
pub fn opt_u32_value(o: Option<u32>) -> (v: i64)
    ensures
        v == opt_u32(o),
{
    match o {
        Some(v) => v as i64,
        None => 0,
    }
}

/// An optional `u16`, widened, 0 when absent.
pub fn opt_u16_value(o: Option<u16>) -> (v: i64)
    ensures
        v == opt_u16(o),
{
    match o {
        Some(v) => v as i64,
        None => 0,
    }
}

/// A list of two label values.
pub fn labels2(a: String, b: String) -> (v: Vec<String>)
    ensures
        v.len() == 2,
        label_view(v@) == seq![a@, b@],
{
    let mut v = labels1(a);
    push_label(&mut v, b);
    v
}

/// A list of three label values.
pub fn labels3(a: String, b: String, c: String) -> (v: Vec<String>)
    ensures
        v.len() == 3,
        label_view(v@) == seq![a@, b@, c@],
{
    let mut v = labels2(a, b);
    push_label(&mut v, c);
    v
}


/// The metric maps there are.
#[derive(Clone, Copy, Debug, PartialEq, Eq, Structural)]
pub enum MapKind {
    Connection,
    System,
    Lan,
    LanBrowser,
    Switch,
    Wifi,
    Dhcp,
}

/// A metric map of any kind.
pub enum MetricMapInstance {
    Connection(ConnectionMetricMap),
    System(SystemMetricMap),
    Lan(LanMetricMap),
    LanBrowser(LanBrowserMetricMap),
    Switch(SwitchMetricMap),
    Wifi(WifiMetricMap),
    Dhcp(DhcpMetricMap),
}

impl MetricMapInstance {
    /// The kind of the map.
    pub open spec fn kind(&self) -> MapKind {
        match self {
            MetricMapInstance::Connection(_) => MapKind::Connection,
            MetricMapInstance::System(_) => MapKind::System,
            MetricMapInstance::Lan(_) => MapKind::Lan,
            MetricMapInstance::LanBrowser(_) => MapKind::LanBrowser,
            MetricMapInstance::Switch(_) => MapKind::Switch,
            MetricMapInstance::Wifi(_) => MapKind::Wifi,
            MetricMapInstance::Dhcp(_) => MapKind::Dhcp,
        }
    }

    /// The map is well formed, holds no value yet and its metrics are named after `prefix`.
    #[verifier::opaque]
    pub open spec fn fresh(&self, prefix: Seq<char>) -> bool {
        match self {
            MetricMapInstance::Connection(m) => m.well_formed() && m.is_cleared() && m.named(prefix),
            MetricMapInstance::System(m) => m.well_formed() && m.is_cleared() && m.named(prefix),
            MetricMapInstance::Lan(m) => m.well_formed() && m.is_cleared() && m.named(prefix),
            MetricMapInstance::LanBrowser(m) => m.well_formed() && m.is_cleared() && m.named(prefix),
            MetricMapInstance::Switch(m) => m.well_formed() && m.is_cleared() && m.named(prefix),
            MetricMapInstance::Wifi(m) => m.well_formed() && m.is_cleared() && m.named(prefix),
            MetricMapInstance::Dhcp(m) => m.well_formed() && m.is_cleared() && m.named(prefix),
        }
    }
}

/// A configuration switch is on only when it says so.
pub open spec fn is_on(o: Option<bool>) -> bool {
    o == Some(true)
}

/// `[k]` when `on`, else nothing.
pub open spec fn kind_if(on: bool, k: MapKind) -> Seq<MapKind> {
    if on { seq![k] } else { Seq::empty() }
}

/// The maps a configuration asks for, in order: connection, system, LAN, LAN browser
/// (only when the box is in router mode), switch, Wi-Fi and DHCP.
pub open spec fn planned_maps(conf: CapabilitiesConfiguration, caps: Capabilities) -> Seq<MapKind> {
    kind_if(is_on(conf.connection), MapKind::Connection)
        + kind_if(is_on(conf.system), MapKind::System)
        + kind_if(is_on(conf.lan), MapKind::Lan)
        + kind_if(is_on(conf.lan_browser) && opt_text(caps.network_mode) == "router"@, MapKind::LanBrowser)
        + kind_if(is_on(conf.switch), MapKind::Switch)
        + kind_if(is_on(conf.wifi), MapKind::Wifi)
        + kind_if(is_on(conf.dhcp), MapKind::Dhcp)
}

/// The refresh interval in seconds (5 when absent), as chrono takes it.
pub open spec fn refresh_seconds(api: ApiConfiguration) -> i64 {
    (match api.refresh {
        Some(r) => r,
        None => 5u64,
    }) as i64
}

/// The maps are of the given kinds, in order, fresh and named after `prefix`; a Wi-Fi
/// map keeps `ttl` milliseconds of channel history.
pub open spec fn built(maps: Seq<MetricMapInstance>, kinds: Seq<MapKind>, prefix: Seq<char>, ttl: int) -> bool {
    &&& maps.len() == kinds.len()
    &&& forall|i: int| 0 <= i < maps.len() ==> (#[trigger] maps[i]).kind() == kinds[i] && maps[i].fresh(prefix)
    &&& forall|i: int| 0 <= i < maps.len() ==> (#[trigger] maps[i] matches MetricMapInstance::Wifi(w) ==> w.history_ttl_ms == ttl)
}

/// Every metric map the exporter feeds.
pub struct Mapper {
    pub maps: Vec<MetricMapInstance>,
}

impl Mapper {
    /// Makes the maps the configuration asks for, in order, named after its prefix; the
    /// Wi-Fi map keeps one refresh interval of channel history.
    #[verifier::rlimit(60)]
    pub fn new(conf: CapabilitiesConfiguration, capabilities: Capabilities, api_conf: ApiConfiguration) -> (r: Result<Mapper, GaugeError>)
        requires
            planned_maps(conf, capabilities).len() > 0 ==> conf.prefix is Some,
            is_on(conf.wifi) ==> -(i64::MAX / 1000) <= refresh_seconds(api_conf) <= i64::MAX / 1000,
        ensures
            r matches Ok(m) ==> built(m.maps@, planned_maps(conf, capabilities), conf.prefix.unwrap()@, refresh_seconds(api_conf) * 1000),
            r matches Err(e) ==> exists|i: int|
                0 <= i < planned_maps(conf, capabilities).len()
                    && #[trigger] kind_metric_name(planned_maps(conf, capabilities)[i], conf.prefix.unwrap()@, gauge_error_name(e)),
            planned_maps(conf, capabilities).len() > 0
                ==> ((r matches Err(e) && e is Creation) <==> !valid_prefix(conf.prefix.unwrap()@)),
    {
        let kinds = plan_maps(&conf, &capabilities);
        let secs: i64 = match api_conf.refresh {
            Some(r) => r as i64,
            None => 5,
        };
        let ttl_ms: i64 = if is_on_value(conf.wifi) { secs * 1000 } else { 0 };
        let mut maps: Vec<MetricMapInstance> = Vec::new();
        let mut i: usize = 0;
        while i < kinds.len()
            invariant
                i <= kinds.len(),
                kinds@ == planned_maps(conf, capabilities),
                kinds.len() > 0 ==> conf.prefix is Some,
                is_on(conf.wifi) ==> ttl_ms == refresh_seconds(api_conf) * 1000,
                forall|j: int| 0 <= j < kinds.len() && kinds@[j] == MapKind::Wifi ==> is_on(conf.wifi),
                built(maps@, kinds@.take(i as int), conf.prefix.unwrap()@, refresh_seconds(api_conf) * 1000),
                i > 0 ==> valid_prefix(conf.prefix.unwrap()@),
            decreases kinds.len() - i,
        {
            let m = match make_map(kinds[i], conf.prefix.as_ref().unwrap().clone(), ttl_ms) {
                Ok(m) => m,
                Err(e) => {
                    assert(kind_metric_name(kinds@[i as int], conf.prefix.unwrap()@, gauge_error_name(e)));
                    return Err(e);
                },
            };
            maps.push(m);
            i = i + 1;
            assert(kinds@.take(i as int).drop_last() =~= kinds@.take(i as int - 1));
        }
        assert(kinds@.take(kinds.len() as int) =~= kinds@);
        Ok(Mapper { maps })
    }
}

/// Whether `n` is the name of one of the metrics of a map of the given kind under
/// `prefix`.
pub open spec fn kind_metric_name(kind: MapKind, prefix: Seq<char>, n: Seq<char>) -> bool {
    match kind {
        MapKind::Connection => ConnectionMetricMap::is_metric_name(prefix, n),
        MapKind::System => SystemMetricMap::is_metric_name(prefix, n),
        MapKind::Lan => LanMetricMap::is_metric_name(prefix, n),
        MapKind::LanBrowser => LanBrowserMetricMap::is_metric_name(prefix, n),
        MapKind::Switch => SwitchMetricMap::is_metric_name(prefix, n),
        MapKind::Wifi => WifiMetricMap::is_metric_name(prefix, n),
        MapKind::Dhcp => DhcpMetricMap::is_metric_name(prefix, n),
    }
}

/// A new map of the given kind, named after `prefix`; a Wi-Fi map keeps `ttl_ms`
/// milliseconds of channel history.
fn make_map(kind: MapKind, prefix: String, ttl_ms: i64) -> (r: Result<MetricMapInstance, GaugeError>)
    ensures
        r matches Ok(i) ==> i.kind() == kind && i.fresh(prefix@) && (i matches MetricMapInstance::Wifi(w) ==> w.history_ttl_ms == ttl_ms),
        r matches Err(e) ==> kind_metric_name(kind, prefix@, gauge_error_name(e)),
        (r matches Err(e) && e is Creation) <==> !valid_prefix(prefix@),
{
    proof { reveal(MetricMapInstance::fresh); }
    match kind {
        MapKind::Connection => match ConnectionMetricMap::new(prefix) {
            Ok(m) => Ok(MetricMapInstance::Connection(m)),
            Err(e) => Err(e),
        },
        MapKind::System => match SystemMetricMap::new(prefix) {
            Ok(m) => Ok(MetricMapInstance::System(m)),
            Err(e) => Err(e),
        },
        MapKind::Lan => match LanMetricMap::new(prefix) {
            Ok(m) => Ok(MetricMapInstance::Lan(m)),
            Err(e) => Err(e),
        },
        MapKind::LanBrowser => match LanBrowserMetricMap::new(prefix) {
            Ok(m) => Ok(MetricMapInstance::LanBrowser(m)),
            Err(e) => Err(e),
        },
        MapKind::Switch => match SwitchMetricMap::new(prefix) {
            Ok(m) => Ok(MetricMapInstance::Switch(m)),
            Err(e) => Err(e),
        },
        MapKind::Wifi => match WifiMetricMap::new(prefix, ttl_ms) {
            Ok(m) => Ok(MetricMapInstance::Wifi(m)),
            Err(e) => Err(e),
        },
        MapKind::Dhcp => match DhcpMetricMap::new(prefix) {
            Ok(m) => Ok(MetricMapInstance::Dhcp(m)),
            Err(e) => Err(e),
        },
    }
}

/// The kinds of maps a configuration asks for, in order.
fn plan_maps(conf: &CapabilitiesConfiguration, capabilities: &Capabilities) -> (v: Vec<MapKind>)
    ensures
        v@ == planned_maps(*conf, *capabilities),
        forall|j: int| 0 <= j < v.len() && v@[j] == MapKind::Wifi ==> is_on(conf.wifi),
{
    let mut v: Vec<MapKind> = Vec::new();
    push_if(&mut v, is_on_value(conf.connection), MapKind::Connection);
    push_if(&mut v, is_on_value(conf.system), MapKind::System);
    push_if(&mut v, is_on_value(conf.lan), MapKind::Lan);
    let mode = text_or_default(&capabilities.network_mode);
    let router = crate::text::str_eq(mode.as_str(), "router");
    push_if(&mut v, is_on_value(conf.lan_browser) && router, MapKind::LanBrowser);
    push_if(&mut v, is_on_value(conf.switch), MapKind::Switch);
    push_if(&mut v, is_on_value(conf.wifi), MapKind::Wifi);
    push_if(&mut v, is_on_value(conf.dhcp), MapKind::Dhcp);
    assert(v@ =~= planned_maps(*conf, *capabilities));
    v
}

/// Adds `k` at the end when `on`.
fn push_if(v: &mut Vec<MapKind>, on: bool, k: MapKind)
    ensures
        final(v)@ == old(v)@ + kind_if(on, k),
        forall|j: int| 0 <= j < final(v).len() ==> (j < old(v).len() && final(v)@[j] == old(v)@[j]) || (j == old(v).len() && on && final(v)@[j] == k),
{
    if on {
        v.push(k);
    }
    assert(v@ =~= old(v)@ + kind_if(on, k));
}

/// Whether a configuration switch is on.
fn is_on_value(o: Option<bool>) -> (b: bool)
    ensures
        b == is_on(o),
{
    match o {
        Some(b) => b,
        None => false,
    }
}

}
