//! Metrics of the LAN browser (`v4/lan/browser/...`): interfaces and the hosts seen on them.
use super::{flag_value, labels1, labels2, opt_flag, opt_flag_value, opt_i32, opt_i32_value, opt_i64, opt_i64_value, opt_text, push_label, text_or_default};
use crate::gauge::{
    family_args_accepted, lemma_prefixed_name_valid, valid_label_name, valid_prefix,
    family_help, family_label_names,
    family_arity, family_name, family_put, family_reset, family_set, int_gauge_name, int_gauge_set,
    make_family, make_int_gauge, FamilyEntries, Gauge, gauge_error_name, GaugeError, GaugeFamily,
};
use crate::gauge::{family_value, label_key, label_view};
use crate::text::{bool_text, bool_to_string, concat};
use vstd::prelude::*;

verus! {

/// A network interface of the LAN browser.
#[derive(Clone, Debug)]
pub struct LanBrowserInterface {
    pub name: Option<String>,
    pub host_count: Option<i32>,
}

/// A host seen on the LAN.
#[derive(Clone, Debug)]
pub struct LanHost {
    pub id: Option<String>,
    pub primary_name: Option<String>,
    pub host_type: Option<String>,
    pub primary_name_manual: Option<bool>,
    pub l2ident: Option<LanHostL2Ident>,
    pub vendor_name: Option<String>,
    pub active: Option<bool>,
    pub last_activity: Option<i64>,
    pub names: Option<Vec<LanHostName>>,
    pub l3connectivities: Option<Vec<LanHostL3Connectivity>>,
}

/// A name a host is known by, and where it comes from.
#[derive(Clone, Debug)]
pub struct LanHostName {
    pub name: Option<String>,
    pub source: Option<String>,
}

/// The layer 2 identity of a host.
#[derive(Clone, Debug)]
pub struct LanHostL2Ident {
    pub id: Option<String>,
    pub _type: Option<String>,
}

/// A layer 3 address of a host.
#[derive(Clone, Debug)]
pub struct LanHostL3Connectivity {
    pub addr: Option<String>,
    pub af: Option<String>,
    pub active: Option<bool>,
}

/// The items of an optional list, none when absent.
pub open spec fn opt_seq<T>(o: Option<Vec<T>>) -> Seq<T> {
    match o {
        Some(v) => v@,
        None => Seq::empty(),
    }
}

/// The layer 2 identifier of a host, empty when unknown.
pub open spec fn host_ident(d: LanHost) -> Seq<char> {
    match d.l2ident {
        Some(l) => opt_text(l.id),
        None => Seq::empty(),
    }
}

/// The layer 2 identity type of a host, empty when unknown.
pub open spec fn host_ident_type(d: LanHost) -> Seq<char> {
    match d.l2ident {
        Some(l) => opt_text(l._type),
        None => Seq::empty(),
    }
}

/// The labels of a host's device child.
pub open spec fn device_labels(iface: Seq<char>, d: LanHost) -> Seq<Seq<char>> {
    seq![iface, opt_text(d.primary_name), opt_text(d.id), opt_text(d.host_type),
        bool_text(match d.primary_name_manual { Some(b) => b, None => false }),
        host_ident(d), host_ident_type(d), opt_text(d.vendor_name)]
}

/// The device family after one child per host, valued by whether it is active.
pub open spec fn put_devices(m: FamilyEntries, iface: Seq<char>, devs: Seq<LanHost>) -> FamilyEntries
    decreases devs.len(),
{
    if devs.len() == 0 {
        m
    } else {
        family_put(put_devices(m, iface, devs.drop_last()), device_labels(iface, devs.last()), opt_flag(devs.last().active))
    }
}

/// The last activity family after one child per host.
pub open spec fn put_last_activities(m: FamilyEntries, iface: Seq<char>, devs: Seq<LanHost>) -> FamilyEntries
    decreases devs.len(),
{
    if devs.len() == 0 {
        m
    } else {
        family_put(put_last_activities(m, iface, devs.drop_last()), seq![iface, opt_text(devs.last().primary_name)], opt_i64(devs.last().last_activity))
    }
}

/// Over the hosts of an interface, the device family shows, for each host whose labels
/// no later host shares a key with, 1 exactly when that host reports itself active,
/// and 0 when it reports itself inactive or says nothing; the last activity family
/// shows, under its interface and name, the host's last activity (0 when absent) when
/// no later host has the same name.
pub proof fn lemma_devices_show_their_activity(m: FamilyEntries, iface: Seq<char>, devs: Seq<LanHost>, i: int)
    requires
        0 <= i < devs.len(),
    ensures
        (forall|j: int| i < j < devs.len() ==> label_key(device_labels(iface, #[trigger] devs[j])) != label_key(device_labels(iface, devs[i])))
            ==> family_value(put_devices(m, iface, devs), device_labels(iface, devs[i]))
                == Some(if devs[i].active == Some(true) { 1i64 } else { 0i64 }),
        (forall|j: int| i < j < devs.len() ==> label_key(seq![iface, opt_text((#[trigger] devs[j]).primary_name)]) != label_key(seq![iface, opt_text(devs[i].primary_name)]))
            ==> family_value(put_last_activities(m, iface, devs), seq![iface, opt_text(devs[i].primary_name)])
                == Some(match devs[i].last_activity { Some(v) => v, None => 0i64 }),
    decreases devs.len(),
{
    if i < devs.len() - 1 {
        let t = devs.drop_last();
        lemma_devices_show_their_activity(m, iface, t, i);
        assert(t[i] == devs[i]);
        assert forall|j: int| i < j < t.len() implies t[j] == devs[j] by {}
    }
}

/// The address family after one child per address of one host, valued by whether it is active.
pub open spec fn put_l3s(m: FamilyEntries, ident: Seq<char>, iface: Seq<char>, primary: Seq<char>, l3s: Seq<LanHostL3Connectivity>) -> FamilyEntries
    decreases l3s.len(),
{
    if l3s.len() == 0 {
        m
    } else {
        family_put(put_l3s(m, ident, iface, primary, l3s.drop_last()),
            seq![ident, iface, opt_text(l3s.last().addr), primary, opt_text(l3s.last().af)], opt_flag(l3s.last().active))
    }
}

/// Each address of a host whose labels no later address shares a key with shows 1
/// exactly when the address reports itself active, and 0 otherwise.
pub proof fn lemma_addresses_show_their_activity(m: FamilyEntries, ident: Seq<char>, iface: Seq<char>, primary: Seq<char>, l3s: Seq<LanHostL3Connectivity>, i: int)
    requires
        0 <= i < l3s.len(),
        forall|j: int| i < j < l3s.len() ==> label_key(seq![ident, iface, opt_text((#[trigger] l3s[j]).addr), primary, opt_text(l3s[j].af)])
            != label_key(seq![ident, iface, opt_text(l3s[i].addr), primary, opt_text(l3s[i].af)]),
    ensures
        family_value(put_l3s(m, ident, iface, primary, l3s), seq![ident, iface, opt_text(l3s[i].addr), primary, opt_text(l3s[i].af)])
            == Some(if l3s[i].active == Some(true) { 1i64 } else { 0i64 }),
    decreases l3s.len(),
{
    if i < l3s.len() - 1 {
        let t = l3s.drop_last();
        assert forall|j: int| i < j < t.len() implies label_key(seq![ident, iface, opt_text((#[trigger] t[j]).addr), primary, opt_text(t[j].af)])
            != label_key(seq![ident, iface, opt_text(t[i].addr), primary, opt_text(t[i].af)]) by {
            assert(t[j] == l3s[j]);
        }
        lemma_addresses_show_their_activity(m, ident, iface, primary, t, i);
        assert(t[i] == l3s[i]);
    }
}

/// The address family after the addresses of every host.
pub open spec fn put_devices_l3s(m: FamilyEntries, iface: Seq<char>, devs: Seq<LanHost>) -> FamilyEntries
    decreases devs.len(),
{
    if devs.len() == 0 {
        m
    } else {
        let d = devs.last();
        put_l3s(put_devices_l3s(m, iface, devs.drop_last()), host_ident(d), iface, opt_text(d.primary_name), opt_seq(d.l3connectivities))
    }
}

/// The name family after one child at 1 per name of one host.
pub open spec fn put_names(m: FamilyEntries, ident: Seq<char>, iface: Seq<char>, names: Seq<LanHostName>) -> FamilyEntries
    decreases names.len(),
{
    if names.len() == 0 {
        m
    } else {
        family_put(put_names(m, ident, iface, names.drop_last()),
            seq![opt_text(names.last().name), opt_text(names.last().source), ident, iface], 1)
    }
}

/// The name family after the names of every host.
pub open spec fn put_devices_names(m: FamilyEntries, iface: Seq<char>, devs: Seq<LanHost>) -> FamilyEntries
    decreases devs.len(),
{
    if devs.len() == 0 {
        m
    } else {
        let d = devs.last();
        put_names(put_devices_names(m, iface, devs.drop_last()), host_ident(d), iface, opt_seq(d.names))
    }
}

fn ident_parts(d: &LanHost) -> (r: (String, String))
    ensures
        r.0@ == host_ident(*d),
        r.1@ == host_ident_type(*d),
{
    match &d.l2ident {
        Some(l) => (text_or_default(&l.id), text_or_default(&l._type)),
        None => (String::new(), String::new()),
    }
}

fn put_host_l3s(f: &mut GaugeFamily, ident: &String, iface: &String, primary: &String, l3s: &Option<Vec<LanHostL3Connectivity>>)
    requires
        family_arity(*old(f)) == 5,
    ensures
        family_arity(*final(f)) == 5,
        family_name(*final(f)) == family_name(*old(f)),
        final(f)@ == put_l3s(old(f)@, ident@, iface@, primary@, opt_seq(*l3s)),
{
    if let Some(v) = l3s {
        let mut i: usize = 0;
        while i < v.len()
            invariant
                i <= v.len(),
                family_arity(*f) == 5,
                family_name(*f) == family_name(*old(f)),
                f@ == put_l3s(old(f)@, ident@, iface@, primary@, v@.take(i as int)),
            decreases v.len() - i,
        {
            let l3 = &v[i];
            assert(v@.take(i as int + 1).drop_last() =~= v@.take(i as int));
            let mut labels = labels2(ident.clone(), iface.clone());
            push_label(&mut labels, text_or_default(&l3.addr));
            push_label(&mut labels, primary.clone());
            push_label(&mut labels, text_or_default(&l3.af));
            assert(label_view(labels@) =~= seq![ident@, iface@, opt_text(l3.addr), primary@, opt_text(l3.af)]);
            family_set(f, &labels, opt_flag_value(l3.active));
            i = i + 1;
        }
        assert(v@.take(v.len() as int) =~= v@);
    }
}

fn put_host_names(f: &mut GaugeFamily, ident: &String, iface: &String, names: &Option<Vec<LanHostName>>)
    requires
        family_arity(*old(f)) == 4,
    ensures
        family_arity(*final(f)) == 4,
        family_name(*final(f)) == family_name(*old(f)),
        final(f)@ == put_names(old(f)@, ident@, iface@, opt_seq(*names)),
{
    if let Some(v) = names {
        let mut i: usize = 0;
        while i < v.len()
            invariant
                i <= v.len(),
                family_arity(*f) == 4,
                family_name(*f) == family_name(*old(f)),
                f@ == put_names(old(f)@, ident@, iface@, v@.take(i as int)),
            decreases v.len() - i,
        {
            let n = &v[i];
            assert(v@.take(i as int + 1).drop_last() =~= v@.take(i as int));
            let mut labels = labels2(text_or_default(&n.name), text_or_default(&n.source));
            push_label(&mut labels, ident.clone());
            push_label(&mut labels, iface.clone());
            assert(label_view(labels@) =~= seq![opt_text(n.name), opt_text(n.source), ident@, iface@]);
            family_set(f, &labels, 1);
            i = i + 1;
        }
        assert(v@.take(v.len() as int) =~= v@);
    }
}

/// Gauges of the LAN browser.
pub struct LanBrowserMetricMap {
    pub device_gauge: GaugeFamily,
    pub device_l3_connectivity_gauge: GaugeFamily,
    pub device_last_activity: GaugeFamily,
    pub device_name_gauge: GaugeFamily,
    pub iface_gauge: GaugeFamily,
}

impl LanBrowserMetricMap {
    /// Every family takes as many label values as it was made with label names.
    pub open spec fn well_formed(&self) -> bool {
        &&& family_arity(self.device_gauge) == 8
        &&& family_arity(self.device_l3_connectivity_gauge) == 5
        &&& family_arity(self.device_last_activity) == 2
        &&& family_arity(self.device_name_gauge) == 4
        &&& family_arity(self.iface_gauge) == 1
    }

    /// No family has a child and every single gauge is at 0.
    pub open spec fn is_cleared(&self) -> bool {
        &&& self.device_gauge@ == FamilyEntries::empty()
        &&& self.device_l3_connectivity_gauge@ == FamilyEntries::empty()
        &&& self.device_last_activity@ == FamilyEntries::empty()
        &&& self.device_name_gauge@ == FamilyEntries::empty()
        &&& self.iface_gauge@ == FamilyEntries::empty()
    }

    /// The metric names, help texts and label names the gauges were made with.
    pub open spec fn named(&self, prefix: Seq<char>) -> bool {
        &&& family_name(self.device_gauge) == prefix + "_lan_browser_device"@
        &&& family_name(self.device_l3_connectivity_gauge) == prefix + "_lan_browser_device_l3_connectivity"@
        &&& family_name(self.device_last_activity) == prefix + "_lan_browser_device_last_activity"@
        &&& family_name(self.device_name_gauge) == prefix + "_lan_browser_device_name"@
        &&& family_name(self.iface_gauge) == prefix + "_lan_browser_iface_hosts"@
        &&& family_help(self.device_gauge) == "device, 1 for active"@
        &&& family_label_names(self.device_gauge) == seq!["iface"@, "primary_name"@, "id"@, "type"@, "primary_name_manual"@, "l2ident_id"@, "l2ident_type"@, "vendor_name"@]
        &&& family_help(self.device_l3_connectivity_gauge) == "device l3 connectivity, 1 for active"@
        &&& family_label_names(self.device_l3_connectivity_gauge) == seq!["ident"@, "iface"@, "addr"@, "name"@, "af"@]
        &&& family_help(self.device_last_activity) == "device last activity timestamp"@
        &&& family_label_names(self.device_last_activity) == seq!["iface"@, "name"@]
        &&& family_help(self.device_name_gauge) == "device name"@
        &&& family_label_names(self.device_name_gauge) == seq!["name"@, "source"@, "ident"@, "iface"@]
        &&& family_help(self.iface_gauge) == "network interfaces"@
        &&& family_label_names(self.iface_gauge) == seq!["name"@]
    }

    /// Whether `n` is the name of one of the map's metrics under `prefix`.
    pub open spec fn is_metric_name(prefix: Seq<char>, n: Seq<char>) -> bool {
        ||| n == prefix + "_lan_browser_device"@
        ||| n == prefix + "_lan_browser_device_l3_connectivity"@
        ||| n == prefix + "_lan_browser_device_last_activity"@
        ||| n == prefix + "_lan_browser_device_name"@
        ||| n == prefix + "_lan_browser_iface_hosts"@
    }

    /// Prometheus accepts what each gauge of the map is made with exactly when the
    /// prefix is one metric names may be built from.
    proof fn lemma_gauge_args(prefix: Seq<char>)
        ensures
            family_args_accepted(prefix + "_lan_browser_device"@, "device, 1 for active"@, seq!["iface"@, "primary_name"@, "id"@, "type"@, "primary_name_manual"@, "l2ident_id"@, "l2ident_type"@, "vendor_name"@]) == valid_prefix(prefix),
            family_args_accepted(prefix + "_lan_browser_device_l3_connectivity"@, "device l3 connectivity, 1 for active"@, seq!["ident"@, "iface"@, "addr"@, "name"@, "af"@]) == valid_prefix(prefix),
            family_args_accepted(prefix + "_lan_browser_device_last_activity"@, "device last activity timestamp"@, seq!["iface"@, "name"@]) == valid_prefix(prefix),
            family_args_accepted(prefix + "_lan_browser_device_name"@, "device name"@, seq!["name"@, "source"@, "ident"@, "iface"@]) == valid_prefix(prefix),
            family_args_accepted(prefix + "_lan_browser_iface_hosts"@, "network interfaces"@, seq!["name"@]) == valid_prefix(prefix),
    {
        assert(family_args_accepted(prefix + "_lan_browser_device"@, "device, 1 for active"@, seq!["iface"@, "primary_name"@, "id"@, "type"@, "primary_name_manual"@, "l2ident_id"@, "l2ident_type"@, "vendor_name"@]) == valid_prefix(prefix)) by {
            reveal_strlit("_lan_browser_device");
            reveal_strlit("device, 1 for active");
            reveal_strlit("iface");
            reveal_strlit("primary_name");
            reveal_strlit("id");
            reveal_strlit("type");
            reveal_strlit("primary_name_manual");
            reveal_strlit("l2ident_id");
            reveal_strlit("l2ident_type");
            reveal_strlit("vendor_name");
            lemma_prefixed_name_valid(prefix, "_lan_browser_device"@);
            let l = seq!["iface"@, "primary_name"@, "id"@, "type"@, "primary_name_manual"@, "l2ident_id"@, "l2ident_type"@, "vendor_name"@];
            assert(valid_label_name(l[0]));
            assert(valid_label_name(l[1]));
            assert(valid_label_name(l[2]));
            assert(valid_label_name(l[3]));
            assert(valid_label_name(l[4]));
            assert(valid_label_name(l[5]));
            assert(valid_label_name(l[6]));
            assert(valid_label_name(l[7]));
            assert(l[0] != l[1]);
            assert(l[0] != l[2]);
            assert(l[0] != l[3]);
            assert(l[0] != l[4]);
            assert(l[0] != l[5]);
            assert(l[0] != l[6]);
            assert(l[0] != l[7]);
            assert(l[1] != l[2]);
            assert(l[1] != l[3]);
            assert(l[1] != l[4]);
            assert(l[1] != l[5]);
            assert(l[1][0] != l[6][0]);
            assert(l[1] != l[6]);
            assert(l[1] != l[7]);
            assert(l[2] != l[3]);
            assert(l[2] != l[4]);
            assert(l[2] != l[5]);
            assert(l[2] != l[6]);
            assert(l[2] != l[7]);
            assert(l[3] != l[4]);
            assert(l[3] != l[5]);
            assert(l[3] != l[6]);
            assert(l[3] != l[7]);
            assert(l[4] != l[5]);
            assert(l[4] != l[6]);
            assert(l[4] != l[7]);
            assert(l[5] != l[6]);
            assert(l[5] != l[7]);
            assert(l[6] != l[7]);
        }
        assert(family_args_accepted(prefix + "_lan_browser_device_l3_connectivity"@, "device l3 connectivity, 1 for active"@, seq!["ident"@, "iface"@, "addr"@, "name"@, "af"@]) == valid_prefix(prefix)) by {
            reveal_strlit("_lan_browser_device_l3_connectivity");
            reveal_strlit("device l3 connectivity, 1 for active");
            reveal_strlit("ident");
            reveal_strlit("iface");
            reveal_strlit("addr");
            reveal_strlit("name");
            reveal_strlit("af");
            lemma_prefixed_name_valid(prefix, "_lan_browser_device_l3_connectivity"@);
            let l = seq!["ident"@, "iface"@, "addr"@, "name"@, "af"@];
            assert(valid_label_name(l[0]));
            assert(valid_label_name(l[1]));
            assert(valid_label_name(l[2]));
            assert(valid_label_name(l[3]));
            assert(valid_label_name(l[4]));
            assert(l[0][1] != l[1][1]);
            assert(l[0] != l[1]);
            assert(l[0] != l[2]);
            assert(l[0] != l[3]);
            assert(l[0] != l[4]);
            assert(l[1] != l[2]);
            assert(l[1] != l[3]);
            assert(l[1] != l[4]);
            assert(l[2][0] != l[3][0]);
            assert(l[2] != l[3]);
            assert(l[2] != l[4]);
            assert(l[3] != l[4]);
        }
        assert(family_args_accepted(prefix + "_lan_browser_device_last_activity"@, "device last activity timestamp"@, seq!["iface"@, "name"@]) == valid_prefix(prefix)) by {
            reveal_strlit("_lan_browser_device_last_activity");
            reveal_strlit("device last activity timestamp");
            reveal_strlit("iface");
            reveal_strlit("name");
            lemma_prefixed_name_valid(prefix, "_lan_browser_device_last_activity"@);
            let l = seq!["iface"@, "name"@];
            assert(valid_label_name(l[0]));
            assert(valid_label_name(l[1]));
            assert(l[0] != l[1]);
        }
        assert(family_args_accepted(prefix + "_lan_browser_device_name"@, "device name"@, seq!["name"@, "source"@, "ident"@, "iface"@]) == valid_prefix(prefix)) by {
            reveal_strlit("_lan_browser_device_name");
            reveal_strlit("device name");
            reveal_strlit("name");
            reveal_strlit("source");
            reveal_strlit("ident");
            reveal_strlit("iface");
            lemma_prefixed_name_valid(prefix, "_lan_browser_device_name"@);
            let l = seq!["name"@, "source"@, "ident"@, "iface"@];
            assert(valid_label_name(l[0]));
            assert(valid_label_name(l[1]));
            assert(valid_label_name(l[2]));
            assert(valid_label_name(l[3]));
            assert(l[0] != l[1]);
            assert(l[0] != l[2]);
            assert(l[0] != l[3]);
            assert(l[1] != l[2]);
            assert(l[1] != l[3]);
            assert(l[2][1] != l[3][1]);
            assert(l[2] != l[3]);
        }
        assert(family_args_accepted(prefix + "_lan_browser_iface_hosts"@, "network interfaces"@, seq!["name"@]) == valid_prefix(prefix)) by {
            reveal_strlit("_lan_browser_iface_hosts");
            reveal_strlit("network interfaces");
            reveal_strlit("name");
            lemma_prefixed_name_valid(prefix, "_lan_browser_iface_hosts"@);
            let l = seq!["name"@];
            assert(valid_label_name(l[0]));
        }
    }

    /// Makes and registers every gauge of the map, named after `prefix`.
    pub fn new(prefix: String) -> (r: Result<Self, GaugeError>)
        ensures
            r matches Ok(m) ==> m.well_formed() && m.is_cleared() && m.named(prefix@),
            r matches Err(e) ==> Self::is_metric_name(prefix@, gauge_error_name(e)),
            (r matches Err(e) && e is Creation) <==> !valid_prefix(prefix@),
            !valid_prefix(prefix@) ==> (r matches Err(e) && gauge_error_name(e) == prefix@ + "_lan_browser_device"@),
    {
        proof { Self::lemma_gauge_args(prefix@); }
        let device_gauge_labels = vec![String::from_str("iface"), String::from_str("primary_name"), String::from_str("id"), String::from_str("type"), String::from_str("primary_name_manual"), String::from_str("l2ident_id"), String::from_str("l2ident_type"), String::from_str("vendor_name")];
        proof { assert(label_view(device_gauge_labels@) =~= seq!["iface"@, "primary_name"@, "id"@, "type"@, "primary_name_manual"@, "l2ident_id"@, "l2ident_type"@, "vendor_name"@]); }
        let device_gauge = match make_family(concat(prefix.as_str(), "_lan_browser_device"), String::from_str("device, 1 for active"), device_gauge_labels) { Ok(g) => g, Err(e) => { return Err(e); } };
        let device_l3_connectivity_gauge_labels = vec![String::from_str("ident"), String::from_str("iface"), String::from_str("addr"), String::from_str("name"), String::from_str("af")];
        proof { assert(label_view(device_l3_connectivity_gauge_labels@) =~= seq!["ident"@, "iface"@, "addr"@, "name"@, "af"@]); }
        let device_l3_connectivity_gauge = match make_family(concat(prefix.as_str(), "_lan_browser_device_l3_connectivity"), String::from_str("device l3 connectivity, 1 for active"), device_l3_connectivity_gauge_labels) { Ok(g) => g, Err(e) => { return Err(e); } };
        let device_last_activity_labels = vec![String::from_str("iface"), String::from_str("name")];
        proof { assert(label_view(device_last_activity_labels@) =~= seq!["iface"@, "name"@]); }
        let device_last_activity = match make_family(concat(prefix.as_str(), "_lan_browser_device_last_activity"), String::from_str("device last activity timestamp"), device_last_activity_labels) { Ok(g) => g, Err(e) => { return Err(e); } };
        let device_name_gauge_labels = vec![String::from_str("name"), String::from_str("source"), String::from_str("ident"), String::from_str("iface")];
        proof { assert(label_view(device_name_gauge_labels@) =~= seq!["name"@, "source"@, "ident"@, "iface"@]); }
        let device_name_gauge = match make_family(concat(prefix.as_str(), "_lan_browser_device_name"), String::from_str("device name"), device_name_gauge_labels) { Ok(g) => g, Err(e) => { return Err(e); } };
        let iface_gauge_labels = vec![String::from_str("name")];
        proof { assert(label_view(iface_gauge_labels@) =~= seq!["name"@]); }
        let iface_gauge = match make_family(concat(prefix.as_str(), "_lan_browser_iface_hosts"), String::from_str("network interfaces"), iface_gauge_labels) { Ok(g) => g, Err(e) => { return Err(e); } };
        Ok(LanBrowserMetricMap { device_gauge, device_l3_connectivity_gauge, device_last_activity, device_name_gauge, iface_gauge })
    }

    /// The metric names of the gauges, in declaration order.
    pub open spec fn names_of(&self) -> Seq<Seq<char>> {
        seq![family_name(self.device_gauge), family_name(self.device_l3_connectivity_gauge), family_name(self.device_last_activity), family_name(self.device_name_gauge), family_name(self.iface_gauge)]
    }

    /// Drops every child of every family and puts every single gauge at 0.
    pub fn reset_all(&mut self)
        requires
            old(self).well_formed(),
        ensures
            final(self).well_formed(),
            final(self).is_cleared(),
            final(self).names_of() == old(self).names_of(),
    {
        family_reset(&mut self.device_gauge);
        family_reset(&mut self.device_l3_connectivity_gauge);
        family_reset(&mut self.device_last_activity);
        family_reset(&mut self.device_name_gauge);
        family_reset(&mut self.iface_gauge);
    }

    /// Writes an interface's child (its host count) and says whether its hosts are to be
    /// fetched: only when it reports hosts.
    pub fn set_iface(&mut self, iface: &LanBrowserInterface) -> (fetch_devices: bool)
        requires
            old(self).well_formed(),
        ensures
            final(self).well_formed(),
            final(self).names_of() == old(self).names_of(),
            final(self).iface_gauge@ == family_put(old(self).iface_gauge@, seq![opt_text(iface.name)], opt_i32(iface.host_count)),
            fetch_devices == (opt_i32(iface.host_count) != 0),
            final(self).device_gauge == old(self).device_gauge,
            final(self).device_l3_connectivity_gauge == old(self).device_l3_connectivity_gauge,
            final(self).device_last_activity == old(self).device_last_activity,
            final(self).device_name_gauge == old(self).device_name_gauge,
    {
        let count = opt_i32_value(iface.host_count);
        family_set(&mut self.iface_gauge, &labels1(text_or_default(&iface.name)), count);
        count != 0
    }

    /// Writes, for every host of an interface: its device child, its last activity,
    /// one child per address and one per name.
    pub fn set_devices(&mut self, iface: &LanBrowserInterface, devs: &Vec<LanHost>)
        requires
            old(self).well_formed(),
        ensures
            final(self).well_formed(),
            final(self).names_of() == old(self).names_of(),
            final(self).device_gauge@ == put_devices(old(self).device_gauge@, opt_text(iface.name), devs@),
            final(self).device_last_activity@ == put_last_activities(old(self).device_last_activity@, opt_text(iface.name), devs@),
            final(self).device_l3_connectivity_gauge@ == put_devices_l3s(old(self).device_l3_connectivity_gauge@, opt_text(iface.name), devs@),
            final(self).device_name_gauge@ == put_devices_names(old(self).device_name_gauge@, opt_text(iface.name), devs@),
            final(self).iface_gauge == old(self).iface_gauge,
    {
        let iface_name = text_or_default(&iface.name);
        let mut i: usize = 0;
        while i < devs.len()
            invariant
                i <= devs.len(),
                iface_name@ == opt_text(iface.name),
                self.well_formed(),
                self.names_of() == old(self).names_of(),
                self.iface_gauge == old(self).iface_gauge,
                self.device_gauge@ == put_devices(old(self).device_gauge@, iface_name@, devs@.take(i as int)),
                self.device_last_activity@ == put_last_activities(old(self).device_last_activity@, iface_name@, devs@.take(i as int)),
                self.device_l3_connectivity_gauge@ == put_devices_l3s(old(self).device_l3_connectivity_gauge@, iface_name@, devs@.take(i as int)),
                self.device_name_gauge@ == put_devices_names(old(self).device_name_gauge@, iface_name@, devs@.take(i as int)),
            decreases devs.len() - i,
        {
            let dev = &devs[i];
            assert(devs@.take(i as int + 1).drop_last() =~= devs@.take(i as int));
            assert(devs@.take(i as int + 1).last() == *dev);
            let (ident, ident_type) = ident_parts(dev);
            let primary = text_or_default(&dev.primary_name);
            let mut labels = labels2(iface_name.clone(), primary.clone());
            push_label(&mut labels, text_or_default(&dev.id));
            push_label(&mut labels, text_or_default(&dev.host_type));
            let manual = match dev.primary_name_manual {
                Some(b) => b,
                None => false,
            };
            push_label(&mut labels, bool_to_string(manual));
            push_label(&mut labels, ident.clone());
            push_label(&mut labels, ident_type);
            push_label(&mut labels, text_or_default(&dev.vendor_name));
            assert(label_view(labels@) =~= device_labels(iface_name@, *dev));
            family_set(&mut self.device_gauge, &labels, opt_flag_value(dev.active));
            family_set(&mut self.device_last_activity, &labels2(iface_name.clone(), primary.clone()), opt_i64_value(dev.last_activity));
            put_host_l3s(&mut self.device_l3_connectivity_gauge, &ident, &iface_name, &primary, &dev.l3connectivities);
            put_host_names(&mut self.device_name_gauge, &ident, &iface_name, &dev.names);
            i = i + 1;
        }
        assert(devs@.take(devs.len() as int) =~= devs@);
    }
}

}
