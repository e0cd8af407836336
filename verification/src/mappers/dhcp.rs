//! Metrics of the DHCP leases (`v4/dhcp/static_lease/` and `v4/dhcp/dynamic_lease/`).
use super::{labels1, opt_text, push_label, text_or_default};
use crate::gauge::{
    family_args_accepted, lemma_prefixed_name_valid, valid_label_name, valid_prefix,
    family_help, family_label_names,
    family_arity, family_name, family_put, family_reset, family_set, int_gauge_name, int_gauge_set,
    make_family, make_int_gauge, FamilyEntries, Gauge, gauge_error_name, GaugeError, GaugeFamily,
};
use crate::gauge::{family_value, label_key, label_view};
use crate::text::{bool_text, bool_to_string, concat};
use vstd::prelude::*;

verus! {

/// A lease the DHCP server keeps for a fixed address.
#[derive(Clone, Debug)]
pub struct StaticDhcpLease {
    pub id: Option<String>,
    pub hostname: Option<String>,
    pub ip: Option<String>,
    pub mac: Option<String>,
}

/// A lease the DHCP server handed out dynamically.
#[derive(Clone, Debug)]
pub struct DynamicDhcpLease {
    pub id: Option<String>,
    pub hostname: Option<String>,
    pub ip: Option<String>,
    pub mac: Option<String>,
    pub assign_time: Option<u64>,
    pub lease_remaining: Option<u64>,
    pub refresh_time: Option<u64>,
}

impl StaticDhcpLease {
    pub fn get_id(&self) -> (r: Option<String>)
        ensures r == self.id,
    {
        self.id.clone()
    }

    pub fn get_hostname(&self) -> (r: Option<String>)
        ensures r == self.hostname,
    {
        self.hostname.clone()
    }

    pub fn get_ip(&self) -> (r: Option<String>)
        ensures r == self.ip,
    {
        self.ip.clone()
    }

    pub fn get_mac(&self) -> (r: Option<String>)
        ensures r == self.mac,
    {
        self.mac.clone()
    }

    /// A static lease is static.
    pub fn get_is_static(&self) -> (r: Option<bool>)
        ensures r == Some(true),
    {
        Some(true)
    }

    /// A static lease does not expire: -1.
    pub fn get_lease_remaining(&self) -> (r: Option<i64>)
        ensures r == Some(-1i64),
    {
        Some(-1)
    }

    /// A static lease was never assigned: 0.
    pub fn get_assign_time(&self) -> (r: Option<u64>)
        ensures r == Some(0u64),
    {
        Some(0)
    }

    /// A static lease is never refreshed: -1.
    pub fn get_refresh_time(&self) -> (r: Option<i64>)
        ensures r == Some(-1i64),
    {
        Some(-1)
    }
}

impl DynamicDhcpLease {
    pub fn get_id(&self) -> (r: Option<String>)
        ensures r == self.id,
    {
        self.id.clone()
    }

    pub fn get_hostname(&self) -> (r: Option<String>)
        ensures r == self.hostname,
    {
        self.hostname.clone()
    }

    pub fn get_ip(&self) -> (r: Option<String>)
        ensures r == self.ip,
    {
        self.ip.clone()
    }

    pub fn get_mac(&self) -> (r: Option<String>)
        ensures r == self.mac,
    {
        self.mac.clone()
    }

    /// A dynamic lease is not static.
    pub fn get_is_static(&self) -> (r: Option<bool>)
        ensures r == Some(false),
    {
        Some(false)
    }

    /// The remaining lease time, reinterpreted as signed (`as i64`).
    pub fn get_lease_remaining(&self) -> (r: Option<i64>)
        ensures
            r == (match self.lease_remaining { Some(v) => Some(v as i64), None => None }),
    {
        match self.lease_remaining {
            Some(v) => Some(v as i64),
            None => None,
        }
    }

    pub fn get_assign_time(&self) -> (r: Option<u64>)
        ensures r == self.assign_time,
    {
        self.assign_time
    }

    /// The refresh time, reinterpreted as signed (`as i64`).
    pub fn get_refresh_time(&self) -> (r: Option<i64>)
        ensures
            r == (match self.refresh_time { Some(v) => Some(v as i64), None => None }),
    {
        match self.refresh_time {
            Some(v) => Some(v as i64),
            None => None,
        }
    }
}

/// A lease of either kind.
#[derive(Clone, Debug)]
pub enum DhcpLease {
    Static(StaticDhcpLease),
    Dynamic(DynamicDhcpLease),
}

impl DhcpLease {
    /// The labels of the lease's children: id, host name, address, MAC and whether it is static.
    pub open spec fn labels(self) -> Seq<Seq<char>> {
        match self {
            DhcpLease::Static(l) => seq![opt_text(l.id), opt_text(l.hostname), opt_text(l.ip), opt_text(l.mac), bool_text(true)],
            DhcpLease::Dynamic(l) => seq![opt_text(l.id), opt_text(l.hostname), opt_text(l.ip), opt_text(l.mac), bool_text(false)],
        }
    }

    /// The remaining lease time (-1 for a static lease, 0 when not reported).
    pub open spec fn lease_remaining_value(self) -> i64 {
        match self {
            DhcpLease::Static(_) => -1i64,
            DhcpLease::Dynamic(l) => match l.lease_remaining { Some(v) => v as i64, None => 0 },
        }
    }

    /// The refresh time (-1 for a static lease, 0 when not reported).
    pub open spec fn refresh_time_value(self) -> i64 {
        match self {
            DhcpLease::Static(_) => -1i64,
            DhcpLease::Dynamic(l) => match l.refresh_time { Some(v) => v as i64, None => 0 },
        }
    }

    /// The assignment time (0 for a static lease or when not reported).
    pub open spec fn assign_time_value(self) -> i64 {
        match self {
            DhcpLease::Static(_) => 0,
            DhcpLease::Dynamic(l) => match l.assign_time { Some(v) => v as i64, None => 0 },
        }
    }
}

/// One family after one child per lease, in order, is set to the value `value` picks.
pub open spec fn put_leases(m: FamilyEntries, ls: Seq<DhcpLease>, value: spec_fn(DhcpLease) -> i64) -> FamilyEntries
    decreases ls.len(),
{
    if ls.len() == 0 {
        m
    } else {
        family_put(put_leases(m, ls.drop_last(), value), ls.last().labels(), value(ls.last()))
    }
}

/// Writing leases one after another leaves, for each lease whose labels no later lease
/// shares a key with, the value picked for that lease.
proof fn lemma_put_leases_keeps_last_write(m: FamilyEntries, ls: Seq<DhcpLease>, value: spec_fn(DhcpLease) -> i64, i: int)
    requires
        0 <= i < ls.len(),
        forall|j: int| i < j < ls.len() ==> label_key((#[trigger] ls[j]).labels()) != label_key(ls[i].labels()),
    ensures
        family_value(put_leases(m, ls, value), ls[i].labels()) == Some(value(ls[i])),
    decreases ls.len(),
{
    if i < ls.len() - 1 {
        let t = ls.drop_last();
        assert forall|j: int| i < j < t.len() implies label_key((#[trigger] t[j]).labels()) != label_key(t[i].labels()) by {
            assert(t[j] == ls[j]);
        }
        lemma_put_leases_keeps_last_write(m, t, value, i);
        assert(t[i] == ls[i]);
    }
}

/// Each lease, unless a later one shares its labels' key, shows its own times: a dynamic
/// lease its remaining lease time, refresh time and assignment time (each 0 when not
/// reported, each independent of the others); a static lease -1, -1 and 0.
pub proof fn lemma_leases_show_their_times(m: FamilyEntries, ls: Seq<DhcpLease>, i: int)
    requires
        0 <= i < ls.len(),
        forall|j: int| i < j < ls.len() ==> label_key((#[trigger] ls[j]).labels()) != label_key(ls[i].labels()),
    ensures
        family_value(put_leases(m, ls, |l: DhcpLease| l.lease_remaining_value()), ls[i].labels()) == Some(match ls[i] {
            DhcpLease::Static(_) => -1i64,
            DhcpLease::Dynamic(d) => match d.lease_remaining { Some(v) => v as i64, None => 0i64 },
        }),
        family_value(put_leases(m, ls, |l: DhcpLease| l.refresh_time_value()), ls[i].labels()) == Some(match ls[i] {
            DhcpLease::Static(_) => -1i64,
            DhcpLease::Dynamic(d) => match d.refresh_time { Some(v) => v as i64, None => 0i64 },
        }),
        family_value(put_leases(m, ls, |l: DhcpLease| l.assign_time_value()), ls[i].labels()) == Some(match ls[i] {
            DhcpLease::Static(_) => 0i64,
            DhcpLease::Dynamic(d) => match d.assign_time { Some(v) => v as i64, None => 0i64 },
        }),
{
    lemma_put_leases_keeps_last_write(m, ls, |l: DhcpLease| l.lease_remaining_value(), i);
    lemma_put_leases_keeps_last_write(m, ls, |l: DhcpLease| l.refresh_time_value(), i);
    lemma_put_leases_keeps_last_write(m, ls, |l: DhcpLease| l.assign_time_value(), i);
}

/// The leases to expose: the dynamic ones, then the static ones, each in the order given.
pub fn fetch_dhcp_leases(dynamics: Vec<DynamicDhcpLease>, statics: Vec<StaticDhcpLease>) -> (r: Vec<DhcpLease>)
    ensures
        r.len() == dynamics.len() + statics.len(),
        forall|i: int| 0 <= i < dynamics.len() ==> r@[i] == DhcpLease::Dynamic(dynamics@[i]),
        forall|i: int| 0 <= i < statics.len() ==> r@[dynamics.len() + i] == DhcpLease::Static(statics@[i]),
{
    let mut leases: Vec<DhcpLease> = Vec::new();
    let mut rest = dynamics;
    let ghost dyns = rest@;
    while rest.len() > 0
        invariant
            leases.len() + rest.len() == dyns.len(),
            rest@ == dyns.skip(leases.len() as int),
            forall|j: int| 0 <= j < leases.len() ==> leases@[j] == DhcpLease::Dynamic(dyns[j]),
        decreases rest.len(),
    {
        let ghost n = leases.len();
        let x = rest.remove(0);
        assert(x == dyns[n as int]);
        leases.push(DhcpLease::Dynamic(x));
        assert(rest@ =~= dyns.skip(leases.len() as int));
    }
    let mut rest_static = statics;
    let ghost stas = rest_static@;
    let ghost base = leases.len();
    while rest_static.len() > 0
        invariant
            base == dyns.len(),
            leases.len() + rest_static.len() == dyns.len() + stas.len(),
            leases.len() >= base,
            rest_static@ == stas.skip(leases.len() - base),
            forall|j: int| 0 <= j < base ==> leases@[j] == DhcpLease::Dynamic(dyns[j]),
            forall|j: int| 0 <= j < leases.len() - base ==> leases@[base + j] == DhcpLease::Static(stas[j]),
        decreases rest_static.len(),
    {
        let ghost n = leases.len() - base;
        let x = rest_static.remove(0);
        assert(x == stas[n as int]);
        leases.push(DhcpLease::Static(x));
        assert(rest_static@ =~= stas.skip(leases.len() - base));
    }
    leases
}

fn lease_labels(lease: &DhcpLease) -> (v: Vec<String>)
    ensures
        v.len() == 5,
        label_view(v@) == lease.labels(),
{
    let (id, hostname, ip, mac, is_static) = match lease {
        DhcpLease::Static(l) => (l.get_id(), l.get_hostname(), l.get_ip(), l.get_mac(), l.get_is_static()),
        DhcpLease::Dynamic(l) => (l.get_id(), l.get_hostname(), l.get_ip(), l.get_mac(), l.get_is_static()),
    };
    let mut v = labels1(text_or_default(&id));
    push_label(&mut v, text_or_default(&hostname));
    push_label(&mut v, text_or_default(&ip));
    push_label(&mut v, text_or_default(&mac));
    let s = match is_static {
        Some(b) => b,
        None => false,
    };
    push_label(&mut v, bool_to_string(s));
    v
}

/// Gauges of the DHCP leases.
pub struct DhcpMetricMap {
    pub lease_remaining_gauge: GaugeFamily,
    pub refresh_time_gauge: GaugeFamily,
    pub assign_time_gauge: GaugeFamily,
}

impl DhcpMetricMap {
    /// Every family takes as many label values as it was made with label names.
    pub open spec fn well_formed(&self) -> bool {
        &&& family_arity(self.lease_remaining_gauge) == 5
        &&& family_arity(self.refresh_time_gauge) == 5
        &&& family_arity(self.assign_time_gauge) == 5
    }

    /// No family has a child and every single gauge is at 0.
    pub open spec fn is_cleared(&self) -> bool {
        &&& self.lease_remaining_gauge@ == FamilyEntries::empty()
        &&& self.refresh_time_gauge@ == FamilyEntries::empty()
        &&& self.assign_time_gauge@ == FamilyEntries::empty()
    }

    /// The metric names, help texts and label names the gauges were made with.
    pub open spec fn named(&self, prefix: Seq<char>) -> bool {
        &&& family_name(self.lease_remaining_gauge) == prefix + "_dhcp_lease_remaining"@
        &&& family_name(self.refresh_time_gauge) == prefix + "_dhcp_refresh_time"@
        &&& family_name(self.assign_time_gauge) == prefix + "_dhcp_assign_time"@
        &&& family_help(self.lease_remaining_gauge) == "Lease remaining time in milliseconds"@
        &&& family_label_names(self.lease_remaining_gauge) == seq!["id"@, "hostname"@, "ip"@, "mac"@, "is_static"@]
        &&& family_help(self.refresh_time_gauge) == "Refresh time in milliseconds"@
        &&& family_label_names(self.refresh_time_gauge) == seq!["id"@, "hostname"@, "ip"@, "mac"@, "is_static"@]
        &&& family_help(self.assign_time_gauge) == "Assign time in milliseconds"@
        &&& family_label_names(self.assign_time_gauge) == seq!["id"@, "hostname"@, "ip"@, "mac"@, "is_static"@]
    }

    /// Whether `n` is the name of one of the map's metrics under `prefix`.
    pub open spec fn is_metric_name(prefix: Seq<char>, n: Seq<char>) -> bool {
        ||| n == prefix + "_dhcp_lease_remaining"@
        ||| n == prefix + "_dhcp_refresh_time"@
        ||| n == prefix + "_dhcp_assign_time"@
    }

    /// Prometheus accepts what each gauge of the map is made with exactly when the
    /// prefix is one metric names may be built from.
    proof fn lemma_gauge_args(prefix: Seq<char>)
        ensures
            family_args_accepted(prefix + "_dhcp_lease_remaining"@, "Lease remaining time in milliseconds"@, seq!["id"@, "hostname"@, "ip"@, "mac"@, "is_static"@]) == valid_prefix(prefix),
            family_args_accepted(prefix + "_dhcp_refresh_time"@, "Refresh time in milliseconds"@, seq!["id"@, "hostname"@, "ip"@, "mac"@, "is_static"@]) == valid_prefix(prefix),
            family_args_accepted(prefix + "_dhcp_assign_time"@, "Assign time in milliseconds"@, seq!["id"@, "hostname"@, "ip"@, "mac"@, "is_static"@]) == valid_prefix(prefix),
    {
        assert(family_args_accepted(prefix + "_dhcp_lease_remaining"@, "Lease remaining time in milliseconds"@, seq!["id"@, "hostname"@, "ip"@, "mac"@, "is_static"@]) == valid_prefix(prefix)) by {
            reveal_strlit("_dhcp_lease_remaining");
            reveal_strlit("Lease remaining time in milliseconds");
            reveal_strlit("id");
            reveal_strlit("hostname");
            reveal_strlit("ip");
            reveal_strlit("mac");
            reveal_strlit("is_static");
            lemma_prefixed_name_valid(prefix, "_dhcp_lease_remaining"@);
            let l = seq!["id"@, "hostname"@, "ip"@, "mac"@, "is_static"@];
            assert(valid_label_name(l[0]));
            assert(valid_label_name(l[1]));
            assert(valid_label_name(l[2]));
            assert(valid_label_name(l[3]));
            assert(valid_label_name(l[4]));
            assert(l[0] != l[1]);
            assert(l[0][1] != l[2][1]);
            assert(l[0] != l[2]);
            assert(l[0] != l[3]);
            assert(l[0] != l[4]);
            assert(l[1] != l[2]);
            assert(l[1] != l[3]);
            assert(l[1] != l[4]);
            assert(l[2] != l[3]);
            assert(l[2] != l[4]);
            assert(l[3] != l[4]);
        }
        assert(family_args_accepted(prefix + "_dhcp_refresh_time"@, "Refresh time in milliseconds"@, seq!["id"@, "hostname"@, "ip"@, "mac"@, "is_static"@]) == valid_prefix(prefix)) by {
            reveal_strlit("_dhcp_refresh_time");
            reveal_strlit("Refresh time in milliseconds");
            reveal_strlit("id");
            reveal_strlit("hostname");
            reveal_strlit("ip");
            reveal_strlit("mac");
            reveal_strlit("is_static");
            lemma_prefixed_name_valid(prefix, "_dhcp_refresh_time"@);
            let l = seq!["id"@, "hostname"@, "ip"@, "mac"@, "is_static"@];
            assert(valid_label_name(l[0]));
            assert(valid_label_name(l[1]));
            assert(valid_label_name(l[2]));
            assert(valid_label_name(l[3]));
            assert(valid_label_name(l[4]));
            assert(l[0] != l[1]);
            assert(l[0][1] != l[2][1]);
            assert(l[0] != l[2]);
            assert(l[0] != l[3]);
            assert(l[0] != l[4]);
            assert(l[1] != l[2]);
            assert(l[1] != l[3]);
            assert(l[1] != l[4]);
            assert(l[2] != l[3]);
            assert(l[2] != l[4]);
            assert(l[3] != l[4]);
        }
        assert(family_args_accepted(prefix + "_dhcp_assign_time"@, "Assign time in milliseconds"@, seq!["id"@, "hostname"@, "ip"@, "mac"@, "is_static"@]) == valid_prefix(prefix)) by {
            reveal_strlit("_dhcp_assign_time");
            reveal_strlit("Assign time in milliseconds");
            reveal_strlit("id");
            reveal_strlit("hostname");
            reveal_strlit("ip");
            reveal_strlit("mac");
            reveal_strlit("is_static");
            lemma_prefixed_name_valid(prefix, "_dhcp_assign_time"@);
            let l = seq!["id"@, "hostname"@, "ip"@, "mac"@, "is_static"@];
            assert(valid_label_name(l[0]));
            assert(valid_label_name(l[1]));
            assert(valid_label_name(l[2]));
            assert(valid_label_name(l[3]));
            assert(valid_label_name(l[4]));
            assert(l[0] != l[1]);
            assert(l[0][1] != l[2][1]);
            assert(l[0] != l[2]);
            assert(l[0] != l[3]);
            assert(l[0] != l[4]);
            assert(l[1] != l[2]);
            assert(l[1] != l[3]);
            assert(l[1] != l[4]);
            assert(l[2] != l[3]);
            assert(l[2] != l[4]);
            assert(l[3] != l[4]);
        }
    }

    /// Makes and registers every gauge of the map, named after `prefix`.
    pub fn new(prefix: String) -> (r: Result<Self, GaugeError>)
        ensures
            r matches Ok(m) ==> m.well_formed() && m.is_cleared() && m.named(prefix@),
            r matches Err(e) ==> Self::is_metric_name(prefix@, gauge_error_name(e)),
            (r matches Err(e) && e is Creation) <==> !valid_prefix(prefix@),
            !valid_prefix(prefix@) ==> (r matches Err(e) && gauge_error_name(e) == prefix@ + "_dhcp_lease_remaining"@),
    {
        proof { Self::lemma_gauge_args(prefix@); }
        let lease_remaining_gauge_labels = vec![String::from_str("id"), String::from_str("hostname"), String::from_str("ip"), String::from_str("mac"), String::from_str("is_static")];
        proof { assert(label_view(lease_remaining_gauge_labels@) =~= seq!["id"@, "hostname"@, "ip"@, "mac"@, "is_static"@]); }
        let lease_remaining_gauge = match make_family(concat(prefix.as_str(), "_dhcp_lease_remaining"), String::from_str("Lease remaining time in milliseconds"), lease_remaining_gauge_labels) { Ok(g) => g, Err(e) => { return Err(e); } };
        let refresh_time_gauge_labels = vec![String::from_str("id"), String::from_str("hostname"), String::from_str("ip"), String::from_str("mac"), String::from_str("is_static")];
        proof { assert(label_view(refresh_time_gauge_labels@) =~= seq!["id"@, "hostname"@, "ip"@, "mac"@, "is_static"@]); }
        let refresh_time_gauge = match make_family(concat(prefix.as_str(), "_dhcp_refresh_time"), String::from_str("Refresh time in milliseconds"), refresh_time_gauge_labels) { Ok(g) => g, Err(e) => { return Err(e); } };
        let assign_time_gauge_labels = vec![String::from_str("id"), String::from_str("hostname"), String::from_str("ip"), String::from_str("mac"), String::from_str("is_static")];
        proof { assert(label_view(assign_time_gauge_labels@) =~= seq!["id"@, "hostname"@, "ip"@, "mac"@, "is_static"@]); }
        let assign_time_gauge = match make_family(concat(prefix.as_str(), "_dhcp_assign_time"), String::from_str("Assign time in milliseconds"), assign_time_gauge_labels) { Ok(g) => g, Err(e) => { return Err(e); } };
        Ok(DhcpMetricMap { lease_remaining_gauge, refresh_time_gauge, assign_time_gauge })
    }

    /// The metric names of the gauges, in declaration order.
    pub open spec fn names_of(&self) -> Seq<Seq<char>> {
        seq![family_name(self.lease_remaining_gauge), family_name(self.refresh_time_gauge), family_name(self.assign_time_gauge)]
    }

    /// Drops every child of every family and puts every single gauge at 0.
    pub fn reset_all(&mut self)
        requires
            old(self).well_formed(),
        ensures
            final(self).well_formed(),
            final(self).is_cleared(),
            final(self).names_of() == old(self).names_of(),
    {
        family_reset(&mut self.lease_remaining_gauge);
        family_reset(&mut self.refresh_time_gauge);
        family_reset(&mut self.assign_time_gauge);
    }

    /// Writes one child per lease in each family, labelled with the lease's identity,
    /// valued with its remaining time, refresh time and assignment time.
    pub fn set_all(&mut self, leases: &Vec<DhcpLease>)
        requires
            old(self).well_formed(),
        ensures
            final(self).well_formed(),
            final(self).names_of() == old(self).names_of(),
            final(self).lease_remaining_gauge@ == put_leases(old(self).lease_remaining_gauge@, leases@, |l: DhcpLease| l.lease_remaining_value()),
            final(self).refresh_time_gauge@ == put_leases(old(self).refresh_time_gauge@, leases@, |l: DhcpLease| l.refresh_time_value()),
            final(self).assign_time_gauge@ == put_leases(old(self).assign_time_gauge@, leases@, |l: DhcpLease| l.assign_time_value()),
    {
        let mut i: usize = 0;
        while i < leases.len()
            invariant
                i <= leases.len(),
                self.well_formed(),
                self.names_of() == old(self).names_of(),
                self.lease_remaining_gauge@ == put_leases(old(self).lease_remaining_gauge@, leases@.take(i as int), |l: DhcpLease| l.lease_remaining_value()),
                self.refresh_time_gauge@ == put_leases(old(self).refresh_time_gauge@, leases@.take(i as int), |l: DhcpLease| l.refresh_time_value()),
                self.assign_time_gauge@ == put_leases(old(self).assign_time_gauge@, leases@.take(i as int), |l: DhcpLease| l.assign_time_value()),
            decreases leases.len() - i,
        {
            let lease = &leases[i];
            assert(leases@.take(i as int + 1).drop_last() =~= leases@.take(i as int));
            let (remaining, refresh, assign): (i64, i64, i64) = match lease {
                DhcpLease::Static(l) => (-1, -1, 0),
                DhcpLease::Dynamic(l) => (
                    match l.get_lease_remaining() { Some(v) => v, None => 0 },
                    match l.get_refresh_time() { Some(v) => v, None => 0 },
                    match l.get_assign_time() { Some(v) => v as i64, None => 0 },
                ),
            };
            family_set(&mut self.lease_remaining_gauge, &lease_labels(lease), remaining);
            family_set(&mut self.refresh_time_gauge, &lease_labels(lease), refresh);
            family_set(&mut self.assign_time_gauge, &lease_labels(lease), assign);
            i = i + 1;
        }
        assert(leases@.take(leases.len() as int) =~= leases@);
    }
}

}
