//! Metrics of the LAN configuration (`v4/lan/config`).
use super::{flag, flag_value, labels1, opt_text, text_or_default};
use crate::gauge::{
    family_args_accepted, label_view, lemma_prefixed_name_valid, valid_label_name, valid_prefix,
    family_help, family_label_names,
    family_arity, family_name, family_put, family_reset, family_set, int_gauge_name, int_gauge_set,
    make_family, make_int_gauge, FamilyEntries, Gauge, gauge_error_name, GaugeError, GaugeFamily,
};
use crate::text::concat;
use vstd::prelude::*;

verus! {

/// The LAN configuration of the Freebox.
#[derive(Clone, Debug)]
pub struct LanConfig {
    pub name_dns: Option<String>,
    pub name_mdns: Option<String>,
    pub name: Option<String>,
    pub mode: Option<String>,
    pub name_netbios: Option<String>,
    pub ip: Option<String>,
}

/// Gauges of the LAN configuration; each has one child per configured value.
pub struct LanMetricMap {
    pub name_dns_metric: GaugeFamily,
    pub name_mdns_metric: GaugeFamily,
    pub name_metric: GaugeFamily,
    pub mode_metric: GaugeFamily,
    pub name_netbios_metric: GaugeFamily,
    pub ip_metric: GaugeFamily,
}

impl LanMetricMap {
    /// Every family takes as many label values as it was made with label names.
    pub open spec fn well_formed(&self) -> bool {
        &&& family_arity(self.name_dns_metric) == 1
        &&& family_arity(self.name_mdns_metric) == 1
        &&& family_arity(self.name_metric) == 1
        &&& family_arity(self.mode_metric) == 1
        &&& family_arity(self.name_netbios_metric) == 1
        &&& family_arity(self.ip_metric) == 1
    }

    /// No family has a child and every single gauge is at 0.
    pub open spec fn is_cleared(&self) -> bool {
        &&& self.name_dns_metric@ == FamilyEntries::empty()
        &&& self.name_mdns_metric@ == FamilyEntries::empty()
        &&& self.name_metric@ == FamilyEntries::empty()
        &&& self.mode_metric@ == FamilyEntries::empty()
        &&& self.name_netbios_metric@ == FamilyEntries::empty()
        &&& self.ip_metric@ == FamilyEntries::empty()
    }

    /// The metric names, help texts and label names the gauges were made with.
    pub open spec fn named(&self, prefix: Seq<char>) -> bool {
        &&& family_name(self.name_dns_metric) == prefix + "_lan_config_name_dns"@
        &&& family_name(self.name_mdns_metric) == prefix + "_lan_config_name_mdns"@
        &&& family_name(self.name_metric) == prefix + "_lan_config_name"@
        &&& family_name(self.mode_metric) == prefix + "_lan_config_mode"@
        &&& family_name(self.name_netbios_metric) == prefix + "_lan_config_name_netbios"@
        &&& family_name(self.ip_metric) == prefix + "_lan_config_ip"@
        &&& family_help(self.name_dns_metric) == prefix + "_lan_config_name_dns"@
        &&& family_label_names(self.name_dns_metric) == seq!["name_dns"@]
        &&& family_help(self.name_mdns_metric) == prefix + "_lan_config_name_mdns"@
        &&& family_label_names(self.name_mdns_metric) == seq!["name_mdns"@]
        &&& family_help(self.name_metric) == prefix + "_lan_config_name"@
        &&& family_label_names(self.name_metric) == seq!["name"@]
        &&& family_help(self.mode_metric) == prefix + "_lan_config_mode"@
        &&& family_label_names(self.mode_metric) == seq!["mode"@]
        &&& family_help(self.name_netbios_metric) == prefix + "_lan_config_name_netbios"@
        &&& family_label_names(self.name_netbios_metric) == seq!["name_netbios"@]
        &&& family_help(self.ip_metric) == prefix + "_lan_config_ip"@
        &&& family_label_names(self.ip_metric) == seq!["ip"@]
    }

    /// Whether `n` is the name of one of the map's metrics under `prefix`.
    pub open spec fn is_metric_name(prefix: Seq<char>, n: Seq<char>) -> bool {
        ||| n == prefix + "_lan_config_name_dns"@
        ||| n == prefix + "_lan_config_name_mdns"@
        ||| n == prefix + "_lan_config_name"@
        ||| n == prefix + "_lan_config_mode"@
        ||| n == prefix + "_lan_config_name_netbios"@
        ||| n == prefix + "_lan_config_ip"@
    }

    /// Prometheus accepts what each gauge of the map is made with exactly when the
    /// prefix is one metric names may be built from.
    proof fn lemma_gauge_args(prefix: Seq<char>)
        ensures
            family_args_accepted(prefix + "_lan_config_name_dns"@, prefix + "_lan_config_name_dns"@, seq!["name_dns"@]) == valid_prefix(prefix),
            family_args_accepted(prefix + "_lan_config_name_mdns"@, prefix + "_lan_config_name_mdns"@, seq!["name_mdns"@]) == valid_prefix(prefix),
            family_args_accepted(prefix + "_lan_config_name"@, prefix + "_lan_config_name"@, seq!["name"@]) == valid_prefix(prefix),
            family_args_accepted(prefix + "_lan_config_mode"@, prefix + "_lan_config_mode"@, seq!["mode"@]) == valid_prefix(prefix),
            family_args_accepted(prefix + "_lan_config_name_netbios"@, prefix + "_lan_config_name_netbios"@, seq!["name_netbios"@]) == valid_prefix(prefix),
            family_args_accepted(prefix + "_lan_config_ip"@, prefix + "_lan_config_ip"@, seq!["ip"@]) == valid_prefix(prefix),
    {
        assert(family_args_accepted(prefix + "_lan_config_name_dns"@, prefix + "_lan_config_name_dns"@, seq!["name_dns"@]) == valid_prefix(prefix)) by {
            reveal_strlit("_lan_config_name_dns");
            reveal_strlit("name_dns");
            lemma_prefixed_name_valid(prefix, "_lan_config_name_dns"@);
            let l = seq!["name_dns"@];
            assert(valid_label_name(l[0]));
        }
        assert(family_args_accepted(prefix + "_lan_config_name_mdns"@, prefix + "_lan_config_name_mdns"@, seq!["name_mdns"@]) == valid_prefix(prefix)) by {
            reveal_strlit("_lan_config_name_mdns");
            reveal_strlit("name_mdns");
            lemma_prefixed_name_valid(prefix, "_lan_config_name_mdns"@);
            let l = seq!["name_mdns"@];
            assert(valid_label_name(l[0]));
        }
        assert(family_args_accepted(prefix + "_lan_config_name"@, prefix + "_lan_config_name"@, seq!["name"@]) == valid_prefix(prefix)) by {
            reveal_strlit("_lan_config_name");
            reveal_strlit("name");
            lemma_prefixed_name_valid(prefix, "_lan_config_name"@);
            let l = seq!["name"@];
            assert(valid_label_name(l[0]));
        }
        assert(family_args_accepted(prefix + "_lan_config_mode"@, prefix + "_lan_config_mode"@, seq!["mode"@]) == valid_prefix(prefix)) by {
            reveal_strlit("_lan_config_mode");
            reveal_strlit("mode");
            lemma_prefixed_name_valid(prefix, "_lan_config_mode"@);
            let l = seq!["mode"@];
            assert(valid_label_name(l[0]));
        }
        assert(family_args_accepted(prefix + "_lan_config_name_netbios"@, prefix + "_lan_config_name_netbios"@, seq!["name_netbios"@]) == valid_prefix(prefix)) by {
            reveal_strlit("_lan_config_name_netbios");
            reveal_strlit("name_netbios");
            lemma_prefixed_name_valid(prefix, "_lan_config_name_netbios"@);
            let l = seq!["name_netbios"@];
            assert(valid_label_name(l[0]));
        }
        assert(family_args_accepted(prefix + "_lan_config_ip"@, prefix + "_lan_config_ip"@, seq!["ip"@]) == valid_prefix(prefix)) by {
            reveal_strlit("_lan_config_ip");
            reveal_strlit("ip");
            lemma_prefixed_name_valid(prefix, "_lan_config_ip"@);
            let l = seq!["ip"@];
            assert(valid_label_name(l[0]));
        }
    }

    /// Makes and registers every gauge of the map, named after `prefix`.
    pub fn new(prefix: String) -> (r: Result<Self, GaugeError>)
        ensures
            r matches Ok(m) ==> m.well_formed() && m.is_cleared() && m.named(prefix@),
            r matches Err(e) ==> Self::is_metric_name(prefix@, gauge_error_name(e)),
            (r matches Err(e) && e is Creation) <==> !valid_prefix(prefix@),
            !valid_prefix(prefix@) ==> (r matches Err(e) && gauge_error_name(e) == prefix@ + "_lan_config_name_dns"@),
    {
        proof { Self::lemma_gauge_args(prefix@); }
        let name_dns_metric_labels = vec![String::from_str("name_dns")];
        proof { assert(label_view(name_dns_metric_labels@) =~= seq!["name_dns"@]); }
        let name_dns_metric = match make_family(concat(prefix.as_str(), "_lan_config_name_dns"), concat(prefix.as_str(), "_lan_config_name_dns"), name_dns_metric_labels) { Ok(g) => g, Err(e) => { return Err(e); } };
        let name_mdns_metric_labels = vec![String::from_str("name_mdns")];
        proof { assert(label_view(name_mdns_metric_labels@) =~= seq!["name_mdns"@]); }
        let name_mdns_metric = match make_family(concat(prefix.as_str(), "_lan_config_name_mdns"), concat(prefix.as_str(), "_lan_config_name_mdns"), name_mdns_metric_labels) { Ok(g) => g, Err(e) => { return Err(e); } };
        let name_metric_labels = vec![String::from_str("name")];
        proof { assert(label_view(name_metric_labels@) =~= seq!["name"@]); }
        let name_metric = match make_family(concat(prefix.as_str(), "_lan_config_name"), concat(prefix.as_str(), "_lan_config_name"), name_metric_labels) { Ok(g) => g, Err(e) => { return Err(e); } };
        let mode_metric_labels = vec![String::from_str("mode")];
        proof { assert(label_view(mode_metric_labels@) =~= seq!["mode"@]); }
        let mode_metric = match make_family(concat(prefix.as_str(), "_lan_config_mode"), concat(prefix.as_str(), "_lan_config_mode"), mode_metric_labels) { Ok(g) => g, Err(e) => { return Err(e); } };
        let name_netbios_metric_labels = vec![String::from_str("name_netbios")];
        proof { assert(label_view(name_netbios_metric_labels@) =~= seq!["name_netbios"@]); }
        let name_netbios_metric = match make_family(concat(prefix.as_str(), "_lan_config_name_netbios"), concat(prefix.as_str(), "_lan_config_name_netbios"), name_netbios_metric_labels) { Ok(g) => g, Err(e) => { return Err(e); } };
        let ip_metric_labels = vec![String::from_str("ip")];
        proof { assert(label_view(ip_metric_labels@) =~= seq!["ip"@]); }
        let ip_metric = match make_family(concat(prefix.as_str(), "_lan_config_ip"), concat(prefix.as_str(), "_lan_config_ip"), ip_metric_labels) { Ok(g) => g, Err(e) => { return Err(e); } };
        Ok(LanMetricMap { name_dns_metric, name_mdns_metric, name_metric, mode_metric, name_netbios_metric, ip_metric })
    }

    /// The metric names of the gauges, in declaration order.
    pub open spec fn names_of(&self) -> Seq<Seq<char>> {
        seq![family_name(self.name_dns_metric), family_name(self.name_mdns_metric), family_name(self.name_metric), family_name(self.mode_metric), family_name(self.name_netbios_metric), family_name(self.ip_metric)]
    }

    /// Drops every child of every family and puts every single gauge at 0.
    pub fn reset_all(&mut self)
        requires
            old(self).well_formed(),
        ensures
            final(self).well_formed(),
            final(self).is_cleared(),
            final(self).names_of() == old(self).names_of(),
    {
        family_reset(&mut self.name_dns_metric);
        family_reset(&mut self.name_mdns_metric);
        family_reset(&mut self.name_metric);
        family_reset(&mut self.mode_metric);
        family_reset(&mut self.name_netbios_metric);
        family_reset(&mut self.ip_metric);
    }

    /// Writes one child per configuration entry, labelled with its text (empty when
    /// absent) and valued 1 when the entry is present, 0 otherwise.
    pub fn set_lan_config(&mut self, cfg: &LanConfig)
        requires
            old(self).well_formed(),
        ensures
            final(self).well_formed(),
            final(self).names_of() == old(self).names_of(),
            final(self).name_dns_metric@ == family_put(old(self).name_dns_metric@, seq![opt_text(cfg.name_dns)], flag(cfg.name_dns is Some)),
            final(self).name_mdns_metric@ == family_put(old(self).name_mdns_metric@, seq![opt_text(cfg.name_mdns)], flag(cfg.name_mdns is Some)),
            final(self).name_metric@ == family_put(old(self).name_metric@, seq![opt_text(cfg.name)], flag(cfg.name is Some)),
            final(self).name_netbios_metric@ == family_put(old(self).name_netbios_metric@, seq![opt_text(cfg.name_netbios)], flag(cfg.name_netbios is Some)),
            final(self).mode_metric@ == family_put(old(self).mode_metric@, seq![opt_text(cfg.mode)], flag(cfg.mode is Some)),
            final(self).ip_metric@ == family_put(old(self).ip_metric@, seq![opt_text(cfg.ip)], flag(cfg.ip is Some)),
    {
        family_set(&mut self.name_dns_metric, &labels1(text_or_default(&cfg.name_dns)), flag_value(cfg.name_dns.is_some()));
        family_set(&mut self.name_mdns_metric, &labels1(text_or_default(&cfg.name_mdns)), flag_value(cfg.name_mdns.is_some()));
        family_set(&mut self.name_metric, &labels1(text_or_default(&cfg.name)), flag_value(cfg.name.is_some()));
        family_set(&mut self.name_netbios_metric, &labels1(text_or_default(&cfg.name_netbios)), flag_value(cfg.name_netbios.is_some()));
        family_set(&mut self.mode_metric, &labels1(text_or_default(&cfg.mode)), flag_value(cfg.mode.is_some()));
        family_set(&mut self.ip_metric, &labels1(text_or_default(&cfg.ip)), flag_value(cfg.ip.is_some()));
    }
}

}
