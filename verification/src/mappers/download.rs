//! Metrics of the download manager (`v4/downloads/stats`).
use super::{flag_value, labels1, opt_flag, opt_flag_value, opt_i64, opt_i64_value, opt_text_or, text_or};
use crate::gauge::{
    family_args_accepted, label_view, lemma_prefixed_name_valid, valid_label_name, valid_prefix,
    family_help, family_label_names, int_gauge_help,
    family_arity, family_name, family_put, family_reset, family_set, int_gauge_name, int_gauge_set,
    make_family, make_int_gauge, FamilyEntries, Gauge, gauge_error_name, GaugeError, GaugeFamily,
};
use crate::text::concat;
use vstd::prelude::*;

verus! {

/// A pair of transfer rates.
#[derive(Clone, Debug, Default)]
pub struct DlRate {
    pub rx_rate: Option<i64>,
    pub tx_rate: Option<i64>,
}

/// The global counters and state of the download manager.
#[derive(Clone, Debug)]
pub struct DownloadStats {
    pub nb_tasks: Option<i64>,
    pub nb_tasks_stopped: Option<i64>,
    pub nb_tasks_checking: Option<i64>,
    pub nb_tasks_queued: Option<i64>,
    pub nb_tasks_extracting: Option<i64>,
    pub nb_tasks_done: Option<i64>,
    pub nb_tasks_repairing: Option<i64>,
    pub nb_tasks_seeding: Option<i64>,
    pub nb_tasks_downloading: Option<i64>,
    pub nb_tasks_error: Option<i64>,
    pub nb_tasks_stopping: Option<i64>,
    pub nb_tasks_active: Option<i64>,
    pub nb_rss_items_unread: Option<i64>,
    pub rx_rate: Option<i64>,
    pub tx_rate: Option<i64>,
    pub throttling_mode: Option<String>,
    pub throttling_is_scheduled: Option<bool>,
    pub throttling_rate: Option<DlRate>,
    pub conn_ready: Option<bool>,
    pub nb_peer: Option<i64>,
}

/// The throttling limit in one direction, 0 when the rate or the direction is not reported.
pub open spec fn throttling_value(rate: Option<DlRate>, rx: bool) -> i64 {
    match rate {
        Some(r) => if rx { opt_i64(r.rx_rate) } else { opt_i64(r.tx_rate) },
        None => 0,
    }
}

/// The throttling limits: when a rate is reported, the receive limit is its rx rate and
/// the transmit limit its tx rate (each 0 when absent), each whatever the other
/// direction holds; when none is reported, both are 0.
pub proof fn lemma_throttling_limits_follow_their_direction(r: DlRate, other: DlRate)
    ensures
        throttling_value(Some(r), true) == (match r.rx_rate { Some(v) => v, None => 0i64 }),
        throttling_value(Some(r), false) == (match r.tx_rate { Some(v) => v, None => 0i64 }),
        other.rx_rate == r.rx_rate ==> throttling_value(Some(other), true) == throttling_value(Some(r), true),
        other.tx_rate == r.tx_rate ==> throttling_value(Some(other), false) == throttling_value(Some(r), false),
        throttling_value(None, true) == 0 && throttling_value(None, false) == 0,
{
}

/// Gauges of the download manager.
pub struct DownloadMetricMap {
    pub rx_rate_metric: Gauge,
    pub tx_rate_metric: Gauge,
    pub nb_tasks_metric: Gauge,
    pub nb_tasks_active_metric: Gauge,
    pub nb_tasks_downloading_metric: Gauge,
    pub nb_tasks_seeding_metric: Gauge,
    pub nb_tasks_stopped_metric: Gauge,
    pub nb_tasks_queued_metric: Gauge,
    pub nb_tasks_checking_metric: Gauge,
    pub nb_tasks_extracting_metric: Gauge,
    pub nb_tasks_done_metric: Gauge,
    pub nb_tasks_repairing_metric: Gauge,
    pub nb_tasks_error_metric: Gauge,
    pub nb_tasks_stopping_metric: Gauge,
    pub nb_rss_items_unread_metric: Gauge,
    pub nb_peer_metric: Gauge,
    pub conn_ready_metric: Gauge,
    pub throttling_is_scheduled_metric: Gauge,
    pub throttling_mode_metric: GaugeFamily,
    pub throttling_rx_rate_metric: Gauge,
    pub throttling_tx_rate_metric: Gauge,
}

impl DownloadMetricMap {
    /// Every family takes as many label values as it was made with label names.
    pub open spec fn well_formed(&self) -> bool {
        &&& family_arity(self.throttling_mode_metric) == 1
    }

    /// No family has a child and every single gauge is at 0.
    pub open spec fn is_cleared(&self) -> bool {
        &&& self.rx_rate_metric@ == 0
        &&& self.tx_rate_metric@ == 0
        &&& self.nb_tasks_metric@ == 0
        &&& self.nb_tasks_active_metric@ == 0
        &&& self.nb_tasks_downloading_metric@ == 0
        &&& self.nb_tasks_seeding_metric@ == 0
        &&& self.nb_tasks_stopped_metric@ == 0
        &&& self.nb_tasks_queued_metric@ == 0
        &&& self.nb_tasks_checking_metric@ == 0
        &&& self.nb_tasks_extracting_metric@ == 0
        &&& self.nb_tasks_done_metric@ == 0
        &&& self.nb_tasks_repairing_metric@ == 0
        &&& self.nb_tasks_error_metric@ == 0
        &&& self.nb_tasks_stopping_metric@ == 0
        &&& self.nb_rss_items_unread_metric@ == 0
        &&& self.nb_peer_metric@ == 0
        &&& self.conn_ready_metric@ == 0
        &&& self.throttling_is_scheduled_metric@ == 0
        &&& self.throttling_mode_metric@ == FamilyEntries::empty()
        &&& self.throttling_rx_rate_metric@ == 0
        &&& self.throttling_tx_rate_metric@ == 0
    }

    /// The metric names, help texts and label names the gauges were made with.
    pub open spec fn named(&self, prefix: Seq<char>) -> bool {
        &&& int_gauge_name(self.rx_rate_metric) == prefix + "_download_rx_rate_bytes_per_second"@
        &&& int_gauge_name(self.tx_rate_metric) == prefix + "_download_tx_rate_bytes_per_second"@
        &&& int_gauge_name(self.nb_tasks_metric) == prefix + "_download_tasks_total"@
        &&& int_gauge_name(self.nb_tasks_active_metric) == prefix + "_download_tasks_active"@
        &&& int_gauge_name(self.nb_tasks_downloading_metric) == prefix + "_download_tasks_downloading"@
        &&& int_gauge_name(self.nb_tasks_seeding_metric) == prefix + "_download_tasks_seeding"@
        &&& int_gauge_name(self.nb_tasks_stopped_metric) == prefix + "_download_tasks_stopped"@
        &&& int_gauge_name(self.nb_tasks_queued_metric) == prefix + "_download_tasks_queued"@
        &&& int_gauge_name(self.nb_tasks_checking_metric) == prefix + "_download_tasks_checking"@
        &&& int_gauge_name(self.nb_tasks_extracting_metric) == prefix + "_download_tasks_extracting"@
        &&& int_gauge_name(self.nb_tasks_done_metric) == prefix + "_download_tasks_done"@
        &&& int_gauge_name(self.nb_tasks_repairing_metric) == prefix + "_download_tasks_repairing"@
        &&& int_gauge_name(self.nb_tasks_error_metric) == prefix + "_download_tasks_error"@
        &&& int_gauge_name(self.nb_tasks_stopping_metric) == prefix + "_download_tasks_stopping"@
        &&& int_gauge_name(self.nb_rss_items_unread_metric) == prefix + "_download_rss_items_unread"@
        &&& int_gauge_name(self.nb_peer_metric) == prefix + "_download_peers_total"@
        &&& int_gauge_name(self.conn_ready_metric) == prefix + "_download_connection_ready"@
        &&& int_gauge_name(self.throttling_is_scheduled_metric) == prefix + "_download_throttling_is_scheduled"@
        &&& family_name(self.throttling_mode_metric) == prefix + "_download_throttling_mode_info"@
        &&& int_gauge_name(self.throttling_rx_rate_metric) == prefix + "_download_throttling_rx_rate_bytes_per_second"@
        &&& int_gauge_name(self.throttling_tx_rate_metric) == prefix + "_download_throttling_tx_rate_bytes_per_second"@
        &&& int_gauge_help(self.rx_rate_metric) == "Current download receive rate in bytes per second"@
        &&& int_gauge_help(self.tx_rate_metric) == "Current download transmit rate in bytes per second"@
        &&& int_gauge_help(self.nb_tasks_metric) == "Total number of download tasks"@
        &&& int_gauge_help(self.nb_tasks_active_metric) == "Number of active download tasks"@
        &&& int_gauge_help(self.nb_tasks_downloading_metric) == "Number of downloading tasks"@
        &&& int_gauge_help(self.nb_tasks_seeding_metric) == "Number of seeding tasks"@
        &&& int_gauge_help(self.nb_tasks_stopped_metric) == "Number of stopped tasks"@
        &&& int_gauge_help(self.nb_tasks_queued_metric) == "Number of queued tasks"@
        &&& int_gauge_help(self.nb_tasks_checking_metric) == "Number of checking tasks"@
        &&& int_gauge_help(self.nb_tasks_extracting_metric) == "Number of extracting tasks"@
        &&& int_gauge_help(self.nb_tasks_done_metric) == "Number of completed tasks"@
        &&& int_gauge_help(self.nb_tasks_repairing_metric) == "Number of repairing tasks"@
        &&& int_gauge_help(self.nb_tasks_error_metric) == "Number of tasks in error state"@
        &&& int_gauge_help(self.nb_tasks_stopping_metric) == "Number of tasks stopping"@
        &&& int_gauge_help(self.nb_rss_items_unread_metric) == "Number of unread RSS download items"@
        &&& int_gauge_help(self.nb_peer_metric) == "Number of connected download peers"@
        &&& int_gauge_help(self.conn_ready_metric) == "Download connection readiness (1 ready, 0 not ready)"@
        &&& int_gauge_help(self.throttling_is_scheduled_metric) == "Download throttling schedule status (1 scheduled, 0 not scheduled)"@
        &&& family_help(self.throttling_mode_metric) == "Download throttling mode information"@
        &&& family_label_names(self.throttling_mode_metric) == seq!["mode"@]
        &&& int_gauge_help(self.throttling_rx_rate_metric) == "Download throttling receive limit in bytes per second"@
        &&& int_gauge_help(self.throttling_tx_rate_metric) == "Download throttling transmit limit in bytes per second"@
    }

    /// Whether `n` is the name of one of the map's metrics under `prefix`.
    pub open spec fn is_metric_name(prefix: Seq<char>, n: Seq<char>) -> bool {
        ||| n == prefix + "_download_rx_rate_bytes_per_second"@
        ||| n == prefix + "_download_tx_rate_bytes_per_second"@
        ||| n == prefix + "_download_tasks_total"@
        ||| n == prefix + "_download_tasks_active"@
        ||| n == prefix + "_download_tasks_downloading"@
        ||| n == prefix + "_download_tasks_seeding"@
        ||| n == prefix + "_download_tasks_stopped"@
        ||| n == prefix + "_download_tasks_queued"@
        ||| n == prefix + "_download_tasks_checking"@
        ||| n == prefix + "_download_tasks_extracting"@
        ||| n == prefix + "_download_tasks_done"@
        ||| n == prefix + "_download_tasks_repairing"@
        ||| n == prefix + "_download_tasks_error"@
        ||| n == prefix + "_download_tasks_stopping"@
        ||| n == prefix + "_download_rss_items_unread"@
        ||| n == prefix + "_download_peers_total"@
        ||| n == prefix + "_download_connection_ready"@
        ||| n == prefix + "_download_throttling_is_scheduled"@
        ||| n == prefix + "_download_throttling_mode_info"@
        ||| n == prefix + "_download_throttling_rx_rate_bytes_per_second"@
        ||| n == prefix + "_download_throttling_tx_rate_bytes_per_second"@
    }

    /// Prometheus accepts what each gauge of the map is made with exactly when the
    /// prefix is one metric names may be built from.
    proof fn lemma_gauge_args(prefix: Seq<char>)
        ensures
            family_args_accepted(prefix + "_download_rx_rate_bytes_per_second"@, "Current download receive rate in bytes per second"@, Seq::empty()) == valid_prefix(prefix),
            family_args_accepted(prefix + "_download_tx_rate_bytes_per_second"@, "Current download transmit rate in bytes per second"@, Seq::empty()) == valid_prefix(prefix),
            family_args_accepted(prefix + "_download_tasks_total"@, "Total number of download tasks"@, Seq::empty()) == valid_prefix(prefix),
            family_args_accepted(prefix + "_download_tasks_active"@, "Number of active download tasks"@, Seq::empty()) == valid_prefix(prefix),
            family_args_accepted(prefix + "_download_tasks_downloading"@, "Number of downloading tasks"@, Seq::empty()) == valid_prefix(prefix),
            family_args_accepted(prefix + "_download_tasks_seeding"@, "Number of seeding tasks"@, Seq::empty()) == valid_prefix(prefix),
            family_args_accepted(prefix + "_download_tasks_stopped"@, "Number of stopped tasks"@, Seq::empty()) == valid_prefix(prefix),
            family_args_accepted(prefix + "_download_tasks_queued"@, "Number of queued tasks"@, Seq::empty()) == valid_prefix(prefix),
            family_args_accepted(prefix + "_download_tasks_checking"@, "Number of checking tasks"@, Seq::empty()) == valid_prefix(prefix),
            family_args_accepted(prefix + "_download_tasks_extracting"@, "Number of extracting tasks"@, Seq::empty()) == valid_prefix(prefix),
            family_args_accepted(prefix + "_download_tasks_done"@, "Number of completed tasks"@, Seq::empty()) == valid_prefix(prefix),
            family_args_accepted(prefix + "_download_tasks_repairing"@, "Number of repairing tasks"@, Seq::empty()) == valid_prefix(prefix),
            family_args_accepted(prefix + "_download_tasks_error"@, "Number of tasks in error state"@, Seq::empty()) == valid_prefix(prefix),
            family_args_accepted(prefix + "_download_tasks_stopping"@, "Number of tasks stopping"@, Seq::empty()) == valid_prefix(prefix),
            family_args_accepted(prefix + "_download_rss_items_unread"@, "Number of unread RSS download items"@, Seq::empty()) == valid_prefix(prefix),
            family_args_accepted(prefix + "_download_peers_total"@, "Number of connected download peers"@, Seq::empty()) == valid_prefix(prefix),
            family_args_accepted(prefix + "_download_connection_ready"@, "Download connection readiness (1 ready, 0 not ready)"@, Seq::empty()) == valid_prefix(prefix),
            family_args_accepted(prefix + "_download_throttling_is_scheduled"@, "Download throttling schedule status (1 scheduled, 0 not scheduled)"@, Seq::empty()) == valid_prefix(prefix),
            family_args_accepted(prefix + "_download_throttling_mode_info"@, "Download throttling mode information"@, seq!["mode"@]) == valid_prefix(prefix),
            family_args_accepted(prefix + "_download_throttling_rx_rate_bytes_per_second"@, "Download throttling receive limit in bytes per second"@, Seq::empty()) == valid_prefix(prefix),
            family_args_accepted(prefix + "_download_throttling_tx_rate_bytes_per_second"@, "Download throttling transmit limit in bytes per second"@, Seq::empty()) == valid_prefix(prefix),
    {
        assert(family_args_accepted(prefix + "_download_rx_rate_bytes_per_second"@, "Current download receive rate in bytes per second"@, Seq::empty()) == valid_prefix(prefix)) by {
            reveal_strlit("_download_rx_rate_bytes_per_second");
            reveal_strlit("Current download receive rate in bytes per second");
            lemma_prefixed_name_valid(prefix, "_download_rx_rate_bytes_per_second"@);
        }
        assert(family_args_accepted(prefix + "_download_tx_rate_bytes_per_second"@, "Current download transmit rate in bytes per second"@, Seq::empty()) == valid_prefix(prefix)) by {
            reveal_strlit("_download_tx_rate_bytes_per_second");
            reveal_strlit("Current download transmit rate in bytes per second");
            lemma_prefixed_name_valid(prefix, "_download_tx_rate_bytes_per_second"@);
        }
        assert(family_args_accepted(prefix + "_download_tasks_total"@, "Total number of download tasks"@, Seq::empty()) == valid_prefix(prefix)) by {
            reveal_strlit("_download_tasks_total");
            reveal_strlit("Total number of download tasks");
            lemma_prefixed_name_valid(prefix, "_download_tasks_total"@);
        }
        assert(family_args_accepted(prefix + "_download_tasks_active"@, "Number of active download tasks"@, Seq::empty()) == valid_prefix(prefix)) by {
            reveal_strlit("_download_tasks_active");
            reveal_strlit("Number of active download tasks");
            lemma_prefixed_name_valid(prefix, "_download_tasks_active"@);
        }
        assert(family_args_accepted(prefix + "_download_tasks_downloading"@, "Number of downloading tasks"@, Seq::empty()) == valid_prefix(prefix)) by {
            reveal_strlit("_download_tasks_downloading");
            reveal_strlit("Number of downloading tasks");
            lemma_prefixed_name_valid(prefix, "_download_tasks_downloading"@);
        }
        assert(family_args_accepted(prefix + "_download_tasks_seeding"@, "Number of seeding tasks"@, Seq::empty()) == valid_prefix(prefix)) by {
            reveal_strlit("_download_tasks_seeding");
            reveal_strlit("Number of seeding tasks");
            lemma_prefixed_name_valid(prefix, "_download_tasks_seeding"@);
        }
        assert(family_args_accepted(prefix + "_download_tasks_stopped"@, "Number of stopped tasks"@, Seq::empty()) == valid_prefix(prefix)) by {
            reveal_strlit("_download_tasks_stopped");
            reveal_strlit("Number of stopped tasks");
            lemma_prefixed_name_valid(prefix, "_download_tasks_stopped"@);
        }
        assert(family_args_accepted(prefix + "_download_tasks_queued"@, "Number of queued tasks"@, Seq::empty()) == valid_prefix(prefix)) by {
            reveal_strlit("_download_tasks_queued");
            reveal_strlit("Number of queued tasks");
            lemma_prefixed_name_valid(prefix, "_download_tasks_queued"@);
        }
        assert(family_args_accepted(prefix + "_download_tasks_checking"@, "Number of checking tasks"@, Seq::empty()) == valid_prefix(prefix)) by {
            reveal_strlit("_download_tasks_checking");
            reveal_strlit("Number of checking tasks");
            lemma_prefixed_name_valid(prefix, "_download_tasks_checking"@);
        }
        assert(family_args_accepted(prefix + "_download_tasks_extracting"@, "Number of extracting tasks"@, Seq::empty()) == valid_prefix(prefix)) by {
            reveal_strlit("_download_tasks_extracting");
            reveal_strlit("Number of extracting tasks");
            lemma_prefixed_name_valid(prefix, "_download_tasks_extracting"@);
        }
        assert(family_args_accepted(prefix + "_download_tasks_done"@, "Number of completed tasks"@, Seq::empty()) == valid_prefix(prefix)) by {
            reveal_strlit("_download_tasks_done");
            reveal_strlit("Number of completed tasks");
            lemma_prefixed_name_valid(prefix, "_download_tasks_done"@);
        }
        assert(family_args_accepted(prefix + "_download_tasks_repairing"@, "Number of repairing tasks"@, Seq::empty()) == valid_prefix(prefix)) by {
            reveal_strlit("_download_tasks_repairing");
            reveal_strlit("Number of repairing tasks");
            lemma_prefixed_name_valid(prefix, "_download_tasks_repairing"@);
        }
        assert(family_args_accepted(prefix + "_download_tasks_error"@, "Number of tasks in error state"@, Seq::empty()) == valid_prefix(prefix)) by {
            reveal_strlit("_download_tasks_error");
            reveal_strlit("Number of tasks in error state");
            lemma_prefixed_name_valid(prefix, "_download_tasks_error"@);
        }
        assert(family_args_accepted(prefix + "_download_tasks_stopping"@, "Number of tasks stopping"@, Seq::empty()) == valid_prefix(prefix)) by {
            reveal_strlit("_download_tasks_stopping");
            reveal_strlit("Number of tasks stopping");
            lemma_prefixed_name_valid(prefix, "_download_tasks_stopping"@);
        }
        assert(family_args_accepted(prefix + "_download_rss_items_unread"@, "Number of unread RSS download items"@, Seq::empty()) == valid_prefix(prefix)) by {
            reveal_strlit("_download_rss_items_unread");
            reveal_strlit("Number of unread RSS download items");
            lemma_prefixed_name_valid(prefix, "_download_rss_items_unread"@);
        }
        assert(family_args_accepted(prefix + "_download_peers_total"@, "Number of connected download peers"@, Seq::empty()) == valid_prefix(prefix)) by {
            reveal_strlit("_download_peers_total");
            reveal_strlit("Number of connected download peers");
            lemma_prefixed_name_valid(prefix, "_download_peers_total"@);
        }
        assert(family_args_accepted(prefix + "_download_connection_ready"@, "Download connection readiness (1 ready, 0 not ready)"@, Seq::empty()) == valid_prefix(prefix)) by {
            reveal_strlit("_download_connection_ready");
            reveal_strlit("Download connection readiness (1 ready, 0 not ready)");
            lemma_prefixed_name_valid(prefix, "_download_connection_ready"@);
        }
        assert(family_args_accepted(prefix + "_download_throttling_is_scheduled"@, "Download throttling schedule status (1 scheduled, 0 not scheduled)"@, Seq::empty()) == valid_prefix(prefix)) by {
            reveal_strlit("_download_throttling_is_scheduled");
            reveal_strlit("Download throttling schedule status (1 scheduled, 0 not scheduled)");
            lemma_prefixed_name_valid(prefix, "_download_throttling_is_scheduled"@);
        }
        assert(family_args_accepted(prefix + "_download_throttling_mode_info"@, "Download throttling mode information"@, seq!["mode"@]) == valid_prefix(prefix)) by {
            reveal_strlit("_download_throttling_mode_info");
            reveal_strlit("Download throttling mode information");
            reveal_strlit("mode");
            lemma_prefixed_name_valid(prefix, "_download_throttling_mode_info"@);
            let l = seq!["mode"@];
            assert(valid_label_name(l[0]));
        }
        assert(family_args_accepted(prefix + "_download_throttling_rx_rate_bytes_per_second"@, "Download throttling receive limit in bytes per second"@, Seq::empty()) == valid_prefix(prefix)) by {
            reveal_strlit("_download_throttling_rx_rate_bytes_per_second");
            reveal_strlit("Download throttling receive limit in bytes per second");
            lemma_prefixed_name_valid(prefix, "_download_throttling_rx_rate_bytes_per_second"@);
        }
        assert(family_args_accepted(prefix + "_download_throttling_tx_rate_bytes_per_second"@, "Download throttling transmit limit in bytes per second"@, Seq::empty()) == valid_prefix(prefix)) by {
            reveal_strlit("_download_throttling_tx_rate_bytes_per_second");
            reveal_strlit("Download throttling transmit limit in bytes per second");
            lemma_prefixed_name_valid(prefix, "_download_throttling_tx_rate_bytes_per_second"@);
        }
    }

    /// Makes and registers every gauge of the map, named after `prefix`.
    pub fn new(prefix: String) -> (r: Result<Self, GaugeError>)
        ensures
            r matches Ok(m) ==> m.well_formed() && m.is_cleared() && m.named(prefix@),
            r matches Err(e) ==> Self::is_metric_name(prefix@, gauge_error_name(e)),
            (r matches Err(e) && e is Creation) <==> !valid_prefix(prefix@),
            !valid_prefix(prefix@) ==> (r matches Err(e) && gauge_error_name(e) == prefix@ + "_download_rx_rate_bytes_per_second"@),
    {
        proof { Self::lemma_gauge_args(prefix@); }
        let rx_rate_metric = match make_int_gauge(concat(prefix.as_str(), "_download_rx_rate_bytes_per_second"), String::from_str("Current download receive rate in bytes per second")) { Ok(g) => g, Err(e) => { return Err(e); } };
        let tx_rate_metric = match make_int_gauge(concat(prefix.as_str(), "_download_tx_rate_bytes_per_second"), String::from_str("Current download transmit rate in bytes per second")) { Ok(g) => g, Err(e) => { return Err(e); } };
        let nb_tasks_metric = match make_int_gauge(concat(prefix.as_str(), "_download_tasks_total"), String::from_str("Total number of download tasks")) { Ok(g) => g, Err(e) => { return Err(e); } };
        let nb_tasks_active_metric = match make_int_gauge(concat(prefix.as_str(), "_download_tasks_active"), String::from_str("Number of active download tasks")) { Ok(g) => g, Err(e) => { return Err(e); } };
        let nb_tasks_downloading_metric = match make_int_gauge(concat(prefix.as_str(), "_download_tasks_downloading"), String::from_str("Number of downloading tasks")) { Ok(g) => g, Err(e) => { return Err(e); } };
        let nb_tasks_seeding_metric = match make_int_gauge(concat(prefix.as_str(), "_download_tasks_seeding"), String::from_str("Number of seeding tasks")) { Ok(g) => g, Err(e) => { return Err(e); } };
        let nb_tasks_stopped_metric = match make_int_gauge(concat(prefix.as_str(), "_download_tasks_stopped"), String::from_str("Number of stopped tasks")) { Ok(g) => g, Err(e) => { return Err(e); } };
        let nb_tasks_queued_metric = match make_int_gauge(concat(prefix.as_str(), "_download_tasks_queued"), String::from_str("Number of queued tasks")) { Ok(g) => g, Err(e) => { return Err(e); } };
        let nb_tasks_checking_metric = match make_int_gauge(concat(prefix.as_str(), "_download_tasks_checking"), String::from_str("Number of checking tasks")) { Ok(g) => g, Err(e) => { return Err(e); } };
        let nb_tasks_extracting_metric = match make_int_gauge(concat(prefix.as_str(), "_download_tasks_extracting"), String::from_str("Number of extracting tasks")) { Ok(g) => g, Err(e) => { return Err(e); } };
        let nb_tasks_done_metric = match make_int_gauge(concat(prefix.as_str(), "_download_tasks_done"), String::from_str("Number of completed tasks")) { Ok(g) => g, Err(e) => { return Err(e); } };
        let nb_tasks_repairing_metric = match make_int_gauge(concat(prefix.as_str(), "_download_tasks_repairing"), String::from_str("Number of repairing tasks")) { Ok(g) => g, Err(e) => { return Err(e); } };
        let nb_tasks_error_metric = match make_int_gauge(concat(prefix.as_str(), "_download_tasks_error"), String::from_str("Number of tasks in error state")) { Ok(g) => g, Err(e) => { return Err(e); } };
        let nb_tasks_stopping_metric = match make_int_gauge(concat(prefix.as_str(), "_download_tasks_stopping"), String::from_str("Number of tasks stopping")) { Ok(g) => g, Err(e) => { return Err(e); } };
        let nb_rss_items_unread_metric = match make_int_gauge(concat(prefix.as_str(), "_download_rss_items_unread"), String::from_str("Number of unread RSS download items")) { Ok(g) => g, Err(e) => { return Err(e); } };
        let nb_peer_metric = match make_int_gauge(concat(prefix.as_str(), "_download_peers_total"), String::from_str("Number of connected download peers")) { Ok(g) => g, Err(e) => { return Err(e); } };
        let conn_ready_metric = match make_int_gauge(concat(prefix.as_str(), "_download_connection_ready"), String::from_str("Download connection readiness (1 ready, 0 not ready)")) { Ok(g) => g, Err(e) => { return Err(e); } };
        let throttling_is_scheduled_metric = match make_int_gauge(concat(prefix.as_str(), "_download_throttling_is_scheduled"), String::from_str("Download throttling schedule status (1 scheduled, 0 not scheduled)")) { Ok(g) => g, Err(e) => { return Err(e); } };
        let throttling_mode_metric_labels = vec![String::from_str("mode")];
        proof { assert(label_view(throttling_mode_metric_labels@) =~= seq!["mode"@]); }
        let throttling_mode_metric = match make_family(concat(prefix.as_str(), "_download_throttling_mode_info"), String::from_str("Download throttling mode information"), throttling_mode_metric_labels) { Ok(g) => g, Err(e) => { return Err(e); } };
        let throttling_rx_rate_metric = match make_int_gauge(concat(prefix.as_str(), "_download_throttling_rx_rate_bytes_per_second"), String::from_str("Download throttling receive limit in bytes per second")) { Ok(g) => g, Err(e) => { return Err(e); } };
        let throttling_tx_rate_metric = match make_int_gauge(concat(prefix.as_str(), "_download_throttling_tx_rate_bytes_per_second"), String::from_str("Download throttling transmit limit in bytes per second")) { Ok(g) => g, Err(e) => { return Err(e); } };
        Ok(DownloadMetricMap { rx_rate_metric, tx_rate_metric, nb_tasks_metric, nb_tasks_active_metric, nb_tasks_downloading_metric, nb_tasks_seeding_metric, nb_tasks_stopped_metric, nb_tasks_queued_metric, nb_tasks_checking_metric, nb_tasks_extracting_metric, nb_tasks_done_metric, nb_tasks_repairing_metric, nb_tasks_error_metric, nb_tasks_stopping_metric, nb_rss_items_unread_metric, nb_peer_metric, conn_ready_metric, throttling_is_scheduled_metric, throttling_mode_metric, throttling_rx_rate_metric, throttling_tx_rate_metric })
    }

    /// The metric names of the gauges, in declaration order.
    pub open spec fn names_of(&self) -> Seq<Seq<char>> {
        seq![int_gauge_name(self.rx_rate_metric), int_gauge_name(self.tx_rate_metric), int_gauge_name(self.nb_tasks_metric), int_gauge_name(self.nb_tasks_active_metric), int_gauge_name(self.nb_tasks_downloading_metric), int_gauge_name(self.nb_tasks_seeding_metric), int_gauge_name(self.nb_tasks_stopped_metric), int_gauge_name(self.nb_tasks_queued_metric), int_gauge_name(self.nb_tasks_checking_metric), int_gauge_name(self.nb_tasks_extracting_metric), int_gauge_name(self.nb_tasks_done_metric), int_gauge_name(self.nb_tasks_repairing_metric), int_gauge_name(self.nb_tasks_error_metric), int_gauge_name(self.nb_tasks_stopping_metric), int_gauge_name(self.nb_rss_items_unread_metric), int_gauge_name(self.nb_peer_metric), int_gauge_name(self.conn_ready_metric), int_gauge_name(self.throttling_is_scheduled_metric), family_name(self.throttling_mode_metric), int_gauge_name(self.throttling_rx_rate_metric), int_gauge_name(self.throttling_tx_rate_metric)]
    }



    /// Writes the download manager's counters; the throttling mode family holds
    /// exactly one child afterwards, the mode (or "unknown"), at 1.
    pub fn set_download_metrics(&mut self, stats: &DownloadStats)
        requires
            old(self).well_formed(),
        ensures
            final(self).well_formed(),
            final(self).names_of() == old(self).names_of(),
            final(self).rx_rate_metric@ == opt_i64(stats.rx_rate),
            final(self).tx_rate_metric@ == opt_i64(stats.tx_rate),
            final(self).nb_tasks_metric@ == opt_i64(stats.nb_tasks),
            final(self).nb_tasks_active_metric@ == opt_i64(stats.nb_tasks_active),
            final(self).nb_tasks_downloading_metric@ == opt_i64(stats.nb_tasks_downloading),
            final(self).nb_tasks_seeding_metric@ == opt_i64(stats.nb_tasks_seeding),
            final(self).nb_tasks_stopped_metric@ == opt_i64(stats.nb_tasks_stopped),
            final(self).nb_tasks_queued_metric@ == opt_i64(stats.nb_tasks_queued),
            final(self).nb_tasks_checking_metric@ == opt_i64(stats.nb_tasks_checking),
            final(self).nb_tasks_extracting_metric@ == opt_i64(stats.nb_tasks_extracting),
            final(self).nb_tasks_done_metric@ == opt_i64(stats.nb_tasks_done),
            final(self).nb_tasks_repairing_metric@ == opt_i64(stats.nb_tasks_repairing),
            final(self).nb_tasks_error_metric@ == opt_i64(stats.nb_tasks_error),
            final(self).nb_tasks_stopping_metric@ == opt_i64(stats.nb_tasks_stopping),
            final(self).nb_rss_items_unread_metric@ == opt_i64(stats.nb_rss_items_unread),
            final(self).nb_peer_metric@ == opt_i64(stats.nb_peer),
            final(self).conn_ready_metric@ == opt_flag(stats.conn_ready),
            final(self).throttling_is_scheduled_metric@ == opt_flag(stats.throttling_is_scheduled),
            final(self).throttling_mode_metric@ == family_put(FamilyEntries::empty(), seq![opt_text_or(stats.throttling_mode, "unknown"@)], 1),
            final(self).throttling_rx_rate_metric@ == throttling_value(stats.throttling_rate, true),
            final(self).throttling_tx_rate_metric@ == throttling_value(stats.throttling_rate, false),
    {
        int_gauge_set(&mut self.rx_rate_metric, opt_i64_value(stats.rx_rate));
        int_gauge_set(&mut self.tx_rate_metric, opt_i64_value(stats.tx_rate));
        int_gauge_set(&mut self.nb_tasks_metric, opt_i64_value(stats.nb_tasks));
        int_gauge_set(&mut self.nb_tasks_active_metric, opt_i64_value(stats.nb_tasks_active));
        int_gauge_set(&mut self.nb_tasks_downloading_metric, opt_i64_value(stats.nb_tasks_downloading));
        int_gauge_set(&mut self.nb_tasks_seeding_metric, opt_i64_value(stats.nb_tasks_seeding));
        int_gauge_set(&mut self.nb_tasks_stopped_metric, opt_i64_value(stats.nb_tasks_stopped));
        int_gauge_set(&mut self.nb_tasks_queued_metric, opt_i64_value(stats.nb_tasks_queued));
        int_gauge_set(&mut self.nb_tasks_checking_metric, opt_i64_value(stats.nb_tasks_checking));
        int_gauge_set(&mut self.nb_tasks_extracting_metric, opt_i64_value(stats.nb_tasks_extracting));
        int_gauge_set(&mut self.nb_tasks_done_metric, opt_i64_value(stats.nb_tasks_done));
        int_gauge_set(&mut self.nb_tasks_repairing_metric, opt_i64_value(stats.nb_tasks_repairing));
        int_gauge_set(&mut self.nb_tasks_error_metric, opt_i64_value(stats.nb_tasks_error));
        int_gauge_set(&mut self.nb_tasks_stopping_metric, opt_i64_value(stats.nb_tasks_stopping));
        int_gauge_set(&mut self.nb_rss_items_unread_metric, opt_i64_value(stats.nb_rss_items_unread));
        int_gauge_set(&mut self.nb_peer_metric, opt_i64_value(stats.nb_peer));
        int_gauge_set(&mut self.conn_ready_metric, opt_flag_value(stats.conn_ready));
        int_gauge_set(&mut self.throttling_is_scheduled_metric, opt_flag_value(stats.throttling_is_scheduled));
        family_reset(&mut self.throttling_mode_metric);
        family_set(&mut self.throttling_mode_metric, &labels1(text_or(&stats.throttling_mode, "unknown")), 1);
        let (rx, tx) = match &stats.throttling_rate {
            Some(r) => (opt_i64_value(r.rx_rate), opt_i64_value(r.tx_rate)),
            None => (0, 0),
        };
        int_gauge_set(&mut self.throttling_rx_rate_metric, rx);
        int_gauge_set(&mut self.throttling_tx_rate_metric, tx);
    }
}

}
