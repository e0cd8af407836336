//! Metrics of the Wi-Fi access points, their stations, their neighbours and the
//! channels they use (`v4/wifi/...`).
use super::{flag, flag_value, labels1, labels3, opt_i64, opt_i64_value, opt_text, opt_text_or, push_label, text_or, text_or_default};
use crate::gauge::{
    family_args_accepted, lemma_prefixed_name_valid, valid_label_name, valid_prefix,
    family_help, family_label_names,
    family_arity, family_ensure, family_name, family_put, family_reset, family_set, family_touch,
    label_view, make_family, FamilyEntries, gauge_error_name, GaugeError, GaugeFamily,
    family_value, label_key,
};
use crate::text::{
    bool_text, bool_to_string, concat, i64_to_decimal, int_to_decimal, parse_i64, spec_parse_i64,
    str_eq, u64_to_decimal,
};
use crate::transport::FreeboxResponseError;
use vstd::prelude::*;

verus! {

/// The Wi-Fi configuration (`v4/wifi/config`).
#[derive(Clone, Debug)]
pub struct WifiConfig {
    pub enabled: Option<bool>,
    pub power_saving: Option<bool>,
    pub expected_phys: Option<Vec<ExpectedPhy>>,
    pub mac_filter_state: Option<String>,
}

/// A radio the configuration expects.
#[derive(Clone, Debug)]
pub struct ExpectedPhy {
    pub band: Option<String>,
    pub phy_id: Option<i16>,
    pub detected: Option<bool>,
}

/// A device associated with an access point.
#[derive(Clone, Debug)]
pub struct Station {
    pub mac: Option<String>,
    pub last_rx: Option<LastRxTx>,
    pub last_tx: Option<LastRxTx>,
    pub tx_bytes: Option<u64>,
    pub tx_rate: Option<u64>,
    pub rx_bytes: Option<u64>,
    pub rx_rate: Option<u64>,
    pub id: Option<String>,
    pub bssid: Option<String>,
    pub flags: Option<Flags>,
    pub host: Option<Host>,
    pub signal: Option<i8>,
    pub inactive: Option<i64>,
    pub state: Option<String>,
}

/// What an access point is configured for.
#[derive(Clone, Debug)]
pub struct AccessPointCapabilities {
    pub band: Option<String>,
}

/// An access point of the box.
#[derive(Clone, Debug)]
pub struct AccessPoint {
    pub name: Option<String>,
    pub id: Option<u8>,
    pub config: Option<AccessPointCapabilities>,
}

/// The last frame received from, or sent to, a station.
#[derive(Clone, Debug)]
pub struct LastRxTx {
    pub bitrate: Option<u64>,
    pub mcs: Option<i64>,
    pub shortgi: Option<bool>,
    pub vht_mcs: Option<i64>,
    pub width: Option<String>,
}

/// The capabilities a station uses.
#[derive(Clone, Debug)]
pub struct Flags {
    pub vht: Option<bool>,
    pub legacy: Option<bool>,
    pub authorized: Option<bool>,
    pub ht: Option<bool>,
}

/// The LAN host behind a station.
#[derive(Clone, Debug)]
pub struct Host {
    pub l2ident: Option<L2Ident>,
    pub l3connectivities: Option<Vec<L3Connectivities>>,
    pub names: Option<Vec<HostName>>,
    pub active: Option<bool>,
    pub last_activity: Option<i64>,
    pub last_time_reachable: Option<i64>,
    pub vendor_name: Option<String>,
    pub primary_name: Option<String>,
    pub primary_name_manual: Option<bool>,
}

/// A name of a host and where it was learnt.
#[derive(Clone, Debug)]
pub struct HostName {
    pub name: Option<String>,
    pub source: Option<String>,
}

/// The layer-2 identity of a host (its `type` in the API).
#[derive(Clone, Debug)]
pub struct L2Ident {
    pub id: Option<String>,
    pub ident_type: Option<String>,
}

/// A layer-3 address of a host.
#[derive(Clone, Debug)]
pub struct L3Connectivities {
    pub addr: Option<String>,
    pub af: Option<String>,
    pub active: Option<bool>,
    pub reachable: Option<bool>,
    pub last_activity: Option<i64>,
    pub last_time_reachable: Option<i64>,
}

/// One sample of how busy an access point's channel was.
#[derive(Clone, Copy, Debug)]
pub struct ChannelSurveyHistory {
    pub timestamp: Option<u64>,
    pub busy_percent: Option<u8>,
    pub tx_percent: Option<u8>,
    pub rx_bss_percent: Option<u8>,
    pub rx_percent: Option<u8>,
}

/// An access point seen around the box.
#[derive(Clone, Debug)]
pub struct NeighborsAccessPoint {
    pub capabilities: Option<NeighborsAccessPointFlags>,
    pub channel: Option<u8>,
    pub ssid: Option<String>,
    pub bssid: Option<String>,
    pub signal: Option<i8>,
    pub secondary_channel: Option<u8>,
    pub band: Option<String>,
}

/// The standards a neighbouring access point supports.
#[derive(Clone, Debug)]
pub struct NeighborsAccessPointFlags {
    pub vht: Option<bool>,
    pub legacy: Option<bool>,
    pub he: Option<bool>,
    pub ht: Option<bool>,
    pub eht: Option<bool>,
}

/// How a channel is used.
#[derive(Clone, Debug)]
pub struct ChannelUsage {
    pub band: Option<String>,
    pub noise_level: Option<i8>,
    pub channel: Option<u8>,
    pub rx_busy_percent: Option<u8>,
}

/// The largest number of samples whose percentages can be summed in a `u32`.
pub const MAX_SURVEY_SAMPLES: usize = 16843009;

/// The time of a sample (0 when absent).
pub open spec fn survey_time(h: ChannelSurveyHistory) -> u64 {
    match h.timestamp {
        Some(t) => t,
        None => 0,
    }
}

/// An optional percentage, 0 when absent.
pub open spec fn pct(o: Option<u8>) -> u8 {
    match o {
        Some(v) => v,
        None => 0,
    }
}

/// `x` placed into `s` (newest first) after every sample at least as recent.
pub open spec fn insert_by_time(s: Seq<ChannelSurveyHistory>, x: ChannelSurveyHistory) -> Seq<ChannelSurveyHistory>
    decreases s.len(),
{
    if s.len() == 0 {
        seq![x]
    } else if survey_time(s[0]) < survey_time(x) {
        seq![x] + s
    } else {
        seq![s[0]] + insert_by_time(s.drop_first(), x)
    }
}

/// The samples newest first; samples of the same time keep their order (a stable sort).
pub open spec fn sort_newest_first(s: Seq<ChannelSurveyHistory>) -> Seq<ChannelSurveyHistory>
    decreases s.len(),
{
    if s.len() == 0 {
        s
    } else {
        insert_by_time(sort_newest_first(s.drop_last()), s.last())
    }
}

/// The samples kept for the average when there are more than `max_range`: the
/// `max_range` most recent ones, newest first.
pub open spec fn recent_samples(s: Seq<ChannelSurveyHistory>, max_range: nat) -> Seq<ChannelSurveyHistory> {
    if s.len() <= max_range {
        s
    } else {
        sort_newest_first(s).take(max_range as int)
    }
}

/// With more samples than the range, the samples kept are the `max_range` most recent
/// ones, newest first: they are taken from the samples given, and each is at least as
/// recent as every sample left out.
pub proof fn lemma_recent_samples_are_the_newest(s: Seq<ChannelSurveyHistory>, max_range: nat)
    requires
        s.len() > max_range,
    ensures
        recent_samples(s, max_range).len() == max_range,
        newest_first(recent_samples(s, max_range)),
        recent_samples(s, max_range).to_multiset().subset_of(s.to_multiset()),
        forall|x: ChannelSurveyHistory, i: int|
            #![trigger recent_samples(s, max_range)[i], s.to_multiset().count(x)]
            s.to_multiset().count(x) > recent_samples(s, max_range).to_multiset().count(x) && 0 <= i < max_range
                ==> survey_time(recent_samples(s, max_range)[i]) >= survey_time(x),
{
    broadcast use vstd::seq_lib::group_to_multiset_ensures;
    let t = sort_newest_first(s);
    lemma_sort_newest_first(s);
    lemma_sort_len(s);
    let r = t.take(max_range as int);
    let d = t.skip(max_range as int);
    assert(r + d =~= t);
    vstd::seq_lib::lemma_multiset_commutative(r, d);
    assert(t.to_multiset() =~= r.to_multiset().add(d.to_multiset()));
    assert(recent_samples(s, max_range) == r);
    assert forall|i: int, j: int| 0 <= i < j < r.len() implies survey_time(#[trigger] r[i]) >= survey_time(#[trigger] r[j]) by {
        assert(r[i] == t[i] && r[j] == t[j]);
    }
    assert forall|x: ChannelSurveyHistory, i: int|
        #![trigger r[i], s.to_multiset().count(x)]
        s.to_multiset().count(x) > r.to_multiset().count(x) && 0 <= i < max_range implies survey_time(r[i]) >= survey_time(x) by {
        assert(d.to_multiset().count(x) > 0);
        assert(d.contains(x));
        let k = choose|k: int| 0 <= k < d.len() && d[k] == x;
        assert(d[k] == t[max_range + k]);
        assert(r[i] == t[i]);
    }
}

/// The sum of one percentage over the samples.
pub open spec fn sum_pct(s: Seq<ChannelSurveyHistory>, f: spec_fn(ChannelSurveyHistory) -> u8) -> nat
    decreases s.len(),
{
    if s.len() == 0 {
        0
    } else {
        sum_pct(s.drop_last(), f) + f(s.last()) as nat
    }
}

/// The integer average of one percentage over (non-empty) samples.
pub open spec fn avg_pct(s: Seq<ChannelSurveyHistory>, f: spec_fn(ChannelSurveyHistory) -> u8) -> u8 {
    (sum_pct(s, f) / s.len()) as u8
}

/// A sum of percentages is at most 255 per sample.
proof fn lemma_sum_pct_bound(s: Seq<ChannelSurveyHistory>, f: spec_fn(ChannelSurveyHistory) -> u8)
    ensures
        sum_pct(s, f) <= 255 * s.len(),
    decreases s.len(),
{
    if s.len() > 0 {
        lemma_sum_pct_bound(s.drop_last(), f);
    }
}

/// Sorting keeps the number of samples.
proof fn lemma_sort_len(s: Seq<ChannelSurveyHistory>)
    ensures
        sort_newest_first(s).len() == s.len(),
    decreases s.len(),
{
    if s.len() > 0 {
        lemma_sort_len(s.drop_last());
        lemma_insert_len(sort_newest_first(s.drop_last()), s.last());
    }
}

/// Inserting adds one sample.
proof fn lemma_insert_len(s: Seq<ChannelSurveyHistory>, x: ChannelSurveyHistory)
    ensures
        insert_by_time(s, x).len() == s.len() + 1,
    decreases s.len(),
{
    if s.len() > 0 && survey_time(s[0]) >= survey_time(x) {
        lemma_insert_len(s.drop_first(), x);
    }
}

/// Inserting into the newest-first order puts the sample at the first position whose
/// sample is older.
proof fn lemma_insert_at(s: Seq<ChannelSurveyHistory>, x: ChannelSurveyHistory, p: int)
    requires
        0 <= p <= s.len(),
        forall|j: int| 0 <= j < p ==> survey_time(#[trigger] s[j]) >= survey_time(x),
        p < s.len() ==> survey_time(s[p]) < survey_time(x),
    ensures
        insert_by_time(s, x) == s.take(p).push(x) + s.skip(p),
    decreases p,
{
    if p == 0 {
        if s.len() == 0 {
            assert(s.take(0).push(x) + s.skip(0) =~= seq![x]);
        } else {
            assert(s.take(0).push(x) + s.skip(0) =~= seq![x] + s);
        }
    } else {
        let t = s.drop_first();
        assert forall|j: int| 0 <= j < p - 1 implies survey_time(#[trigger] t[j]) >= survey_time(x) by {
            assert(t[j] == s[j + 1]);
        }
        lemma_insert_at(t, x, p - 1);
        assert(seq![s[0]] + (t.take(p - 1).push(x) + t.skip(p - 1)) =~= s.take(p).push(x) + s.skip(p));
    }
}

/// The time of a sample (0 when absent).
fn sample_time(h: &ChannelSurveyHistory) -> (t: u64)
    ensures
        t == survey_time(*h),
{
    match h.timestamp {
        Some(t) => t,
        None => 0,
    }
}

/// Samples ordered newest first.
pub open spec fn newest_first(s: Seq<ChannelSurveyHistory>) -> bool {
    forall|i: int, j: int| 0 <= i < j < s.len() ==> survey_time(#[trigger] s[i]) >= survey_time(#[trigger] s[j])
}

/// Where inserting `x` puts it: before the first older sample.
pub open spec fn insert_pos(s: Seq<ChannelSurveyHistory>, x: ChannelSurveyHistory) -> int
    decreases s.len(),
{
    if s.len() == 0 {
        0
    } else if survey_time(s[0]) < survey_time(x) {
        0
    } else {
        1 + insert_pos(s.drop_first(), x)
    }
}

proof fn lemma_insert_pos(s: Seq<ChannelSurveyHistory>, x: ChannelSurveyHistory)
    ensures
        0 <= insert_pos(s, x) <= s.len(),
        forall|j: int| 0 <= j < insert_pos(s, x) ==> survey_time(#[trigger] s[j]) >= survey_time(x),
        insert_pos(s, x) < s.len() ==> survey_time(s[insert_pos(s, x)]) < survey_time(x),
    decreases s.len(),
{
    if s.len() > 0 && survey_time(s[0]) >= survey_time(x) {
        let t = s.drop_first();
        lemma_insert_pos(t, x);
        assert forall|j: int| 0 <= j < insert_pos(s, x) implies survey_time(#[trigger] s[j]) >= survey_time(x) by {
            if j > 0 {
                assert(s[j] == t[j - 1]);
            }
        }
        if insert_pos(s, x) < s.len() {
            assert(s[insert_pos(s, x)] == t[insert_pos(t, x)]);
        }
    }
}

/// Inserting into a newest-first order keeps it newest first and adds the sample.
proof fn lemma_insert_keeps_order(s: Seq<ChannelSurveyHistory>, x: ChannelSurveyHistory)
    requires
        newest_first(s),
    ensures
        newest_first(insert_by_time(s, x)),
        insert_by_time(s, x).to_multiset() =~= s.to_multiset().insert(x),
{
    broadcast use vstd::seq_lib::group_to_multiset_ensures;
    let p = insert_pos(s, x);
    lemma_insert_pos(s, x);
    lemma_insert_at(s, x, p);
    let r = insert_by_time(s, x);
    assert(r =~= s.insert(p, x));
    assert forall|i: int, j: int| 0 <= i < j < r.len() implies survey_time(#[trigger] r[i]) >= survey_time(#[trigger] r[j]) by {
        if j < p {
            assert(r[i] == s[i] && r[j] == s[j]);
        } else if j == p {
            assert(r[i] == s[i]);
        } else if i < p {
            assert(r[i] == s[i] && r[j] == s[j - 1]);
        } else if i == p {
            assert(r[j] == s[j - 1]);
            assert(survey_time(s[p]) >= survey_time(s[j - 1]) || j - 1 == p);
        } else {
            assert(r[i] == s[i - 1] && r[j] == s[j - 1]);
        }
    }
}

/// The newest-first order is sorted by time, newest first, and holds exactly the samples
/// it was given.
pub proof fn lemma_sort_newest_first(s: Seq<ChannelSurveyHistory>)
    ensures
        newest_first(sort_newest_first(s)),
        sort_newest_first(s).to_multiset() =~= s.to_multiset(),
    decreases s.len(),
{
    broadcast use vstd::seq_lib::group_to_multiset_ensures;
    if s.len() > 0 {
        lemma_sort_newest_first(s.drop_last());
        lemma_insert_keeps_order(sort_newest_first(s.drop_last()), s.last());
        assert(s.drop_last().push(s.last()) =~= s);
    }
}

/// The samples newest first, samples of the same time in their given order.
pub fn sort_samples_newest_first(h: &Vec<ChannelSurveyHistory>) -> (r: Vec<ChannelSurveyHistory>)
    ensures
        r@ == sort_newest_first(h@),
{
    let mut out: Vec<ChannelSurveyHistory> = Vec::new();
    let mut i: usize = 0;
    while i < h.len()
        invariant
            i <= h.len(),
            out@ == sort_newest_first(h@.take(i as int)),
        decreases h.len() - i,
    {
        let x = h[i];
        let t = sample_time(&x);
        let mut p: usize = 0;
        while p < out.len() && sample_time(&out[p]) >= t
            invariant
                p <= out.len(),
                t == survey_time(x),
                forall|j: int| 0 <= j < p ==> survey_time(#[trigger] out@[j]) >= t,
            decreases out.len() - p,
        {
            p = p + 1;
        }
        proof {
            lemma_insert_at(out@, x, p as int);
            assert(h@.take(i as int + 1).drop_last() =~= h@.take(i as int));
        }
        out.insert(p, x);
        assert(out@ =~= sort_newest_first(h@.take(i as int + 1)));
        i = i + 1;
    }
    assert(h@.take(h.len() as int) =~= h@);
    out
}

/// The busy percentage of a sample.
pub open spec fn busy_of(h: ChannelSurveyHistory) -> u8 {
    pct(h.busy_percent)
}

/// The transmit percentage of a sample.
pub open spec fn tx_of(h: ChannelSurveyHistory) -> u8 {
    pct(h.tx_percent)
}

/// The receive-from-own-network percentage of a sample.
pub open spec fn rx_bss_of(h: ChannelSurveyHistory) -> u8 {
    pct(h.rx_bss_percent)
}

/// The receive percentage of a sample.
pub open spec fn rx_of(h: ChannelSurveyHistory) -> u8 {
    pct(h.rx_percent)
}

/// The sum of one percentage over the samples, in a `u32`.
fn sum_percent(h: &Vec<ChannelSurveyHistory>, which: u8) -> (s: u32)
    requires
        h.len() <= MAX_SURVEY_SAMPLES,
        which < 4,
    ensures
        which == 0 ==> s == sum_pct(h@, |x: ChannelSurveyHistory| busy_of(x)),
        which == 1 ==> s == sum_pct(h@, |x: ChannelSurveyHistory| tx_of(x)),
        which == 2 ==> s == sum_pct(h@, |x: ChannelSurveyHistory| rx_bss_of(x)),
        which == 3 ==> s == sum_pct(h@, |x: ChannelSurveyHistory| rx_of(x)),
{
    let ghost f: spec_fn(ChannelSurveyHistory) -> u8 = if which == 0 {
        |x: ChannelSurveyHistory| busy_of(x)
    } else if which == 1 {
        |x: ChannelSurveyHistory| tx_of(x)
    } else if which == 2 {
        |x: ChannelSurveyHistory| rx_bss_of(x)
    } else {
        |x: ChannelSurveyHistory| rx_of(x)
    };
    let mut sum: u32 = 0;
    let mut i: usize = 0;
    while i < h.len()
        invariant
            i <= h.len(),
            h.len() <= MAX_SURVEY_SAMPLES,
            which < 4,
            f == (if which == 0 {
                |x: ChannelSurveyHistory| busy_of(x)
            } else if which == 1 {
                |x: ChannelSurveyHistory| tx_of(x)
            } else if which == 2 {
                |x: ChannelSurveyHistory| rx_bss_of(x)
            } else {
                |x: ChannelSurveyHistory| rx_of(x)
            }),
            sum == sum_pct(h@.take(i as int), f),
            sum <= 255 * i,
        decreases h.len() - i,
    {
        let x = h[i];
        let o = if which == 0 {
            x.busy_percent
        } else if which == 1 {
            x.tx_percent
        } else if which == 2 {
            x.rx_bss_percent
        } else {
            x.rx_percent
        };
        let v: u8 = match o {
            Some(v) => v,
            None => 0,
        };
        assert(h@.take(i as int + 1).drop_last() =~= h@.take(i as int));
        assert(v == f(h@[i as int]));
        sum = sum + v as u32;
        i = i + 1;
    }
    assert(h@.take(h.len() as int) =~= h@);
    sum
}

/// The average of each percentage over the samples, stamped with `timestamp`
/// (seconds since the Unix epoch).
pub fn average_channel_survey_history(histories: &Vec<ChannelSurveyHistory>, timestamp: u64) -> (r: ChannelSurveyHistory)
    requires
        0 < histories.len() <= MAX_SURVEY_SAMPLES,
    ensures
        r.timestamp == Some(timestamp),
        r.busy_percent == Some(avg_pct(histories@, |x: ChannelSurveyHistory| busy_of(x))),
        r.tx_percent == Some(avg_pct(histories@, |x: ChannelSurveyHistory| tx_of(x))),
        r.rx_bss_percent == Some(avg_pct(histories@, |x: ChannelSurveyHistory| rx_bss_of(x))),
        r.rx_percent == Some(avg_pct(histories@, |x: ChannelSurveyHistory| rx_of(x))),
{
    let len = histories.len() as u32;
    let busy = sum_percent(histories, 0) / len;
    let tx = sum_percent(histories, 1) / len;
    let rx_bss = sum_percent(histories, 2) / len;
    let rx = sum_percent(histories, 3) / len;
    ChannelSurveyHistory {
        timestamp: Some(timestamp),
        busy_percent: Some(busy as u8),
        tx_percent: Some(tx as u8),
        rx_bss_percent: Some(rx_bss as u8),
        rx_percent: Some(rx as u8),
    }
}

/// `chrono::offset::Local::now().timestamp()`: the current time, in seconds since the
/// Unix epoch. It reads the clock, so nothing is stated of it. chrono panics when the
/// system clock reads earlier than the Unix epoch; no input of the library leads there,
/// only a machine whose clock is set before 1970.
#[verifier::external_body]
fn local_timestamp() -> (t: i64) {
    chrono::offset::Local::now().timestamp()
}

/// The average of each percentage over the samples, stamped with the current time.
pub fn calculate_avg_channel_survey_history(histories: &Vec<ChannelSurveyHistory>) -> (r: ChannelSurveyHistory)
    requires
        0 < histories.len() <= MAX_SURVEY_SAMPLES,
    ensures
        r.timestamp is Some,
        r.busy_percent == Some(avg_pct(histories@, |x: ChannelSurveyHistory| busy_of(x))),
        r.tx_percent == Some(avg_pct(histories@, |x: ChannelSurveyHistory| tx_of(x))),
        r.rx_bss_percent == Some(avg_pct(histories@, |x: ChannelSurveyHistory| rx_bss_of(x))),
        r.rx_percent == Some(avg_pct(histories@, |x: ChannelSurveyHistory| rx_of(x))),
{
    let now = local_timestamp();
    average_channel_survey_history(histories, now as u64)
}

/// The samples to average: a single empty sample stamped now when there are none, all
/// of them when there are at most `max_range`, else the `max_range` most recent ones,
/// newest first.
pub fn get_recent_channel_entries(histories: &Vec<ChannelSurveyHistory>, max_range: usize) -> (r: Vec<ChannelSurveyHistory>)
    requires
        histories.len() <= u32::MAX,
        max_range <= u32::MAX,
    ensures
        histories.len() == 0 ==> r.len() == 1 && r@[0].timestamp is Some && r@[0].busy_percent == Some(0u8)
            && r@[0].tx_percent == Some(0u8) && r@[0].rx_bss_percent == Some(0u8) && r@[0].rx_percent == Some(0u8),
        histories.len() > 0 ==> r@ == recent_samples(histories@, max_range as nat),
{
    if histories.len() == 0 {
        let now = local_timestamp();
        vec![ChannelSurveyHistory {
            timestamp: Some(now as u64),
            busy_percent: Some(0),
            tx_percent: Some(0),
            rx_bss_percent: Some(0),
            rx_percent: Some(0),
        }]
    } else if histories.len() <= max_range {
        let mut v: Vec<ChannelSurveyHistory> = Vec::new();
        let mut i: usize = 0;
        while i < histories.len()
            invariant
                i <= histories.len(),
                v@ == histories@.take(i as int),
            decreases histories.len() - i,
        {
            v.push(histories[i]);
            assert(v@ =~= histories@.take(i as int + 1));
            i = i + 1;
        }
        assert(histories@.take(histories.len() as int) =~= histories@);
        v
    } else {
        let sorted = sort_samples_newest_first(histories);
        proof {
            lemma_sort_len(histories@);
        }
        let mut v: Vec<ChannelSurveyHistory> = Vec::new();
        let mut i: usize = 0;
        while i < max_range
            invariant
                i <= max_range < sorted.len(),
                sorted.len() == histories.len(),
                v@ == sorted@.take(i as int),
            decreases max_range - i,
        {
            v.push(sorted[i]);
            assert(v@ =~= sorted@.take(i as int + 1));
            i = i + 1;
        }
        v
    }
}

/// The time an address was last reachable (0 when absent).
pub open spec fn l3_time(l: L3Connectivities) -> i64 {
    match l.last_time_reachable {
        Some(t) => t,
        None => 0,
    }
}

/// An address is an IPv4 one ("unknown" family when absent).
pub open spec fn is_ipv4(l: L3Connectivities) -> bool {
    opt_text_or(l.af, "unknown"@) == "ipv4"@
}

/// The IPv4 address reachable most recently; of several reachable at that time, the
/// first. None when there is no IPv4 address.
pub open spec fn best_ipv4(s: Seq<L3Connectivities>) -> Option<L3Connectivities>
    decreases s.len(),
{
    if s.len() == 0 {
        None
    } else {
        let b = best_ipv4(s.drop_last());
        let x = s.last();
        if is_ipv4(x) && (b is None || l3_time(x) > l3_time(b.unwrap())) {
            Some(x)
        } else {
            b
        }
    }
}

/// `b`, at position `k`, is the IPv4 address of `s` reachable most recently, and no
/// IPv4 address before it was reachable as recently.
pub open spec fn most_recent_ipv4_at(s: Seq<L3Connectivities>, k: int) -> bool {
    &&& 0 <= k < s.len()
    &&& is_ipv4(s[k])
    &&& forall|j: int| 0 <= j < s.len() && is_ipv4(#[trigger] s[j]) ==> l3_time(s[j]) <= l3_time(s[k])
    &&& forall|j: int| 0 <= j < k && is_ipv4(#[trigger] s[j]) ==> l3_time(s[j]) < l3_time(s[k])
}

/// The address reported for a station is its IPv4 address reachable most recently, the
/// first of those reachable at that time; there is none only when it has no IPv4 address.
pub proof fn lemma_best_ipv4(s: Seq<L3Connectivities>)
    ensures
        best_ipv4(s) is None <==> forall|i: int| 0 <= i < s.len() ==> !is_ipv4(#[trigger] s[i]),
        best_ipv4(s) matches Some(b) ==> exists|k: int| most_recent_ipv4_at(s, k) && s[k] == b,
    decreases s.len(),
{
    if s.len() > 0 {
        let t = s.drop_last();
        lemma_best_ipv4(t);
        let x = s.last();
        let n = s.len() - 1;
        assert forall|i: int| 0 <= i < n implies #[trigger] s[i] == t[i] by {}
        match best_ipv4(t) {
            None => {
                if is_ipv4(x) {
                    assert(most_recent_ipv4_at(s, n));
                } else {
                    assert forall|i: int| 0 <= i < s.len() implies !is_ipv4(#[trigger] s[i]) by {
                        if i < n {
                            assert(s[i] == t[i]);
                        }
                    }
                }
            },
            Some(b) => {
                let k = choose|k: int| most_recent_ipv4_at(t, k) && t[k] == b;
                if is_ipv4(x) && l3_time(x) > l3_time(b) {
                    assert(most_recent_ipv4_at(s, n));
                } else {
                    assert(most_recent_ipv4_at(s, k));
                }
                assert(!(forall|i: int| 0 <= i < s.len() ==> !is_ipv4(#[trigger] s[i]))) by {
                    assert(is_ipv4(s[k]));
                }
            },
        }
    }
}

/// The addresses of a station's host (none when absent).
pub open spec fn station_l3s(s: Station) -> Seq<L3Connectivities> {
    match s.host {
        Some(h) => match h.l3connectivities {
            Some(v) => v@,
            None => Seq::empty(),
        },
        None => Seq::empty(),
    }
}

/// A station has an IPv4 address to report.
pub open spec fn has_ipv4(s: Station) -> bool {
    best_ipv4(station_l3s(s)) is Some
}

/// The number of stations before the first one without an IPv4 address.
pub open spec fn stations_with_ipv4(ss: Seq<Station>) -> nat
    decreases ss.len(),
{
    if ss.len() == 0 {
        0
    } else if !has_ipv4(ss[0]) {
        0
    } else {
        1 + stations_with_ipv4(ss.drop_first())
    }
}

/// What reporting a station reads without a fallback: its last frames, flags, host
/// and the host's addresses; the times of the addresses when there are several to
/// order; and its MAC when it has no IPv4 address.
pub open spec fn station_complete(s: Station) -> bool {
    &&& s.last_rx is Some
    &&& s.last_tx is Some
    &&& s.flags is Some
    &&& s.host is Some
    &&& s.host.unwrap().l3connectivities is Some
    &&& station_l3s(s).len() >= 2 ==> forall|i: int| 0 <= i < station_l3s(s).len() ==> (#[trigger] station_l3s(s)[i]).last_time_reachable is Some
    &&& !has_ipv4(s) ==> s.mac is Some
}

/// The label of an access point in station families: its id read as a signed byte,
/// -128 when absent.
pub open spec fn ap_id_label(ap: AccessPoint) -> Seq<char> {
    match ap.id {
        Some(i) => int_to_decimal((i as i8) as int),
        None => int_to_decimal(-128),
    }
}

/// The band of an access point ("unknown" when absent).
pub open spec fn ap_band(ap: AccessPoint) -> Seq<char> {
    match ap.config {
        Some(c) => opt_text_or(c.band, "unknown"@),
        None => "unknown"@,
    }
}

/// The label values of a station in most station families: host name, address,
/// access point name, band, access point id and MAC.
pub open spec fn station_labels(s: Station, ap: AccessPoint) -> Seq<Seq<char>> {
    let h = s.host.unwrap();
    seq![
        opt_text_or(h.primary_name, "unknown"@),
        opt_text_or(best_ipv4(station_l3s(s)).unwrap().addr, "unknown"@),
        opt_text_or(ap.name, "unknown"@),
        ap_band(ap),
        ap_id_label(ap),
        opt_text_or(s.mac, "unknown"@),
    ]
}

/// The label values of a station in the activity family: host name, access point
/// name, band, access point id, MAC and vendor.
pub open spec fn station_active_labels(s: Station, ap: AccessPoint) -> Seq<Seq<char>> {
    let h = s.host.unwrap();
    seq![
        opt_text_or(h.primary_name, "unknown"@),
        opt_text_or(ap.name, "unknown"@),
        ap_band(ap),
        ap_id_label(ap),
        opt_text_or(s.mac, "unknown"@),
        opt_text_or(h.vendor_name, "unknown"@),
    ]
}

/// An optional unsigned counter, 0 when absent, as a gauge value (wrapping above `i64::MAX`).
pub open spec fn counter(o: Option<u64>) -> i64 {
    match o {
        Some(v) => v as i64,
        None => 0,
    }
}

/// An optional integer, or `i64::MIN` when absent.
pub open spec fn or_min(o: Option<i64>) -> i64 {
    match o {
        Some(v) => v,
        None => i64::MIN,
    }
}

/// An optional signal strength, or `i8::MIN` when absent, widened.
pub open spec fn signal_or_min(o: Option<i8>) -> i64 {
    match o {
        Some(v) => v as i64,
        None => i8::MIN as i64,
    }
}

/// An optional boolean, absent counting as `false`.
pub open spec fn opt_bool(o: Option<bool>) -> bool {
    match o {
        Some(b) => b,
        None => false,
    }
}

/// A channel width ("unknown" when absent) read as an integer, 0 when it does not read.
pub open spec fn width_value(w: Option<String>) -> i64 {
    match spec_parse_i64(opt_text_or(w, "unknown"@)) {
        Some(v) => v,
        None => 0,
    }
}

/// One family after `step` has been applied for each station, in order.
pub open spec fn over_stations(m: FamilyEntries, ss: Seq<Station>, step: spec_fn(FamilyEntries, Station) -> FamilyEntries) -> FamilyEntries
    decreases ss.len(),
{
    if ss.len() == 0 {
        m
    } else {
        step(over_stations(m, ss.drop_last(), step), ss.last())
    }
}

/// The first stations, up to the first without an IPv4 address, each have one; the
/// count stops there.
proof fn lemma_stations_with_ipv4(ss: Seq<Station>, i: int)
    requires
        0 <= i <= ss.len(),
        forall|j: int| 0 <= j < i ==> has_ipv4(#[trigger] ss[j]),
        i < ss.len() ==> !has_ipv4(ss[i]),
    ensures
        stations_with_ipv4(ss) == i,
    decreases i,
{
    if i > 0 {
        let t = ss.drop_first();
        assert forall|j: int| 0 <= j < i - 1 implies has_ipv4(#[trigger] t[j]) by {
            assert(t[j] == ss[j + 1]);
        }
        assert(has_ipv4(ss[0]));
        lemma_stations_with_ipv4(t, i - 1);
    }
}

/// Before the count, every station has an IPv4 address; at the count, if any, one lacks it.
proof fn lemma_stations_with_ipv4_bounds(ss: Seq<Station>)
    ensures
        stations_with_ipv4(ss) <= ss.len(),
        forall|j: int| 0 <= j < stations_with_ipv4(ss) ==> has_ipv4(#[trigger] ss[j]),
        stations_with_ipv4(ss) < ss.len() ==> !has_ipv4(ss[stations_with_ipv4(ss) as int]),
    decreases ss.len(),
{
    if ss.len() > 0 && has_ipv4(ss[0]) {
        let t = ss.drop_first();
        lemma_stations_with_ipv4_bounds(t);
        assert forall|j: int| 0 <= j < stations_with_ipv4(ss) implies has_ipv4(#[trigger] ss[j]) by {
            if j > 0 {
                assert(ss[j] == t[j - 1]);
            }
        }
        if stations_with_ipv4(ss) < ss.len() {
            assert(ss[stations_with_ipv4(ss) as int] == t[stations_with_ipv4(t) as int]);
        }
    }
}

/// The position of the IPv4 address to report for a station, if it has one.
fn best_ipv4_index(l3s: &Vec<L3Connectivities>) -> (r: Option<usize>)
    ensures
        r is None ==> best_ipv4(l3s@) is None,
        r matches Some(i) ==> i < l3s.len() && best_ipv4(l3s@) == Some(l3s@[i as int]),
{
    let mut best: Option<usize> = None;
    let mut best_time: i64 = 0;
    let mut i: usize = 0;
    while i < l3s.len()
        invariant
            i <= l3s.len(),
            best is None ==> best_ipv4(l3s@.take(i as int)) is None,
            best matches Some(b) ==> b < i && best_ipv4(l3s@.take(i as int)) == Some(l3s@[b as int])
                && best_time == l3_time(l3s@[b as int]),
        decreases l3s.len() - i,
    {
        let l = &l3s[i];
        assert(l3s@.take(i as int + 1).drop_last() =~= l3s@.take(i as int));
        let af = text_or(&l.af, "unknown");
        let t = match l.last_time_reachable {
            Some(t) => t,
            None => 0,
        };
        if str_eq(af.as_str(), "ipv4") && (best.is_none() || t > best_time) {
            best = Some(i);
            best_time = t;
        }
        i = i + 1;
    }
    assert(l3s@.take(l3s.len() as int) =~= l3s@);
    best
}

/// A boolean as the label text "true" or "false".
fn bool_label(o: Option<bool>) -> (s: String)
    ensures
        s@ == bool_text(opt_bool(o)),
{
    bool_to_string(match o {
        Some(b) => b,
        None => false,
    })
}

/// The label values `base` with one more at the end.
fn with_label(base: &Vec<String>, extra: String) -> (v: Vec<String>)
    ensures
        v.len() == base.len() + 1,
        label_view(v@) == label_view(base@).push(extra@),
{
    let mut v = base.clone();
    assert(v@ =~= base@);
    push_label(&mut v, extra);
    v
}

/// A gauge value read from a width text ("unknown" when absent).
fn width_code(w: &Option<String>) -> (v: i64)
    ensures
        v == width_value(*w),
{
    match parse_i64(text_or(w, "unknown").as_str()) {
        Some(v) => v,
        None => 0,
    }
}

/// The label of an access point in station families.
fn ap_id_text(ap: &AccessPoint) -> (s: String)
    ensures
        s@ == ap_id_label(*ap),
{
    let v: i64 = match ap.id {
        Some(i) => (i as i8) as i64,
        None => -128,
    };
    i64_to_decimal(v)
}

/// A list of six label values.
fn labels6(a: String, b: String, c: String, d: String, e: String, f: String) -> (v: Vec<String>)
    ensures
        v.len() == 6,
        label_view(v@) == seq![a@, b@, c@, d@, e@, f@],
{
    let mut v = labels3(a, b, c);
    push_label(&mut v, d);
    push_label(&mut v, e);
    push_label(&mut v, f);
    v
}

/// An optional boolean, absent counting as `false`.
fn opt_bool_value(o: Option<bool>) -> (b: bool)
    ensures
        b == opt_bool(o),
{
    match o {
        Some(b) => b,
        None => false,
    }
}

/// An optional unsigned counter as a gauge value.
fn counter_value(o: Option<u64>) -> (v: i64)
    ensures
        v == counter(o),
{
    match o {
        Some(v) => v as i64,
        None => 0,
    }
}

/// An optional integer, or `i64::MIN` when absent.
fn or_min_value(o: Option<i64>) -> (v: i64)
    ensures
        v == or_min(o),
{
    match o {
        Some(v) => v,
        None => i64::MIN,
    }
}

/// An optional signal strength, or `i8::MIN` when absent, widened.
fn signal_value(o: Option<i8>) -> (v: i64)
    ensures
        v == signal_or_min(o),
{
    match o {
        Some(v) => v as i64,
        None => i8::MIN as i64,
    }
}

/// An optional byte in decimal, 0 when absent.
fn byte_text(o: Option<u8>) -> (s: String)
    ensures
        s@ == int_to_decimal(opt_byte(o) as int),
{
    let v: u64 = match o {
        Some(v) => v as u64,
        None => 0,
    };
    u64_to_decimal(v)
}

/// An optional byte, 0 when absent.
pub open spec fn opt_byte(o: Option<u8>) -> u8 {
    match o {
        Some(v) => v,
        None => 0,
    }
}

/// The label values of a neighbouring access point: channel, SSID, BSSID, band, the
/// five standards it supports, and its secondary channel.
pub open spec fn neighbor_labels(n: NeighborsAccessPoint) -> Seq<Seq<char>> {
    let c = n.capabilities.unwrap();
    seq![
        int_to_decimal(opt_byte(n.channel) as int),
        opt_text_or(n.ssid, "unknown"@),
        opt_text_or(n.bssid, "unknown"@),
        opt_text_or(n.band, "unknown"@),
        bool_text(opt_bool(c.vht)),
        bool_text(opt_bool(c.legacy)),
        bool_text(opt_bool(c.he)),
        bool_text(opt_bool(c.ht)),
        bool_text(opt_bool(c.eht)),
        int_to_decimal(opt_byte(n.secondary_channel) as int),
    ]
}

/// The neighbour family after one child per neighbour, in order, valued with its signal.
pub open spec fn put_neighbors(m: FamilyEntries, ns: Seq<NeighborsAccessPoint>) -> FamilyEntries
    decreases ns.len(),
{
    if ns.len() == 0 {
        m
    } else {
        family_put(put_neighbors(m, ns.drop_last()), neighbor_labels(ns.last()), signal_or_min(ns.last().signal))
    }
}

/// The label values of a channel's usage: band, channel and receive busy percentage.
pub open spec fn usage_labels(u: ChannelUsage) -> Seq<Seq<char>> {
    seq![opt_text_or(u.band, "unknown"@), int_to_decimal(opt_byte(u.channel) as int), int_to_decimal(opt_byte(u.rx_busy_percent) as int)]
}

/// The channel usage family after one child per usage, in order, valued with its noise level.
pub open spec fn put_usages(m: FamilyEntries, us: Seq<ChannelUsage>) -> FamilyEntries
    decreases us.len(),
{
    if us.len() == 0 {
        m
    } else {
        family_put(put_usages(m, us.drop_last()), usage_labels(us.last()), signal_or_min(us.last().noise_level))
    }
}

/// The label values of an access point in the channel survey families: id, name and band.
pub open spec fn survey_labels(ap: AccessPoint) -> Seq<Seq<char>> {
    seq![int_to_decimal(ap.id.unwrap() as int), opt_text_or(ap.name, "unknown"@), ap.config.unwrap().band.unwrap()@]
}

/// How many samples a time span keeps: one per 100 ms.
pub open spec fn samples_in(ttl_ms: i64) -> nat {
    (ttl_ms / 100) as nat
}

/// The value a channel survey family takes: the average of the percentage over the
/// recent samples, 0 when there are none.
pub open spec fn survey_value(h: Seq<ChannelSurveyHistory>, max_range: nat, f: spec_fn(ChannelSurveyHistory) -> u8) -> i64 {
    if h.len() == 0 {
        0
    } else {
        avg_pct(recent_samples(h, max_range), f) as i64
    }
}

/// On a single sample, each channel survey family shows that sample's own percentage
/// (0 when absent): busy, transmit, receive-from-own-network and receive, each from its
/// own field.
pub proof fn lemma_survey_of_one_sample(x: ChannelSurveyHistory, max_range: nat)
    requires
        max_range >= 1,
    ensures
        survey_value(seq![x], max_range, |y: ChannelSurveyHistory| busy_of(y)) == (match x.busy_percent { Some(v) => v as i64, None => 0i64 }),
        survey_value(seq![x], max_range, |y: ChannelSurveyHistory| tx_of(y)) == (match x.tx_percent { Some(v) => v as i64, None => 0i64 }),
        survey_value(seq![x], max_range, |y: ChannelSurveyHistory| rx_bss_of(y)) == (match x.rx_bss_percent { Some(v) => v as i64, None => 0i64 }),
        survey_value(seq![x], max_range, |y: ChannelSurveyHistory| rx_of(y)) == (match x.rx_percent { Some(v) => v as i64, None => 0i64 }),
{
    let h = seq![x];
    assert(h.drop_last() =~= Seq::<ChannelSurveyHistory>::empty());
    assert(recent_samples(h, max_range) == h);
    reveal_with_fuel(sum_pct, 2);
}

/// Each neighbouring access point whose labels no later one shares a key with shows its
/// own signal (`i8::MIN` when absent).
pub proof fn lemma_neighbors_show_their_signal(m: FamilyEntries, ns: Seq<NeighborsAccessPoint>, i: int)
    requires
        0 <= i < ns.len(),
        forall|j: int| i < j < ns.len() ==> label_key(neighbor_labels(#[trigger] ns[j])) != label_key(neighbor_labels(ns[i])),
    ensures
        family_value(put_neighbors(m, ns), neighbor_labels(ns[i])) == Some(match ns[i].signal { Some(v) => v as i64, None => -128i64 }),
    decreases ns.len(),
{
    if i < ns.len() - 1 {
        let t = ns.drop_last();
        assert forall|j: int| i < j < t.len() implies label_key(neighbor_labels(#[trigger] t[j])) != label_key(neighbor_labels(t[i])) by {
            assert(t[j] == ns[j]);
        }
        lemma_neighbors_show_their_signal(m, t, i);
        assert(t[i] == ns[i]);
    }
}

/// Each channel whose labels no later one shares a key with shows its own noise level
/// (`i8::MIN` when absent).
pub proof fn lemma_usages_show_their_noise(m: FamilyEntries, us: Seq<ChannelUsage>, i: int)
    requires
        0 <= i < us.len(),
        forall|j: int| i < j < us.len() ==> label_key(usage_labels(#[trigger] us[j])) != label_key(usage_labels(us[i])),
    ensures
        family_value(put_usages(m, us), usage_labels(us[i])) == Some(match us[i].noise_level { Some(v) => v as i64, None => -128i64 }),
    decreases us.len(),
{
    if i < us.len() - 1 {
        let t = us.drop_last();
        assert forall|j: int| i < j < t.len() implies label_key(usage_labels(#[trigger] t[j])) != label_key(usage_labels(t[i])) by {
            assert(t[j] == us[j]);
        }
        lemma_usages_show_their_noise(m, t, i);
        assert(t[i] == us[i]);
    }
}

/// What one station writes in the active family.
pub open spec fn station_active_step(m: FamilyEntries, s: Station, ap: AccessPoint) -> FamilyEntries {
    family_put(m, station_active_labels(s, ap), flag(opt_bool(s.host.unwrap().active)))
}

/// What one station writes in the rx bitrate family.
pub open spec fn station_rx_bitrate_step(m: FamilyEntries, s: Station, ap: AccessPoint) -> FamilyEntries {
    family_put(m, station_labels(s, ap), counter(s.last_rx.unwrap().bitrate))
}

/// What one station writes in the rx mcs family.
pub open spec fn station_rx_mcs_step(m: FamilyEntries, s: Station, ap: AccessPoint) -> FamilyEntries {
    family_put(m, station_labels(s, ap), opt_i64(s.last_rx.unwrap().mcs))
}

/// What one station writes in the rx shortgi family.
pub open spec fn station_rx_shortgi_step(m: FamilyEntries, s: Station, ap: AccessPoint) -> FamilyEntries {
    family_put(m, station_labels(s, ap), flag(opt_bool(s.last_rx.unwrap().shortgi)))
}

/// What one station writes in the rx vht mcs family.
pub open spec fn station_rx_vht_mcs_step(m: FamilyEntries, s: Station, ap: AccessPoint) -> FamilyEntries {
    family_put(m, station_labels(s, ap), opt_i64(s.last_rx.unwrap().vht_mcs))
}

/// What one station writes in the rx width family.
pub open spec fn station_rx_width_step(m: FamilyEntries, s: Station, ap: AccessPoint) -> FamilyEntries {
    family_put(m, station_labels(s, ap), width_value(s.last_rx.unwrap().width))
}

/// What one station writes in the rx bytes family.
pub open spec fn station_rx_bytes_step(m: FamilyEntries, s: Station, ap: AccessPoint) -> FamilyEntries {
    family_put(m, station_labels(s, ap), counter(s.rx_bytes))
}

/// What one station writes in the rx rate family.
pub open spec fn station_rx_rate_step(m: FamilyEntries, s: Station, ap: AccessPoint) -> FamilyEntries {
    family_put(m, station_labels(s, ap), counter(s.rx_rate))
}

/// What one station writes in the tx bitrate family.
pub open spec fn station_tx_bitrate_step(m: FamilyEntries, s: Station, ap: AccessPoint) -> FamilyEntries {
    family_put(m, station_labels(s, ap), counter(s.last_tx.unwrap().bitrate))
}

/// What one station writes in the tx mcs family.
pub open spec fn station_tx_mcs_step(m: FamilyEntries, s: Station, ap: AccessPoint) -> FamilyEntries {
    family_put(m, station_labels(s, ap), opt_i64(s.last_tx.unwrap().mcs))
}

/// What one station writes in the tx shortgi family.
pub open spec fn station_tx_shortgi_step(m: FamilyEntries, s: Station, ap: AccessPoint) -> FamilyEntries {
    family_put(m, station_labels(s, ap), flag(opt_bool(s.last_tx.unwrap().shortgi)))
}

/// What one station writes in the tx vht mcs family.
pub open spec fn station_tx_vht_mcs_step(m: FamilyEntries, s: Station, ap: AccessPoint) -> FamilyEntries {
    family_put(m, station_labels(s, ap), opt_i64(s.last_tx.unwrap().vht_mcs))
}

/// What one station writes in the tx width family.
pub open spec fn station_tx_width_step(m: FamilyEntries, s: Station, ap: AccessPoint) -> FamilyEntries {
    family_put(m, station_labels(s, ap), width_value(s.last_tx.unwrap().width))
}

/// What one station writes in the tx bytes family.
pub open spec fn station_tx_bytes_step(m: FamilyEntries, s: Station, ap: AccessPoint) -> FamilyEntries {
    family_put(m, station_labels(s, ap), counter(s.tx_bytes))
}

/// What one station writes in the tx rate family.
pub open spec fn station_tx_rate_step(m: FamilyEntries, s: Station, ap: AccessPoint) -> FamilyEntries {
    family_put(m, station_labels(s, ap), counter(s.tx_rate))
}

/// What one station writes in the signal family.
pub open spec fn station_signal_step(m: FamilyEntries, s: Station, ap: AccessPoint) -> FamilyEntries {
    family_put(m, station_labels(s, ap), signal_or_min(s.signal))
}

/// What one station writes in the inactive family.
pub open spec fn station_inactive_step(m: FamilyEntries, s: Station, ap: AccessPoint) -> FamilyEntries {
    family_put(m, station_labels(s, ap), or_min(s.inactive))
}

/// What one station writes in the state family.
pub open spec fn station_state_step(m: FamilyEntries, s: Station, ap: AccessPoint) -> FamilyEntries {
    family_put(m, station_labels(s, ap).push(opt_text_or(s.state, "unknown"@)), 1)
}

/// What one station writes in the flags family.
pub open spec fn station_flags_step(m: FamilyEntries, s: Station, ap: AccessPoint) -> FamilyEntries {
    family_touch(m, station_labels(s, ap) + seq![bool_text(opt_bool(s.flags.unwrap().vht)), bool_text(opt_bool(s.flags.unwrap().legacy)), bool_text(opt_bool(s.flags.unwrap().authorized)), bool_text(opt_bool(s.flags.unwrap().ht))])
}

/// What one station writes in the last activity family.
pub open spec fn station_last_activity_step(m: FamilyEntries, s: Station, ap: AccessPoint) -> FamilyEntries {
    family_put(m, station_labels(s, ap), or_min(s.host.unwrap().last_activity))
}

/// What one station writes in the last time reachable family.
pub open spec fn station_last_time_reachable_step(m: FamilyEntries, s: Station, ap: AccessPoint) -> FamilyEntries {
    family_put(m, station_labels(s, ap), or_min(s.host.unwrap().last_time_reachable))
}

/// What the per-station families show for the station written: its own received and
/// sent byte counters and rates (0 when absent), its last reception's and last
/// transmission's bit rate (0 when absent), MCS and VHT MCS indices (0 when absent) and
/// short guard interval (1 only when reported on), its activity (1 only when the host
/// reports itself active), its signal (`i8::MIN` when absent), and its inactivity and
/// host times (`i64::MIN` when absent).
pub proof fn lemma_station_gauges_show_station_fields(m: FamilyEntries, s: Station, ap: AccessPoint)
    ensures
        family_value(station_rx_bytes_step(m, s, ap), station_labels(s, ap)) == Some(match s.rx_bytes { Some(v) => v as i64, None => 0i64 }),
        family_value(station_tx_bytes_step(m, s, ap), station_labels(s, ap)) == Some(match s.tx_bytes { Some(v) => v as i64, None => 0i64 }),
        family_value(station_rx_rate_step(m, s, ap), station_labels(s, ap)) == Some(match s.rx_rate { Some(v) => v as i64, None => 0i64 }),
        family_value(station_tx_rate_step(m, s, ap), station_labels(s, ap)) == Some(match s.tx_rate { Some(v) => v as i64, None => 0i64 }),
        family_value(station_rx_bitrate_step(m, s, ap), station_labels(s, ap)) == Some(match s.last_rx.unwrap().bitrate { Some(v) => v as i64, None => 0i64 }),
        family_value(station_tx_bitrate_step(m, s, ap), station_labels(s, ap)) == Some(match s.last_tx.unwrap().bitrate { Some(v) => v as i64, None => 0i64 }),
        family_value(station_rx_mcs_step(m, s, ap), station_labels(s, ap)) == Some(match s.last_rx.unwrap().mcs { Some(v) => v, None => 0i64 }),
        family_value(station_tx_mcs_step(m, s, ap), station_labels(s, ap)) == Some(match s.last_tx.unwrap().mcs { Some(v) => v, None => 0i64 }),
        family_value(station_rx_vht_mcs_step(m, s, ap), station_labels(s, ap)) == Some(match s.last_rx.unwrap().vht_mcs { Some(v) => v, None => 0i64 }),
        family_value(station_tx_vht_mcs_step(m, s, ap), station_labels(s, ap)) == Some(match s.last_tx.unwrap().vht_mcs { Some(v) => v, None => 0i64 }),
        family_value(station_rx_shortgi_step(m, s, ap), station_labels(s, ap)) == Some(if s.last_rx.unwrap().shortgi == Some(true) { 1i64 } else { 0i64 }),
        family_value(station_tx_shortgi_step(m, s, ap), station_labels(s, ap)) == Some(if s.last_tx.unwrap().shortgi == Some(true) { 1i64 } else { 0i64 }),
        family_value(station_active_step(m, s, ap), station_active_labels(s, ap)) == Some(if s.host.unwrap().active == Some(true) { 1i64 } else { 0i64 }),
        family_value(station_signal_step(m, s, ap), station_labels(s, ap)) == Some(match s.signal { Some(v) => v as i64, None => -128i64 }),
        family_value(station_inactive_step(m, s, ap), station_labels(s, ap)) == Some(match s.inactive { Some(v) => v, None => i64::MIN }),
        family_value(station_last_activity_step(m, s, ap), station_labels(s, ap)) == Some(match s.host.unwrap().last_activity { Some(v) => v, None => i64::MIN }),
        family_value(station_last_time_reachable_step(m, s, ap), station_labels(s, ap)) == Some(match s.host.unwrap().last_time_reachable { Some(v) => v, None => i64::MIN }),
{
}

/// Writing stations one after another leaves, for each station whose labels no later
/// station shares a key with, the value its own step put there.
proof fn lemma_over_stations_keeps_last_write(
    m: FamilyEntries,
    ss: Seq<Station>,
    step: spec_fn(FamilyEntries, Station) -> FamilyEntries,
    labels_of: spec_fn(Station) -> Seq<Seq<char>>,
    value_of: spec_fn(Station) -> i64,
    i: int,
)
    requires
        forall|m2: FamilyEntries, x: Station| #[trigger] step(m2, x) == family_put(m2, labels_of(x), value_of(x)),
        0 <= i < ss.len(),
        forall|j: int| i < j < ss.len() ==> label_key(labels_of(#[trigger] ss[j])) != label_key(labels_of(ss[i])),
    ensures
        family_value(over_stations(m, ss, step), labels_of(ss[i])) == Some(value_of(ss[i])),
    decreases ss.len(),
{
    if i < ss.len() - 1 {
        let t = ss.drop_last();
        assert forall|j: int| i < j < t.len() implies label_key(labels_of(#[trigger] t[j])) != label_key(labels_of(t[i])) by {
            assert(t[j] == ss[j]);
        }
        lemma_over_stations_keeps_last_write(m, t, step, labels_of, value_of, i);
        assert(t[i] == ss[i]);
        assert(label_key(labels_of(ss.last())) != label_key(labels_of(ss[i])));
    }
}

/// Over a whole list of stations, the received and sent byte families show, for each
/// station whose labels no later station shares, that station's own counters (0 when
/// absent).
pub proof fn lemma_stations_show_their_byte_counters(m: FamilyEntries, ss: Seq<Station>, ap: AccessPoint, i: int)
    requires
        0 <= i < ss.len(),
        forall|j: int| i < j < ss.len() ==> label_key(station_labels(#[trigger] ss[j], ap)) != label_key(station_labels(ss[i], ap)),
    ensures
        family_value(over_stations(m, ss, |m2: FamilyEntries, x: Station| station_rx_bytes_step(m2, x, ap)), station_labels(ss[i], ap))
            == Some(match ss[i].rx_bytes { Some(v) => v as i64, None => 0i64 }),
        family_value(over_stations(m, ss, |m2: FamilyEntries, x: Station| station_tx_bytes_step(m2, x, ap)), station_labels(ss[i], ap))
            == Some(match ss[i].tx_bytes { Some(v) => v as i64, None => 0i64 }),
{
    lemma_over_stations_keeps_last_write(m, ss, |m2: FamilyEntries, x: Station| station_rx_bytes_step(m2, x, ap),
        |x: Station| station_labels(x, ap), |x: Station| counter(x.rx_bytes), i);
    lemma_over_stations_keeps_last_write(m, ss, |m2: FamilyEntries, x: Station| station_tx_bytes_step(m2, x, ap),
        |x: Station| station_labels(x, ap), |x: Station| counter(x.tx_bytes), i);
}

/// The label values of a station reported at address `l3`.
fn station_label_values(s: &Station, ap: &AccessPoint, l3: &L3Connectivities) -> (v: Vec<String>)
    requires
        s.host is Some,
        has_ipv4(*s),
        *l3 == best_ipv4(station_l3s(*s)).unwrap(),
        ap.config is Some,
    ensures
        v.len() == 6,
        label_view(v@) == station_labels(*s, *ap),
{
    let host = s.host.as_ref().unwrap();
    labels6(text_or(&host.primary_name, "unknown"), text_or(&l3.addr, "unknown"), text_or(&ap.name, "unknown"), text_or(&ap.config.as_ref().unwrap().band, "unknown"), ap_id_text(ap), text_or(&s.mac, "unknown"))
}

/// Writes what a station's last frame in one direction reports: bit rate, MCS index,
/// short guard interval, VHT MCS index and channel width.
fn set_link(bitrate: &mut GaugeFamily, mcs: &mut GaugeFamily, shortgi: &mut GaugeFamily, vht_mcs: &mut GaugeFamily, width: &mut GaugeFamily, labels: &Vec<String>, l: &LastRxTx)
    requires
        family_arity(*old(bitrate)) == labels.len(),
        family_arity(*old(mcs)) == labels.len(),
        family_arity(*old(shortgi)) == labels.len(),
        family_arity(*old(vht_mcs)) == labels.len(),
        family_arity(*old(width)) == labels.len(),
    ensures
        family_arity(*final(bitrate)) == family_arity(*old(bitrate)),
        family_arity(*final(mcs)) == family_arity(*old(mcs)),
        family_arity(*final(shortgi)) == family_arity(*old(shortgi)),
        family_arity(*final(vht_mcs)) == family_arity(*old(vht_mcs)),
        family_arity(*final(width)) == family_arity(*old(width)),
        family_name(*final(bitrate)) == family_name(*old(bitrate)),
        family_name(*final(mcs)) == family_name(*old(mcs)),
        family_name(*final(shortgi)) == family_name(*old(shortgi)),
        family_name(*final(vht_mcs)) == family_name(*old(vht_mcs)),
        family_name(*final(width)) == family_name(*old(width)),
        final(bitrate)@ == family_put(old(bitrate)@, label_view(labels@), counter(l.bitrate)),
        final(mcs)@ == family_put(old(mcs)@, label_view(labels@), opt_i64(l.mcs)),
        final(shortgi)@ == family_put(old(shortgi)@, label_view(labels@), flag(opt_bool(l.shortgi))),
        final(vht_mcs)@ == family_put(old(vht_mcs)@, label_view(labels@), opt_i64(l.vht_mcs)),
        final(width)@ == family_put(old(width)@, label_view(labels@), width_value(l.width)),
{
    family_set(bitrate, labels, counter_value(l.bitrate));
    family_set(mcs, labels, opt_i64_value(l.mcs));
    family_set(shortgi, labels, flag_value(opt_bool_value(l.shortgi)));
    family_set(vht_mcs, labels, opt_i64_value(l.vht_mcs));
    family_set(width, labels, width_code(&l.width));
}

/// Gauges of the access points, their stations, neighbours and channels.
pub struct WifiMetricMap {
    pub history_ttl_ms: i64,
    pub busy_percent_gauge: GaugeFamily,
    pub rx_bss_percent: GaugeFamily,
    pub rx_percent_gauge: GaugeFamily,
    pub tx_percent_gauge: GaugeFamily,
    pub station_active_gauge: GaugeFamily,
    pub station_rx_bitrate_gauge: GaugeFamily,
    pub station_rx_mcs_gauge: GaugeFamily,
    pub station_rx_shortgi_gauge: GaugeFamily,
    pub station_rx_vht_mcs_gauge: GaugeFamily,
    pub station_rx_width_gauge: GaugeFamily,
    pub station_rx_bytes_gauge: GaugeFamily,
    pub station_rx_rate_gauge: GaugeFamily,
    pub station_tx_bitrate_gauge: GaugeFamily,
    pub station_tx_mcs_gauge: GaugeFamily,
    pub station_tx_shortgi_gauge: GaugeFamily,
    pub station_tx_vht_mcs_gauge: GaugeFamily,
    pub station_tx_width_gauge: GaugeFamily,
    pub station_tx_bytes_gauge: GaugeFamily,
    pub station_tx_rate_gauge: GaugeFamily,
    pub station_signal_gauge: GaugeFamily,
    pub station_inactive_gauge: GaugeFamily,
    pub station_state_gauge: GaugeFamily,
    pub station_flags_gauge: GaugeFamily,
    pub station_last_activity_gauge: GaugeFamily,
    pub station_last_time_reachable_gauge: GaugeFamily,
    pub neighbors_access_point_gauge: GaugeFamily,
    pub channel_usage_gauge: GaugeFamily,
}

impl WifiMetricMap {
    /// Every family takes as many label values as it was made with label names.
    pub open spec fn well_formed(&self) -> bool {
        &&& family_arity(self.busy_percent_gauge) == 3
        &&& family_arity(self.rx_bss_percent) == 3
        &&& family_arity(self.rx_percent_gauge) == 3
        &&& family_arity(self.tx_percent_gauge) == 3
        &&& family_arity(self.station_active_gauge) == 6
        &&& family_arity(self.station_rx_bitrate_gauge) == 6
        &&& family_arity(self.station_rx_mcs_gauge) == 6
        &&& family_arity(self.station_rx_shortgi_gauge) == 6
        &&& family_arity(self.station_rx_vht_mcs_gauge) == 6
        &&& family_arity(self.station_rx_width_gauge) == 6
        &&& family_arity(self.station_rx_bytes_gauge) == 6
        &&& family_arity(self.station_rx_rate_gauge) == 6
        &&& family_arity(self.station_tx_bitrate_gauge) == 6
        &&& family_arity(self.station_tx_mcs_gauge) == 6
        &&& family_arity(self.station_tx_shortgi_gauge) == 6
        &&& family_arity(self.station_tx_vht_mcs_gauge) == 6
        &&& family_arity(self.station_tx_width_gauge) == 6
        &&& family_arity(self.station_tx_bytes_gauge) == 6
        &&& family_arity(self.station_tx_rate_gauge) == 6
        &&& family_arity(self.station_signal_gauge) == 6
        &&& family_arity(self.station_inactive_gauge) == 6
        &&& family_arity(self.station_state_gauge) == 7
        &&& family_arity(self.station_flags_gauge) == 10
        &&& family_arity(self.station_last_activity_gauge) == 6
        &&& family_arity(self.station_last_time_reachable_gauge) == 6
        &&& family_arity(self.neighbors_access_point_gauge) == 10
        &&& family_arity(self.channel_usage_gauge) == 3
    }

    /// No family has a child and every single gauge is at 0.
    pub open spec fn is_cleared(&self) -> bool {
        &&& self.busy_percent_gauge@ == FamilyEntries::empty()
        &&& self.rx_bss_percent@ == FamilyEntries::empty()
        &&& self.rx_percent_gauge@ == FamilyEntries::empty()
        &&& self.tx_percent_gauge@ == FamilyEntries::empty()
        &&& self.station_active_gauge@ == FamilyEntries::empty()
        &&& self.station_rx_bitrate_gauge@ == FamilyEntries::empty()
        &&& self.station_rx_mcs_gauge@ == FamilyEntries::empty()
        &&& self.station_rx_shortgi_gauge@ == FamilyEntries::empty()
        &&& self.station_rx_vht_mcs_gauge@ == FamilyEntries::empty()
        &&& self.station_rx_width_gauge@ == FamilyEntries::empty()
        &&& self.station_rx_bytes_gauge@ == FamilyEntries::empty()
        &&& self.station_rx_rate_gauge@ == FamilyEntries::empty()
        &&& self.station_tx_bitrate_gauge@ == FamilyEntries::empty()
        &&& self.station_tx_mcs_gauge@ == FamilyEntries::empty()
        &&& self.station_tx_shortgi_gauge@ == FamilyEntries::empty()
        &&& self.station_tx_vht_mcs_gauge@ == FamilyEntries::empty()
        &&& self.station_tx_width_gauge@ == FamilyEntries::empty()
        &&& self.station_tx_bytes_gauge@ == FamilyEntries::empty()
        &&& self.station_tx_rate_gauge@ == FamilyEntries::empty()
        &&& self.station_signal_gauge@ == FamilyEntries::empty()
        &&& self.station_inactive_gauge@ == FamilyEntries::empty()
        &&& self.station_state_gauge@ == FamilyEntries::empty()
        &&& self.station_flags_gauge@ == FamilyEntries::empty()
        &&& self.station_last_activity_gauge@ == FamilyEntries::empty()
        &&& self.station_last_time_reachable_gauge@ == FamilyEntries::empty()
        &&& self.neighbors_access_point_gauge@ == FamilyEntries::empty()
        &&& self.channel_usage_gauge@ == FamilyEntries::empty()
    }

    /// The metric names, help texts and label names the gauges were made with.
    pub open spec fn named(&self, prefix: Seq<char>) -> bool {
        &&& family_name(self.busy_percent_gauge) == prefix + "_wifi_busy_percent"@
        &&& family_name(self.rx_bss_percent) == prefix + "_wifi_rx_bss_percent"@
        &&& family_name(self.rx_percent_gauge) == prefix + "_wifi_rx_percent"@
        &&& family_name(self.tx_percent_gauge) == prefix + "_wifi_tx_percent"@
        &&& family_name(self.station_active_gauge) == prefix + "_wifi_station_active"@
        &&& family_name(self.station_rx_bitrate_gauge) == prefix + "_wifi_station_rx_bitrate"@
        &&& family_name(self.station_rx_mcs_gauge) == prefix + "_wifi_station_rx_mcs"@
        &&& family_name(self.station_rx_shortgi_gauge) == prefix + "_wifi_station_rx_shortgi"@
        &&& family_name(self.station_rx_vht_mcs_gauge) == prefix + "_wifi_station_rx_vht_mcs"@
        &&& family_name(self.station_rx_width_gauge) == prefix + "_wifi_station_rx_width"@
        &&& family_name(self.station_rx_bytes_gauge) == prefix + "_wifi_station_rx_bytes"@
        &&& family_name(self.station_rx_rate_gauge) == prefix + "_wifi_station_rx_rate"@
        &&& family_name(self.station_tx_bitrate_gauge) == prefix + "_wifi_station_tx_bitrate"@
        &&& family_name(self.station_tx_mcs_gauge) == prefix + "_wifi_station_tx_mcs"@
        &&& family_name(self.station_tx_shortgi_gauge) == prefix + "_wifi_station_tx_shortgi"@
        &&& family_name(self.station_tx_vht_mcs_gauge) == prefix + "_wifi_station_tx_vht_mcs"@
        &&& family_name(self.station_tx_width_gauge) == prefix + "_wifi_station_tx_width"@
        &&& family_name(self.station_tx_bytes_gauge) == prefix + "_wifi_station_tx_bytes"@
        &&& family_name(self.station_tx_rate_gauge) == prefix + "_wifi_station_tx_rate"@
        &&& family_name(self.station_signal_gauge) == prefix + "_wifi_station_signal"@
        &&& family_name(self.station_inactive_gauge) == prefix + "_wifi_station_inactive"@
        &&& family_name(self.station_state_gauge) == prefix + "_wifi_station_state"@
        &&& family_name(self.station_flags_gauge) == prefix + "_wifi_station_flags"@
        &&& family_name(self.station_last_activity_gauge) == prefix + "_wifi_station_last_activity"@
        &&& family_name(self.station_last_time_reachable_gauge) == prefix + "_wifi_station_last_time_reachable"@
        &&& family_name(self.neighbors_access_point_gauge) == prefix + "_wifi_neighbors_access_point"@
        &&& family_name(self.channel_usage_gauge) == prefix + "_wifi_channel_usage"@
        &&& family_help(self.busy_percent_gauge) == prefix + "_wifi_busy_percent"@
        &&& family_label_names(self.busy_percent_gauge) == seq!["ap"@, "name"@, "band"@]
        &&& family_help(self.rx_bss_percent) == prefix + "_wifi_rx_bss_percent"@
        &&& family_label_names(self.rx_bss_percent) == seq!["ap"@, "name"@, "band"@]
        &&& family_help(self.rx_percent_gauge) == prefix + "_wifi_rx_percent"@
        &&& family_label_names(self.rx_percent_gauge) == seq!["ap"@, "name"@, "band"@]
        &&& family_help(self.tx_percent_gauge) == prefix + "_wifi_tx_percent"@
        &&& family_label_names(self.tx_percent_gauge) == seq!["ap"@, "name"@, "band"@]
        &&& family_help(self.station_active_gauge) == prefix + "_wifi_station_active 1 for active"@
        &&& family_label_names(self.station_active_gauge) == seq!["primary_name"@, "ap_name"@, "band"@, "ap_id"@, "mac"@, "vendor_name"@]
        &&& family_help(self.station_rx_bitrate_gauge) == prefix + "_wifi_station_rx_bitrate"@
        &&& family_label_names(self.station_rx_bitrate_gauge) == seq!["primary_name"@, "ipv4"@, "ap_name"@, "band"@, "ap_id"@, "mac"@]
        &&& family_help(self.station_rx_mcs_gauge) == prefix + "_wifi_station_rx_mcs"@
        &&& family_label_names(self.station_rx_mcs_gauge) == seq!["primary_name"@, "ipv4"@, "ap_name"@, "band"@, "ap_id"@, "mac"@]
        &&& family_help(self.station_rx_shortgi_gauge) == prefix + "_wifi_station_rx_shortgi 1 for shortgi enabled"@
        &&& family_label_names(self.station_rx_shortgi_gauge) == seq!["primary_name"@, "ipv4"@, "ap_name"@, "band"@, "ap_id"@, "mac"@]
        &&& family_help(self.station_rx_vht_mcs_gauge) == prefix + "_wifi_station_rx_vht_mcs"@
        &&& family_label_names(self.station_rx_vht_mcs_gauge) == seq!["primary_name"@, "ipv4"@, "ap_name"@, "band"@, "ap_id"@, "mac"@]
        &&& family_help(self.station_rx_width_gauge) == prefix + "_wifi_station_rx_width"@
        &&& family_label_names(self.station_rx_width_gauge) == seq!["primary_name"@, "ipv4"@, "ap_name"@, "band"@, "ap_id"@, "mac"@]
        &&& family_help(self.station_rx_bytes_gauge) == prefix + "_wifi_station_rx_bytes"@
        &&& family_label_names(self.station_rx_bytes_gauge) == seq!["primary_name"@, "ipv4"@, "ap_name"@, "band"@, "ap_id"@, "mac"@]
        &&& family_help(self.station_rx_rate_gauge) == prefix + "_wifi_station_rx_rate"@
        &&& family_label_names(self.station_rx_rate_gauge) == seq!["primary_name"@, "ipv4"@, "ap_name"@, "band"@, "ap_id"@, "mac"@]
        &&& family_help(self.station_tx_bitrate_gauge) == prefix + "_wifi_station_tx_bitrate"@
        &&& family_label_names(self.station_tx_bitrate_gauge) == seq!["primary_name"@, "ipv4"@, "ap_name"@, "band"@, "ap_id"@, "mac"@]
        &&& family_help(self.station_tx_mcs_gauge) == prefix + "_wifi_station_tx_mcs"@
        &&& family_label_names(self.station_tx_mcs_gauge) == seq!["primary_name"@, "ipv4"@, "ap_name"@, "band"@, "ap_id"@, "mac"@]
        &&& family_help(self.station_tx_shortgi_gauge) == prefix + "_wifi_station_tx_shortgi 1 for shortgi enabled"@
        &&& family_label_names(self.station_tx_shortgi_gauge) == seq!["primary_name"@, "ipv4"@, "ap_name"@, "band"@, "ap_id"@, "mac"@]
        &&& family_help(self.station_tx_vht_mcs_gauge) == prefix + "_wifi_station_tx_vht_mcs"@
        &&& family_label_names(self.station_tx_vht_mcs_gauge) == seq!["primary_name"@, "ipv4"@, "ap_name"@, "band"@, "ap_id"@, "mac"@]
        &&& family_help(self.station_tx_width_gauge) == prefix + "_wifi_station_tx_width"@
        &&& family_label_names(self.station_tx_width_gauge) == seq!["primary_name"@, "ipv4"@, "ap_name"@, "band"@, "ap_id"@, "mac"@]
        &&& family_help(self.station_tx_bytes_gauge) == prefix + "_wifi_station_tx_bytes"@
        &&& family_label_names(self.station_tx_bytes_gauge) == seq!["primary_name"@, "ipv4"@, "ap_name"@, "band"@, "ap_id"@, "mac"@]
        &&& family_help(self.station_tx_rate_gauge) == prefix + "_wifi_station_tx_rate"@
        &&& family_label_names(self.station_tx_rate_gauge) == seq!["primary_name"@, "ipv4"@, "ap_name"@, "band"@, "ap_id"@, "mac"@]
        &&& family_help(self.station_signal_gauge) == prefix + "_wifi_station_signal"@
        &&& family_label_names(self.station_signal_gauge) == seq!["primary_name"@, "ipv4"@, "ap_name"@, "band"@, "ap_id"@, "mac"@]
        &&& family_help(self.station_inactive_gauge) == prefix + "_wifi_station_inactive"@
        &&& family_label_names(self.station_inactive_gauge) == seq!["primary_name"@, "ipv4"@, "ap_name"@, "band"@, "ap_id"@, "mac"@]
        &&& family_help(self.station_state_gauge) == prefix + "_wifi_station_state"@
        &&& family_label_names(self.station_state_gauge) == seq!["primary_name"@, "ipv4"@, "ap_name"@, "band"@, "ap_id"@, "mac"@, "state"@]
        &&& family_help(self.station_flags_gauge) == prefix + "_wifi_station_flags"@
        &&& family_label_names(self.station_flags_gauge) == seq!["primary_name"@, "ipv4"@, "ap_name"@, "band"@, "ap_id"@, "mac"@, "vht"@, "legacy"@, "authorized"@, "ht"@]
        &&& family_help(self.station_last_activity_gauge) == prefix + "_wifi_station_last_activity"@
        &&& family_label_names(self.station_last_activity_gauge) == seq!["primary_name"@, "ipv4"@, "ap_name"@, "band"@, "ap_id"@, "mac"@]
        &&& family_help(self.station_last_time_reachable_gauge) == prefix + "_wifi_station_last_time_reachable"@
        &&& family_label_names(self.station_last_time_reachable_gauge) == seq!["primary_name"@, "ipv4"@, "ap_name"@, "band"@, "ap_id"@, "mac"@]
        &&& family_help(self.neighbors_access_point_gauge) == prefix + "_wifi_neighbors_access_point signal strength"@
        &&& family_label_names(self.neighbors_access_point_gauge) == seq!["channel"@, "ssid"@, "bssid"@, "band"@, "vht"@, "legacy"@, "he"@, "ht"@, "eht"@, "secondary_channel"@]
        &&& family_help(self.channel_usage_gauge) == prefix + "_wifi_channel_usage noise level"@
        &&& family_label_names(self.channel_usage_gauge) == seq!["band"@, "channel"@, "rx_busy_percent"@]
    }

    /// Whether `n` is the name of one of the map's metrics under `prefix`.
    pub open spec fn is_metric_name(prefix: Seq<char>, n: Seq<char>) -> bool {
        ||| n == prefix + "_wifi_busy_percent"@
        ||| n == prefix + "_wifi_rx_bss_percent"@
        ||| n == prefix + "_wifi_rx_percent"@
        ||| n == prefix + "_wifi_tx_percent"@
        ||| n == prefix + "_wifi_station_active"@
        ||| n == prefix + "_wifi_station_rx_bitrate"@
        ||| n == prefix + "_wifi_station_rx_mcs"@
        ||| n == prefix + "_wifi_station_rx_shortgi"@
        ||| n == prefix + "_wifi_station_rx_vht_mcs"@
        ||| n == prefix + "_wifi_station_rx_width"@
        ||| n == prefix + "_wifi_station_rx_bytes"@
        ||| n == prefix + "_wifi_station_rx_rate"@
        ||| n == prefix + "_wifi_station_tx_bitrate"@
        ||| n == prefix + "_wifi_station_tx_mcs"@
        ||| n == prefix + "_wifi_station_tx_shortgi"@
        ||| n == prefix + "_wifi_station_tx_vht_mcs"@
        ||| n == prefix + "_wifi_station_tx_width"@
        ||| n == prefix + "_wifi_station_tx_bytes"@
        ||| n == prefix + "_wifi_station_tx_rate"@
        ||| n == prefix + "_wifi_station_signal"@
        ||| n == prefix + "_wifi_station_inactive"@
        ||| n == prefix + "_wifi_station_state"@
        ||| n == prefix + "_wifi_station_flags"@
        ||| n == prefix + "_wifi_station_last_activity"@
        ||| n == prefix + "_wifi_station_last_time_reachable"@
        ||| n == prefix + "_wifi_neighbors_access_point"@
        ||| n == prefix + "_wifi_channel_usage"@
    }

    /// Prometheus accepts what each gauge of the map is made with exactly when the
    /// prefix is one metric names may be built from.
    proof fn lemma_gauge_args(prefix: Seq<char>)
        ensures
            family_args_accepted(prefix + "_wifi_busy_percent"@, prefix + "_wifi_busy_percent"@, seq!["ap"@, "name"@, "band"@]) == valid_prefix(prefix),
            family_args_accepted(prefix + "_wifi_rx_bss_percent"@, prefix + "_wifi_rx_bss_percent"@, seq!["ap"@, "name"@, "band"@]) == valid_prefix(prefix),
            family_args_accepted(prefix + "_wifi_rx_percent"@, prefix + "_wifi_rx_percent"@, seq!["ap"@, "name"@, "band"@]) == valid_prefix(prefix),
            family_args_accepted(prefix + "_wifi_tx_percent"@, prefix + "_wifi_tx_percent"@, seq!["ap"@, "name"@, "band"@]) == valid_prefix(prefix),
            family_args_accepted(prefix + "_wifi_station_active"@, prefix + "_wifi_station_active 1 for active"@, seq!["primary_name"@, "ap_name"@, "band"@, "ap_id"@, "mac"@, "vendor_name"@]) == valid_prefix(prefix),
            family_args_accepted(prefix + "_wifi_station_rx_bitrate"@, prefix + "_wifi_station_rx_bitrate"@, seq!["primary_name"@, "ipv4"@, "ap_name"@, "band"@, "ap_id"@, "mac"@]) == valid_prefix(prefix),
            family_args_accepted(prefix + "_wifi_station_rx_mcs"@, prefix + "_wifi_station_rx_mcs"@, seq!["primary_name"@, "ipv4"@, "ap_name"@, "band"@, "ap_id"@, "mac"@]) == valid_prefix(prefix),
            family_args_accepted(prefix + "_wifi_station_rx_shortgi"@, prefix + "_wifi_station_rx_shortgi 1 for shortgi enabled"@, seq!["primary_name"@, "ipv4"@, "ap_name"@, "band"@, "ap_id"@, "mac"@]) == valid_prefix(prefix),
            family_args_accepted(prefix + "_wifi_station_rx_vht_mcs"@, prefix + "_wifi_station_rx_vht_mcs"@, seq!["primary_name"@, "ipv4"@, "ap_name"@, "band"@, "ap_id"@, "mac"@]) == valid_prefix(prefix),
            family_args_accepted(prefix + "_wifi_station_rx_width"@, prefix + "_wifi_station_rx_width"@, seq!["primary_name"@, "ipv4"@, "ap_name"@, "band"@, "ap_id"@, "mac"@]) == valid_prefix(prefix),
            family_args_accepted(prefix + "_wifi_station_rx_bytes"@, prefix + "_wifi_station_rx_bytes"@, seq!["primary_name"@, "ipv4"@, "ap_name"@, "band"@, "ap_id"@, "mac"@]) == valid_prefix(prefix),
            family_args_accepted(prefix + "_wifi_station_rx_rate"@, prefix + "_wifi_station_rx_rate"@, seq!["primary_name"@, "ipv4"@, "ap_name"@, "band"@, "ap_id"@, "mac"@]) == valid_prefix(prefix),
            family_args_accepted(prefix + "_wifi_station_tx_bitrate"@, prefix + "_wifi_station_tx_bitrate"@, seq!["primary_name"@, "ipv4"@, "ap_name"@, "band"@, "ap_id"@, "mac"@]) == valid_prefix(prefix),
            family_args_accepted(prefix + "_wifi_station_tx_mcs"@, prefix + "_wifi_station_tx_mcs"@, seq!["primary_name"@, "ipv4"@, "ap_name"@, "band"@, "ap_id"@, "mac"@]) == valid_prefix(prefix),
            family_args_accepted(prefix + "_wifi_station_tx_shortgi"@, prefix + "_wifi_station_tx_shortgi 1 for shortgi enabled"@, seq!["primary_name"@, "ipv4"@, "ap_name"@, "band"@, "ap_id"@, "mac"@]) == valid_prefix(prefix),
            family_args_accepted(prefix + "_wifi_station_tx_vht_mcs"@, prefix + "_wifi_station_tx_vht_mcs"@, seq!["primary_name"@, "ipv4"@, "ap_name"@, "band"@, "ap_id"@, "mac"@]) == valid_prefix(prefix),
            family_args_accepted(prefix + "_wifi_station_tx_width"@, prefix + "_wifi_station_tx_width"@, seq!["primary_name"@, "ipv4"@, "ap_name"@, "band"@, "ap_id"@, "mac"@]) == valid_prefix(prefix),
            family_args_accepted(prefix + "_wifi_station_tx_bytes"@, prefix + "_wifi_station_tx_bytes"@, seq!["primary_name"@, "ipv4"@, "ap_name"@, "band"@, "ap_id"@, "mac"@]) == valid_prefix(prefix),
            family_args_accepted(prefix + "_wifi_station_tx_rate"@, prefix + "_wifi_station_tx_rate"@, seq!["primary_name"@, "ipv4"@, "ap_name"@, "band"@, "ap_id"@, "mac"@]) == valid_prefix(prefix),
            family_args_accepted(prefix + "_wifi_station_signal"@, prefix + "_wifi_station_signal"@, seq!["primary_name"@, "ipv4"@, "ap_name"@, "band"@, "ap_id"@, "mac"@]) == valid_prefix(prefix),
            family_args_accepted(prefix + "_wifi_station_inactive"@, prefix + "_wifi_station_inactive"@, seq!["primary_name"@, "ipv4"@, "ap_name"@, "band"@, "ap_id"@, "mac"@]) == valid_prefix(prefix),
            family_args_accepted(prefix + "_wifi_station_state"@, prefix + "_wifi_station_state"@, seq!["primary_name"@, "ipv4"@, "ap_name"@, "band"@, "ap_id"@, "mac"@, "state"@]) == valid_prefix(prefix),
            family_args_accepted(prefix + "_wifi_station_flags"@, prefix + "_wifi_station_flags"@, seq!["primary_name"@, "ipv4"@, "ap_name"@, "band"@, "ap_id"@, "mac"@, "vht"@, "legacy"@, "authorized"@, "ht"@]) == valid_prefix(prefix),
            family_args_accepted(prefix + "_wifi_station_last_activity"@, prefix + "_wifi_station_last_activity"@, seq!["primary_name"@, "ipv4"@, "ap_name"@, "band"@, "ap_id"@, "mac"@]) == valid_prefix(prefix),
            family_args_accepted(prefix + "_wifi_station_last_time_reachable"@, prefix + "_wifi_station_last_time_reachable"@, seq!["primary_name"@, "ipv4"@, "ap_name"@, "band"@, "ap_id"@, "mac"@]) == valid_prefix(prefix),
            family_args_accepted(prefix + "_wifi_neighbors_access_point"@, prefix + "_wifi_neighbors_access_point signal strength"@, seq!["channel"@, "ssid"@, "bssid"@, "band"@, "vht"@, "legacy"@, "he"@, "ht"@, "eht"@, "secondary_channel"@]) == valid_prefix(prefix),
            family_args_accepted(prefix + "_wifi_channel_usage"@, prefix + "_wifi_channel_usage noise level"@, seq!["band"@, "channel"@, "rx_busy_percent"@]) == valid_prefix(prefix),
    {
        assert(family_args_accepted(prefix + "_wifi_busy_percent"@, prefix + "_wifi_busy_percent"@, seq!["ap"@, "name"@, "band"@]) == valid_prefix(prefix)) by {
            reveal_strlit("_wifi_busy_percent");
            reveal_strlit("ap");
            reveal_strlit("name");
            reveal_strlit("band");
            lemma_prefixed_name_valid(prefix, "_wifi_busy_percent"@);
            let l = seq!["ap"@, "name"@, "band"@];
            assert(valid_label_name(l[0]));
            assert(valid_label_name(l[1]));
            assert(valid_label_name(l[2]));
            assert(l[0] != l[1]);
            assert(l[0] != l[2]);
            assert(l[1][0] != l[2][0]);
            assert(l[1] != l[2]);
        }
        assert(family_args_accepted(prefix + "_wifi_rx_bss_percent"@, prefix + "_wifi_rx_bss_percent"@, seq!["ap"@, "name"@, "band"@]) == valid_prefix(prefix)) by {
            reveal_strlit("_wifi_rx_bss_percent");
            reveal_strlit("ap");
            reveal_strlit("name");
            reveal_strlit("band");
            lemma_prefixed_name_valid(prefix, "_wifi_rx_bss_percent"@);
            let l = seq!["ap"@, "name"@, "band"@];
            assert(valid_label_name(l[0]));
            assert(valid_label_name(l[1]));
            assert(valid_label_name(l[2]));
            assert(l[0] != l[1]);
            assert(l[0] != l[2]);
            assert(l[1][0] != l[2][0]);
            assert(l[1] != l[2]);
        }
        assert(family_args_accepted(prefix + "_wifi_rx_percent"@, prefix + "_wifi_rx_percent"@, seq!["ap"@, "name"@, "band"@]) == valid_prefix(prefix)) by {
            reveal_strlit("_wifi_rx_percent");
            reveal_strlit("ap");
            reveal_strlit("name");
            reveal_strlit("band");
            lemma_prefixed_name_valid(prefix, "_wifi_rx_percent"@);
            let l = seq!["ap"@, "name"@, "band"@];
            assert(valid_label_name(l[0]));
            assert(valid_label_name(l[1]));
            assert(valid_label_name(l[2]));
            assert(l[0] != l[1]);
            assert(l[0] != l[2]);
            assert(l[1][0] != l[2][0]);
            assert(l[1] != l[2]);
        }
        assert(family_args_accepted(prefix + "_wifi_tx_percent"@, prefix + "_wifi_tx_percent"@, seq!["ap"@, "name"@, "band"@]) == valid_prefix(prefix)) by {
            reveal_strlit("_wifi_tx_percent");
            reveal_strlit("ap");
            reveal_strlit("name");
            reveal_strlit("band");
            lemma_prefixed_name_valid(prefix, "_wifi_tx_percent"@);
            let l = seq!["ap"@, "name"@, "band"@];
            assert(valid_label_name(l[0]));
            assert(valid_label_name(l[1]));
            assert(valid_label_name(l[2]));
            assert(l[0] != l[1]);
            assert(l[0] != l[2]);
            assert(l[1][0] != l[2][0]);
            assert(l[1] != l[2]);
        }
        assert(family_args_accepted(prefix + "_wifi_station_active"@, prefix + "_wifi_station_active 1 for active"@, seq!["primary_name"@, "ap_name"@, "band"@, "ap_id"@, "mac"@, "vendor_name"@]) == valid_prefix(prefix)) by {
            reveal_strlit("_wifi_station_active");
            reveal_strlit("_wifi_station_active 1 for active");
            reveal_strlit("primary_name");
            reveal_strlit("ap_name");
            reveal_strlit("band");
            reveal_strlit("ap_id");
            reveal_strlit("mac");
            reveal_strlit("vendor_name");
            lemma_prefixed_name_valid(prefix, "_wifi_station_active"@);
            let l = seq!["primary_name"@, "ap_name"@, "band"@, "ap_id"@, "mac"@, "vendor_name"@];
            assert(valid_label_name(l[0]));
            assert(valid_label_name(l[1]));
            assert(valid_label_name(l[2]));
            assert(valid_label_name(l[3]));
            assert(valid_label_name(l[4]));
            assert(valid_label_name(l[5]));
            assert(l[0] != l[1]);
            assert(l[0] != l[2]);
            assert(l[0] != l[3]);
            assert(l[0] != l[4]);
            assert(l[0] != l[5]);
            assert(l[1] != l[2]);
            assert(l[1] != l[3]);
            assert(l[1] != l[4]);
            assert(l[1] != l[5]);
            assert(l[2] != l[3]);
            assert(l[2] != l[4]);
            assert(l[2] != l[5]);
            assert(l[3] != l[4]);
            assert(l[3] != l[5]);
            assert(l[4] != l[5]);
        }
        assert(family_args_accepted(prefix + "_wifi_station_rx_bitrate"@, prefix + "_wifi_station_rx_bitrate"@, seq!["primary_name"@, "ipv4"@, "ap_name"@, "band"@, "ap_id"@, "mac"@]) == valid_prefix(prefix)) by {
            reveal_strlit("_wifi_station_rx_bitrate");
            reveal_strlit("primary_name");
            reveal_strlit("ipv4");
            reveal_strlit("ap_name");
            reveal_strlit("band");
            reveal_strlit("ap_id");
            reveal_strlit("mac");
            lemma_prefixed_name_valid(prefix, "_wifi_station_rx_bitrate"@);
            let l = seq!["primary_name"@, "ipv4"@, "ap_name"@, "band"@, "ap_id"@, "mac"@];
            assert(valid_label_name(l[0]));
            assert(valid_label_name(l[1]));
            assert(valid_label_name(l[2]));
            assert(valid_label_name(l[3]));
            assert(valid_label_name(l[4]));
            assert(valid_label_name(l[5]));
            assert(l[0] != l[1]);
            assert(l[0] != l[2]);
            assert(l[0] != l[3]);
            assert(l[0] != l[4]);
            assert(l[0] != l[5]);
            assert(l[1] != l[2]);
            assert(l[1][0] != l[3][0]);
            assert(l[1] != l[3]);
            assert(l[1] != l[4]);
            assert(l[1] != l[5]);
            assert(l[2] != l[3]);
            assert(l[2] != l[4]);
            assert(l[2] != l[5]);
            assert(l[3] != l[4]);
            assert(l[3] != l[5]);
            assert(l[4] != l[5]);
        }
        assert(family_args_accepted(prefix + "_wifi_station_rx_mcs"@, prefix + "_wifi_station_rx_mcs"@, seq!["primary_name"@, "ipv4"@, "ap_name"@, "band"@, "ap_id"@, "mac"@]) == valid_prefix(prefix)) by {
            reveal_strlit("_wifi_station_rx_mcs");
            reveal_strlit("primary_name");
            reveal_strlit("ipv4");
            reveal_strlit("ap_name");
            reveal_strlit("band");
            reveal_strlit("ap_id");
            reveal_strlit("mac");
            lemma_prefixed_name_valid(prefix, "_wifi_station_rx_mcs"@);
            let l = seq!["primary_name"@, "ipv4"@, "ap_name"@, "band"@, "ap_id"@, "mac"@];
            assert(valid_label_name(l[0]));
            assert(valid_label_name(l[1]));
            assert(valid_label_name(l[2]));
            assert(valid_label_name(l[3]));
            assert(valid_label_name(l[4]));
            assert(valid_label_name(l[5]));
            assert(l[0] != l[1]);
            assert(l[0] != l[2]);
            assert(l[0] != l[3]);
            assert(l[0] != l[4]);
            assert(l[0] != l[5]);
            assert(l[1] != l[2]);
            assert(l[1][0] != l[3][0]);
            assert(l[1] != l[3]);
            assert(l[1] != l[4]);
            assert(l[1] != l[5]);
            assert(l[2] != l[3]);
            assert(l[2] != l[4]);
            assert(l[2] != l[5]);
            assert(l[3] != l[4]);
            assert(l[3] != l[5]);
            assert(l[4] != l[5]);
        }
        assert(family_args_accepted(prefix + "_wifi_station_rx_shortgi"@, prefix + "_wifi_station_rx_shortgi 1 for shortgi enabled"@, seq!["primary_name"@, "ipv4"@, "ap_name"@, "band"@, "ap_id"@, "mac"@]) == valid_prefix(prefix)) by {
            reveal_strlit("_wifi_station_rx_shortgi");
            reveal_strlit("_wifi_station_rx_shortgi 1 for shortgi enabled");
            reveal_strlit("primary_name");
            reveal_strlit("ipv4");
            reveal_strlit("ap_name");
            reveal_strlit("band");
            reveal_strlit("ap_id");
            reveal_strlit("mac");
            lemma_prefixed_name_valid(prefix, "_wifi_station_rx_shortgi"@);
            let l = seq!["primary_name"@, "ipv4"@, "ap_name"@, "band"@, "ap_id"@, "mac"@];
            assert(valid_label_name(l[0]));
            assert(valid_label_name(l[1]));
            assert(valid_label_name(l[2]));
            assert(valid_label_name(l[3]));
            assert(valid_label_name(l[4]));
            assert(valid_label_name(l[5]));
            assert(l[0] != l[1]);
            assert(l[0] != l[2]);
            assert(l[0] != l[3]);
            assert(l[0] != l[4]);
            assert(l[0] != l[5]);
            assert(l[1] != l[2]);
            assert(l[1][0] != l[3][0]);
            assert(l[1] != l[3]);
            assert(l[1] != l[4]);
            assert(l[1] != l[5]);
            assert(l[2] != l[3]);
            assert(l[2] != l[4]);
            assert(l[2] != l[5]);
            assert(l[3] != l[4]);
            assert(l[3] != l[5]);
            assert(l[4] != l[5]);
        }
        assert(family_args_accepted(prefix + "_wifi_station_rx_vht_mcs"@, prefix + "_wifi_station_rx_vht_mcs"@, seq!["primary_name"@, "ipv4"@, "ap_name"@, "band"@, "ap_id"@, "mac"@]) == valid_prefix(prefix)) by {
            reveal_strlit("_wifi_station_rx_vht_mcs");
            reveal_strlit("primary_name");
            reveal_strlit("ipv4");
            reveal_strlit("ap_name");
            reveal_strlit("band");
            reveal_strlit("ap_id");
            reveal_strlit("mac");
            lemma_prefixed_name_valid(prefix, "_wifi_station_rx_vht_mcs"@);
            let l = seq!["primary_name"@, "ipv4"@, "ap_name"@, "band"@, "ap_id"@, "mac"@];
            assert(valid_label_name(l[0]));
            assert(valid_label_name(l[1]));
            assert(valid_label_name(l[2]));
            assert(valid_label_name(l[3]));
            assert(valid_label_name(l[4]));
            assert(valid_label_name(l[5]));
            assert(l[0] != l[1]);
            assert(l[0] != l[2]);
            assert(l[0] != l[3]);
            assert(l[0] != l[4]);
            assert(l[0] != l[5]);
            assert(l[1] != l[2]);
            assert(l[1][0] != l[3][0]);
            assert(l[1] != l[3]);
            assert(l[1] != l[4]);
            assert(l[1] != l[5]);
            assert(l[2] != l[3]);
            assert(l[2] != l[4]);
            assert(l[2] != l[5]);
            assert(l[3] != l[4]);
            assert(l[3] != l[5]);
            assert(l[4] != l[5]);
        }
        assert(family_args_accepted(prefix + "_wifi_station_rx_width"@, prefix + "_wifi_station_rx_width"@, seq!["primary_name"@, "ipv4"@, "ap_name"@, "band"@, "ap_id"@, "mac"@]) == valid_prefix(prefix)) by {
            reveal_strlit("_wifi_station_rx_width");
            reveal_strlit("primary_name");
            reveal_strlit("ipv4");
            reveal_strlit("ap_name");
            reveal_strlit("band");
            reveal_strlit("ap_id");
            reveal_strlit("mac");
            lemma_prefixed_name_valid(prefix, "_wifi_station_rx_width"@);
            let l = seq!["primary_name"@, "ipv4"@, "ap_name"@, "band"@, "ap_id"@, "mac"@];
            assert(valid_label_name(l[0]));
            assert(valid_label_name(l[1]));
            assert(valid_label_name(l[2]));
            assert(valid_label_name(l[3]));
            assert(valid_label_name(l[4]));
            assert(valid_label_name(l[5]));
            assert(l[0] != l[1]);
            assert(l[0] != l[2]);
            assert(l[0] != l[3]);
            assert(l[0] != l[4]);
            assert(l[0] != l[5]);
            assert(l[1] != l[2]);
            assert(l[1][0] != l[3][0]);
            assert(l[1] != l[3]);
            assert(l[1] != l[4]);
            assert(l[1] != l[5]);
            assert(l[2] != l[3]);
            assert(l[2] != l[4]);
            assert(l[2] != l[5]);
            assert(l[3] != l[4]);
            assert(l[3] != l[5]);
            assert(l[4] != l[5]);
        }
        assert(family_args_accepted(prefix + "_wifi_station_rx_bytes"@, prefix + "_wifi_station_rx_bytes"@, seq!["primary_name"@, "ipv4"@, "ap_name"@, "band"@, "ap_id"@, "mac"@]) == valid_prefix(prefix)) by {
            reveal_strlit("_wifi_station_rx_bytes");
            reveal_strlit("primary_name");
            reveal_strlit("ipv4");
            reveal_strlit("ap_name");
            reveal_strlit("band");
            reveal_strlit("ap_id");
            reveal_strlit("mac");
            lemma_prefixed_name_valid(prefix, "_wifi_station_rx_bytes"@);
            let l = seq!["primary_name"@, "ipv4"@, "ap_name"@, "band"@, "ap_id"@, "mac"@];
            assert(valid_label_name(l[0]));
            assert(valid_label_name(l[1]));
            assert(valid_label_name(l[2]));
            assert(valid_label_name(l[3]));
            assert(valid_label_name(l[4]));
            assert(valid_label_name(l[5]));
            assert(l[0] != l[1]);
            assert(l[0] != l[2]);
            assert(l[0] != l[3]);
            assert(l[0] != l[4]);
            assert(l[0] != l[5]);
            assert(l[1] != l[2]);
            assert(l[1][0] != l[3][0]);
            assert(l[1] != l[3]);
            assert(l[1] != l[4]);
            assert(l[1] != l[5]);
            assert(l[2] != l[3]);
            assert(l[2] != l[4]);
            assert(l[2] != l[5]);
            assert(l[3] != l[4]);
            assert(l[3] != l[5]);
            assert(l[4] != l[5]);
        }
        assert(family_args_accepted(prefix + "_wifi_station_rx_rate"@, prefix + "_wifi_station_rx_rate"@, seq!["primary_name"@, "ipv4"@, "ap_name"@, "band"@, "ap_id"@, "mac"@]) == valid_prefix(prefix)) by {
            reveal_strlit("_wifi_station_rx_rate");
            reveal_strlit("primary_name");
            reveal_strlit("ipv4");
            reveal_strlit("ap_name");
            reveal_strlit("band");
            reveal_strlit("ap_id");
            reveal_strlit("mac");
            lemma_prefixed_name_valid(prefix, "_wifi_station_rx_rate"@);
            let l = seq!["primary_name"@, "ipv4"@, "ap_name"@, "band"@, "ap_id"@, "mac"@];
            assert(valid_label_name(l[0]));
            assert(valid_label_name(l[1]));
            assert(valid_label_name(l[2]));
            assert(valid_label_name(l[3]));
            assert(valid_label_name(l[4]));
            assert(valid_label_name(l[5]));
            assert(l[0] != l[1]);
            assert(l[0] != l[2]);
            assert(l[0] != l[3]);
            assert(l[0] != l[4]);
            assert(l[0] != l[5]);
            assert(l[1] != l[2]);
            assert(l[1][0] != l[3][0]);
            assert(l[1] != l[3]);
            assert(l[1] != l[4]);
            assert(l[1] != l[5]);
            assert(l[2] != l[3]);
            assert(l[2] != l[4]);
            assert(l[2] != l[5]);
            assert(l[3] != l[4]);
            assert(l[3] != l[5]);
            assert(l[4] != l[5]);
        }
        assert(family_args_accepted(prefix + "_wifi_station_tx_bitrate"@, prefix + "_wifi_station_tx_bitrate"@, seq!["primary_name"@, "ipv4"@, "ap_name"@, "band"@, "ap_id"@, "mac"@]) == valid_prefix(prefix)) by {
            reveal_strlit("_wifi_station_tx_bitrate");
            reveal_strlit("primary_name");
            reveal_strlit("ipv4");
            reveal_strlit("ap_name");
            reveal_strlit("band");
            reveal_strlit("ap_id");
            reveal_strlit("mac");
            lemma_prefixed_name_valid(prefix, "_wifi_station_tx_bitrate"@);
            let l = seq!["primary_name"@, "ipv4"@, "ap_name"@, "band"@, "ap_id"@, "mac"@];
            assert(valid_label_name(l[0]));
            assert(valid_label_name(l[1]));
            assert(valid_label_name(l[2]));
            assert(valid_label_name(l[3]));
            assert(valid_label_name(l[4]));
            assert(valid_label_name(l[5]));
            assert(l[0] != l[1]);
            assert(l[0] != l[2]);
            assert(l[0] != l[3]);
            assert(l[0] != l[4]);
            assert(l[0] != l[5]);
            assert(l[1] != l[2]);
            assert(l[1][0] != l[3][0]);
            assert(l[1] != l[3]);
            assert(l[1] != l[4]);
            assert(l[1] != l[5]);
            assert(l[2] != l[3]);
            assert(l[2] != l[4]);
            assert(l[2] != l[5]);
            assert(l[3] != l[4]);
            assert(l[3] != l[5]);
            assert(l[4] != l[5]);
        }
        assert(family_args_accepted(prefix + "_wifi_station_tx_mcs"@, prefix + "_wifi_station_tx_mcs"@, seq!["primary_name"@, "ipv4"@, "ap_name"@, "band"@, "ap_id"@, "mac"@]) == valid_prefix(prefix)) by {
            reveal_strlit("_wifi_station_tx_mcs");
            reveal_strlit("primary_name");
            reveal_strlit("ipv4");
            reveal_strlit("ap_name");
            reveal_strlit("band");
            reveal_strlit("ap_id");
            reveal_strlit("mac");
            lemma_prefixed_name_valid(prefix, "_wifi_station_tx_mcs"@);
            let l = seq!["primary_name"@, "ipv4"@, "ap_name"@, "band"@, "ap_id"@, "mac"@];
            assert(valid_label_name(l[0]));
            assert(valid_label_name(l[1]));
            assert(valid_label_name(l[2]));
            assert(valid_label_name(l[3]));
            assert(valid_label_name(l[4]));
            assert(valid_label_name(l[5]));
            assert(l[0] != l[1]);
            assert(l[0] != l[2]);
            assert(l[0] != l[3]);
            assert(l[0] != l[4]);
            assert(l[0] != l[5]);
            assert(l[1] != l[2]);
            assert(l[1][0] != l[3][0]);
            assert(l[1] != l[3]);
            assert(l[1] != l[4]);
            assert(l[1] != l[5]);
            assert(l[2] != l[3]);
            assert(l[2] != l[4]);
            assert(l[2] != l[5]);
            assert(l[3] != l[4]);
            assert(l[3] != l[5]);
            assert(l[4] != l[5]);
        }
        assert(family_args_accepted(prefix + "_wifi_station_tx_shortgi"@, prefix + "_wifi_station_tx_shortgi 1 for shortgi enabled"@, seq!["primary_name"@, "ipv4"@, "ap_name"@, "band"@, "ap_id"@, "mac"@]) == valid_prefix(prefix)) by {
            reveal_strlit("_wifi_station_tx_shortgi");
            reveal_strlit("_wifi_station_tx_shortgi 1 for shortgi enabled");
            reveal_strlit("primary_name");
            reveal_strlit("ipv4");
            reveal_strlit("ap_name");
            reveal_strlit("band");
            reveal_strlit("ap_id");
            reveal_strlit("mac");
            lemma_prefixed_name_valid(prefix, "_wifi_station_tx_shortgi"@);
            let l = seq!["primary_name"@, "ipv4"@, "ap_name"@, "band"@, "ap_id"@, "mac"@];
            assert(valid_label_name(l[0]));
            assert(valid_label_name(l[1]));
            assert(valid_label_name(l[2]));
            assert(valid_label_name(l[3]));
            assert(valid_label_name(l[4]));
            assert(valid_label_name(l[5]));
            assert(l[0] != l[1]);
            assert(l[0] != l[2]);
            assert(l[0] != l[3]);
            assert(l[0] != l[4]);
            assert(l[0] != l[5]);
            assert(l[1] != l[2]);
            assert(l[1][0] != l[3][0]);
            assert(l[1] != l[3]);
            assert(l[1] != l[4]);
            assert(l[1] != l[5]);
            assert(l[2] != l[3]);
            assert(l[2] != l[4]);
            assert(l[2] != l[5]);
            assert(l[3] != l[4]);
            assert(l[3] != l[5]);
            assert(l[4] != l[5]);
        }
        assert(family_args_accepted(prefix + "_wifi_station_tx_vht_mcs"@, prefix + "_wifi_station_tx_vht_mcs"@, seq!["primary_name"@, "ipv4"@, "ap_name"@, "band"@, "ap_id"@, "mac"@]) == valid_prefix(prefix)) by {
            reveal_strlit("_wifi_station_tx_vht_mcs");
            reveal_strlit("primary_name");
            reveal_strlit("ipv4");
            reveal_strlit("ap_name");
            reveal_strlit("band");
            reveal_strlit("ap_id");
            reveal_strlit("mac");
            lemma_prefixed_name_valid(prefix, "_wifi_station_tx_vht_mcs"@);
            let l = seq!["primary_name"@, "ipv4"@, "ap_name"@, "band"@, "ap_id"@, "mac"@];
            assert(valid_label_name(l[0]));
            assert(valid_label_name(l[1]));
            assert(valid_label_name(l[2]));
            assert(valid_label_name(l[3]));
            assert(valid_label_name(l[4]));
            assert(valid_label_name(l[5]));
            assert(l[0] != l[1]);
            assert(l[0] != l[2]);
            assert(l[0] != l[3]);
            assert(l[0] != l[4]);
            assert(l[0] != l[5]);
            assert(l[1] != l[2]);
            assert(l[1][0] != l[3][0]);
            assert(l[1] != l[3]);
            assert(l[1] != l[4]);
            assert(l[1] != l[5]);
            assert(l[2] != l[3]);
            assert(l[2] != l[4]);
            assert(l[2] != l[5]);
            assert(l[3] != l[4]);
            assert(l[3] != l[5]);
            assert(l[4] != l[5]);
        }
        assert(family_args_accepted(prefix + "_wifi_station_tx_width"@, prefix + "_wifi_station_tx_width"@, seq!["primary_name"@, "ipv4"@, "ap_name"@, "band"@, "ap_id"@, "mac"@]) == valid_prefix(prefix)) by {
            reveal_strlit("_wifi_station_tx_width");
            reveal_strlit("primary_name");
            reveal_strlit("ipv4");
            reveal_strlit("ap_name");
            reveal_strlit("band");
            reveal_strlit("ap_id");
            reveal_strlit("mac");
            lemma_prefixed_name_valid(prefix, "_wifi_station_tx_width"@);
            let l = seq!["primary_name"@, "ipv4"@, "ap_name"@, "band"@, "ap_id"@, "mac"@];
            assert(valid_label_name(l[0]));
            assert(valid_label_name(l[1]));
            assert(valid_label_name(l[2]));
            assert(valid_label_name(l[3]));
            assert(valid_label_name(l[4]));
            assert(valid_label_name(l[5]));
            assert(l[0] != l[1]);
            assert(l[0] != l[2]);
            assert(l[0] != l[3]);
            assert(l[0] != l[4]);
            assert(l[0] != l[5]);
            assert(l[1] != l[2]);
            assert(l[1][0] != l[3][0]);
            assert(l[1] != l[3]);
            assert(l[1] != l[4]);
            assert(l[1] != l[5]);
            assert(l[2] != l[3]);
            assert(l[2] != l[4]);
            assert(l[2] != l[5]);
            assert(l[3] != l[4]);
            assert(l[3] != l[5]);
            assert(l[4] != l[5]);
        }
        assert(family_args_accepted(prefix + "_wifi_station_tx_bytes"@, prefix + "_wifi_station_tx_bytes"@, seq!["primary_name"@, "ipv4"@, "ap_name"@, "band"@, "ap_id"@, "mac"@]) == valid_prefix(prefix)) by {
            reveal_strlit("_wifi_station_tx_bytes");
            reveal_strlit("primary_name");
            reveal_strlit("ipv4");
            reveal_strlit("ap_name");
            reveal_strlit("band");
            reveal_strlit("ap_id");
            reveal_strlit("mac");
            lemma_prefixed_name_valid(prefix, "_wifi_station_tx_bytes"@);
            let l = seq!["primary_name"@, "ipv4"@, "ap_name"@, "band"@, "ap_id"@, "mac"@];
            assert(valid_label_name(l[0]));
            assert(valid_label_name(l[1]));
            assert(valid_label_name(l[2]));
            assert(valid_label_name(l[3]));
            assert(valid_label_name(l[4]));
            assert(valid_label_name(l[5]));
            assert(l[0] != l[1]);
            assert(l[0] != l[2]);
            assert(l[0] != l[3]);
            assert(l[0] != l[4]);
            assert(l[0] != l[5]);
            assert(l[1] != l[2]);
            assert(l[1][0] != l[3][0]);
            assert(l[1] != l[3]);
            assert(l[1] != l[4]);
            assert(l[1] != l[5]);
            assert(l[2] != l[3]);
            assert(l[2] != l[4]);
            assert(l[2] != l[5]);
            assert(l[3] != l[4]);
            assert(l[3] != l[5]);
            assert(l[4] != l[5]);
        }
        assert(family_args_accepted(prefix + "_wifi_station_tx_rate"@, prefix + "_wifi_station_tx_rate"@, seq!["primary_name"@, "ipv4"@, "ap_name"@, "band"@, "ap_id"@, "mac"@]) == valid_prefix(prefix)) by {
            reveal_strlit("_wifi_station_tx_rate");
            reveal_strlit("primary_name");
            reveal_strlit("ipv4");
            reveal_strlit("ap_name");
            reveal_strlit("band");
            reveal_strlit("ap_id");
            reveal_strlit("mac");
            lemma_prefixed_name_valid(prefix, "_wifi_station_tx_rate"@);
            let l = seq!["primary_name"@, "ipv4"@, "ap_name"@, "band"@, "ap_id"@, "mac"@];
            assert(valid_label_name(l[0]));
            assert(valid_label_name(l[1]));
            assert(valid_label_name(l[2]));
            assert(valid_label_name(l[3]));
            assert(valid_label_name(l[4]));
            assert(valid_label_name(l[5]));
            assert(l[0] != l[1]);
            assert(l[0] != l[2]);
            assert(l[0] != l[3]);
            assert(l[0] != l[4]);
            assert(l[0] != l[5]);
            assert(l[1] != l[2]);
            assert(l[1][0] != l[3][0]);
            assert(l[1] != l[3]);
            assert(l[1] != l[4]);
            assert(l[1] != l[5]);
            assert(l[2] != l[3]);
            assert(l[2] != l[4]);
            assert(l[2] != l[5]);
            assert(l[3] != l[4]);
            assert(l[3] != l[5]);
            assert(l[4] != l[5]);
        }
        assert(family_args_accepted(prefix + "_wifi_station_signal"@, prefix + "_wifi_station_signal"@, seq!["primary_name"@, "ipv4"@, "ap_name"@, "band"@, "ap_id"@, "mac"@]) == valid_prefix(prefix)) by {
            reveal_strlit("_wifi_station_signal");
            reveal_strlit("primary_name");
            reveal_strlit("ipv4");
            reveal_strlit("ap_name");
            reveal_strlit("band");
            reveal_strlit("ap_id");
            reveal_strlit("mac");
            lemma_prefixed_name_valid(prefix, "_wifi_station_signal"@);
            let l = seq!["primary_name"@, "ipv4"@, "ap_name"@, "band"@, "ap_id"@, "mac"@];
            assert(valid_label_name(l[0]));
            assert(valid_label_name(l[1]));
            assert(valid_label_name(l[2]));
            assert(valid_label_name(l[3]));
            assert(valid_label_name(l[4]));
            assert(valid_label_name(l[5]));
            assert(l[0] != l[1]);
            assert(l[0] != l[2]);
            assert(l[0] != l[3]);
            assert(l[0] != l[4]);
            assert(l[0] != l[5]);
            assert(l[1] != l[2]);
            assert(l[1][0] != l[3][0]);
            assert(l[1] != l[3]);
            assert(l[1] != l[4]);
            assert(l[1] != l[5]);
            assert(l[2] != l[3]);
            assert(l[2] != l[4]);
            assert(l[2] != l[5]);
            assert(l[3] != l[4]);
            assert(l[3] != l[5]);
            assert(l[4] != l[5]);
        }
        assert(family_args_accepted(prefix + "_wifi_station_inactive"@, prefix + "_wifi_station_inactive"@, seq!["primary_name"@, "ipv4"@, "ap_name"@, "band"@, "ap_id"@, "mac"@]) == valid_prefix(prefix)) by {
            reveal_strlit("_wifi_station_inactive");
            reveal_strlit("primary_name");
            reveal_strlit("ipv4");
            reveal_strlit("ap_name");
            reveal_strlit("band");
            reveal_strlit("ap_id");
            reveal_strlit("mac");
            lemma_prefixed_name_valid(prefix, "_wifi_station_inactive"@);
            let l = seq!["primary_name"@, "ipv4"@, "ap_name"@, "band"@, "ap_id"@, "mac"@];
            assert(valid_label_name(l[0]));
            assert(valid_label_name(l[1]));
            assert(valid_label_name(l[2]));
            assert(valid_label_name(l[3]));
            assert(valid_label_name(l[4]));
            assert(valid_label_name(l[5]));
            assert(l[0] != l[1]);
            assert(l[0] != l[2]);
            assert(l[0] != l[3]);
            assert(l[0] != l[4]);
            assert(l[0] != l[5]);
            assert(l[1] != l[2]);
            assert(l[1][0] != l[3][0]);
            assert(l[1] != l[3]);
            assert(l[1] != l[4]);
            assert(l[1] != l[5]);
            assert(l[2] != l[3]);
            assert(l[2] != l[4]);
            assert(l[2] != l[5]);
            assert(l[3] != l[4]);
            assert(l[3] != l[5]);
            assert(l[4] != l[5]);
        }
        assert(family_args_accepted(prefix + "_wifi_station_state"@, prefix + "_wifi_station_state"@, seq!["primary_name"@, "ipv4"@, "ap_name"@, "band"@, "ap_id"@, "mac"@, "state"@]) == valid_prefix(prefix)) by {
            reveal_strlit("_wifi_station_state");
            reveal_strlit("primary_name");
            reveal_strlit("ipv4");
            reveal_strlit("ap_name");
            reveal_strlit("band");
            reveal_strlit("ap_id");
            reveal_strlit("mac");
            reveal_strlit("state");
            lemma_prefixed_name_valid(prefix, "_wifi_station_state"@);
            let l = seq!["primary_name"@, "ipv4"@, "ap_name"@, "band"@, "ap_id"@, "mac"@, "state"@];
            assert(valid_label_name(l[0]));
            assert(valid_label_name(l[1]));
            assert(valid_label_name(l[2]));
            assert(valid_label_name(l[3]));
            assert(valid_label_name(l[4]));
            assert(valid_label_name(l[5]));
            assert(valid_label_name(l[6]));
            assert(l[0] != l[1]);
            assert(l[0] != l[2]);
            assert(l[0] != l[3]);
            assert(l[0] != l[4]);
            assert(l[0] != l[5]);
            assert(l[0] != l[6]);
            assert(l[1] != l[2]);
            assert(l[1][0] != l[3][0]);
            assert(l[1] != l[3]);
            assert(l[1] != l[4]);
            assert(l[1] != l[5]);
            assert(l[1] != l[6]);
            assert(l[2] != l[3]);
            assert(l[2] != l[4]);
            assert(l[2] != l[5]);
            assert(l[2] != l[6]);
            assert(l[3] != l[4]);
            assert(l[3] != l[5]);
            assert(l[3] != l[6]);
            assert(l[4] != l[5]);
            assert(l[4][0] != l[6][0]);
            assert(l[4] != l[6]);
            assert(l[5] != l[6]);
        }
        assert(family_args_accepted(prefix + "_wifi_station_flags"@, prefix + "_wifi_station_flags"@, seq!["primary_name"@, "ipv4"@, "ap_name"@, "band"@, "ap_id"@, "mac"@, "vht"@, "legacy"@, "authorized"@, "ht"@]) == valid_prefix(prefix)) by {
            reveal_strlit("_wifi_station_flags");
            reveal_strlit("primary_name");
            reveal_strlit("ipv4");
            reveal_strlit("ap_name");
            reveal_strlit("band");
            reveal_strlit("ap_id");
            reveal_strlit("mac");
            reveal_strlit("vht");
            reveal_strlit("legacy");
            reveal_strlit("authorized");
            reveal_strlit("ht");
            lemma_prefixed_name_valid(prefix, "_wifi_station_flags"@);
            let l = seq!["primary_name"@, "ipv4"@, "ap_name"@, "band"@, "ap_id"@, "mac"@, "vht"@, "legacy"@, "authorized"@, "ht"@];
            assert(valid_label_name(l[0]));
            assert(valid_label_name(l[1]));
            assert(valid_label_name(l[2]));
            assert(valid_label_name(l[3]));
            assert(valid_label_name(l[4]));
            assert(valid_label_name(l[5]));
            assert(valid_label_name(l[6]));
            assert(valid_label_name(l[7]));
            assert(valid_label_name(l[8]));
            assert(valid_label_name(l[9]));
            assert(l[0] != l[1]);
            assert(l[0] != l[2]);
            assert(l[0] != l[3]);
            assert(l[0] != l[4]);
            assert(l[0] != l[5]);
            assert(l[0] != l[6]);
            assert(l[0] != l[7]);
            assert(l[0] != l[8]);
            assert(l[0] != l[9]);
            assert(l[1] != l[2]);
            assert(l[1][0] != l[3][0]);
            assert(l[1] != l[3]);
            assert(l[1] != l[4]);
            assert(l[1] != l[5]);
            assert(l[1] != l[6]);
            assert(l[1] != l[7]);
            assert(l[1] != l[8]);
            assert(l[1] != l[9]);
            assert(l[2] != l[3]);
            assert(l[2] != l[4]);
            assert(l[2] != l[5]);
            assert(l[2] != l[6]);
            assert(l[2] != l[7]);
            assert(l[2] != l[8]);
            assert(l[2] != l[9]);
            assert(l[3] != l[4]);
            assert(l[3] != l[5]);
            assert(l[3] != l[6]);
            assert(l[3] != l[7]);
            assert(l[3] != l[8]);
            assert(l[3] != l[9]);
            assert(l[4] != l[5]);
            assert(l[4] != l[6]);
            assert(l[4] != l[7]);
            assert(l[4] != l[8]);
            assert(l[4] != l[9]);
            assert(l[5][0] != l[6][0]);
            assert(l[5] != l[6]);
            assert(l[5] != l[7]);
            assert(l[5] != l[8]);
            assert(l[5] != l[9]);
            assert(l[6] != l[7]);
            assert(l[6] != l[8]);
            assert(l[6] != l[9]);
            assert(l[7] != l[8]);
            assert(l[7] != l[9]);
            assert(l[8] != l[9]);
        }
        assert(family_args_accepted(prefix + "_wifi_station_last_activity"@, prefix + "_wifi_station_last_activity"@, seq!["primary_name"@, "ipv4"@, "ap_name"@, "band"@, "ap_id"@, "mac"@]) == valid_prefix(prefix)) by {
            reveal_strlit("_wifi_station_last_activity");
            reveal_strlit("primary_name");
            reveal_strlit("ipv4");
            reveal_strlit("ap_name");
            reveal_strlit("band");
            reveal_strlit("ap_id");
            reveal_strlit("mac");
            lemma_prefixed_name_valid(prefix, "_wifi_station_last_activity"@);
            let l = seq!["primary_name"@, "ipv4"@, "ap_name"@, "band"@, "ap_id"@, "mac"@];
            assert(valid_label_name(l[0]));
            assert(valid_label_name(l[1]));
            assert(valid_label_name(l[2]));
            assert(valid_label_name(l[3]));
            assert(valid_label_name(l[4]));
            assert(valid_label_name(l[5]));
            assert(l[0] != l[1]);
            assert(l[0] != l[2]);
            assert(l[0] != l[3]);
            assert(l[0] != l[4]);
            assert(l[0] != l[5]);
            assert(l[1] != l[2]);
            assert(l[1][0] != l[3][0]);
            assert(l[1] != l[3]);
            assert(l[1] != l[4]);
            assert(l[1] != l[5]);
            assert(l[2] != l[3]);
            assert(l[2] != l[4]);
            assert(l[2] != l[5]);
            assert(l[3] != l[4]);
            assert(l[3] != l[5]);
            assert(l[4] != l[5]);
        }
        assert(family_args_accepted(prefix + "_wifi_station_last_time_reachable"@, prefix + "_wifi_station_last_time_reachable"@, seq!["primary_name"@, "ipv4"@, "ap_name"@, "band"@, "ap_id"@, "mac"@]) == valid_prefix(prefix)) by {
            reveal_strlit("_wifi_station_last_time_reachable");
            reveal_strlit("primary_name");
            reveal_strlit("ipv4");
            reveal_strlit("ap_name");
            reveal_strlit("band");
            reveal_strlit("ap_id");
            reveal_strlit("mac");
            lemma_prefixed_name_valid(prefix, "_wifi_station_last_time_reachable"@);
            let l = seq!["primary_name"@, "ipv4"@, "ap_name"@, "band"@, "ap_id"@, "mac"@];
            assert(valid_label_name(l[0]));
            assert(valid_label_name(l[1]));
            assert(valid_label_name(l[2]));
            assert(valid_label_name(l[3]));
            assert(valid_label_name(l[4]));
            assert(valid_label_name(l[5]));
            assert(l[0] != l[1]);
            assert(l[0] != l[2]);
            assert(l[0] != l[3]);
            assert(l[0] != l[4]);
            assert(l[0] != l[5]);
            assert(l[1] != l[2]);
            assert(l[1][0] != l[3][0]);
            assert(l[1] != l[3]);
            assert(l[1] != l[4]);
            assert(l[1] != l[5]);
            assert(l[2] != l[3]);
            assert(l[2] != l[4]);
            assert(l[2] != l[5]);
            assert(l[3] != l[4]);
            assert(l[3] != l[5]);
            assert(l[4] != l[5]);
        }
        assert(family_args_accepted(prefix + "_wifi_neighbors_access_point"@, prefix + "_wifi_neighbors_access_point signal strength"@, seq!["channel"@, "ssid"@, "bssid"@, "band"@, "vht"@, "legacy"@, "he"@, "ht"@, "eht"@, "secondary_channel"@]) == valid_prefix(prefix)) by {
            reveal_strlit("_wifi_neighbors_access_point");
            reveal_strlit("_wifi_neighbors_access_point signal strength");
            reveal_strlit("channel");
            reveal_strlit("ssid");
            reveal_strlit("bssid");
            reveal_strlit("band");
            reveal_strlit("vht");
            reveal_strlit("legacy");
            reveal_strlit("he");
            reveal_strlit("ht");
            reveal_strlit("eht");
            reveal_strlit("secondary_channel");
            lemma_prefixed_name_valid(prefix, "_wifi_neighbors_access_point"@);
            let l = seq!["channel"@, "ssid"@, "bssid"@, "band"@, "vht"@, "legacy"@, "he"@, "ht"@, "eht"@, "secondary_channel"@];
            assert(valid_label_name(l[0]));
            assert(valid_label_name(l[1]));
            assert(valid_label_name(l[2]));
            assert(valid_label_name(l[3]));
            assert(valid_label_name(l[4]));
            assert(valid_label_name(l[5]));
            assert(valid_label_name(l[6]));
            assert(valid_label_name(l[7]));
            assert(valid_label_name(l[8]));
            assert(valid_label_name(l[9]));
            assert(l[0] != l[1]);
            assert(l[0] != l[2]);
            assert(l[0] != l[3]);
            assert(l[0] != l[4]);
            assert(l[0] != l[5]);
            assert(l[0] != l[6]);
            assert(l[0] != l[7]);
            assert(l[0] != l[8]);
            assert(l[0] != l[9]);
            assert(l[1] != l[2]);
            assert(l[1][0] != l[3][0]);
            assert(l[1] != l[3]);
            assert(l[1] != l[4]);
            assert(l[1] != l[5]);
            assert(l[1] != l[6]);
            assert(l[1] != l[7]);
            assert(l[1] != l[8]);
            assert(l[1] != l[9]);
            assert(l[2] != l[3]);
            assert(l[2] != l[4]);
            assert(l[2] != l[5]);
            assert(l[2] != l[6]);
            assert(l[2] != l[7]);
            assert(l[2] != l[8]);
            assert(l[2] != l[9]);
            assert(l[3] != l[4]);
            assert(l[3] != l[5]);
            assert(l[3] != l[6]);
            assert(l[3] != l[7]);
            assert(l[3] != l[8]);
            assert(l[3] != l[9]);
            assert(l[4] != l[5]);
            assert(l[4] != l[6]);
            assert(l[4] != l[7]);
            assert(l[4][0] != l[8][0]);
            assert(l[4] != l[8]);
            assert(l[4] != l[9]);
            assert(l[5] != l[6]);
            assert(l[5] != l[7]);
            assert(l[5] != l[8]);
            assert(l[5] != l[9]);
            assert(l[6][1] != l[7][1]);
            assert(l[6] != l[7]);
            assert(l[6] != l[8]);
            assert(l[6] != l[9]);
            assert(l[7] != l[8]);
            assert(l[7] != l[9]);
            assert(l[8] != l[9]);
        }
        assert(family_args_accepted(prefix + "_wifi_channel_usage"@, prefix + "_wifi_channel_usage noise level"@, seq!["band"@, "channel"@, "rx_busy_percent"@]) == valid_prefix(prefix)) by {
            reveal_strlit("_wifi_channel_usage");
            reveal_strlit("_wifi_channel_usage noise level");
            reveal_strlit("band");
            reveal_strlit("channel");
            reveal_strlit("rx_busy_percent");
            lemma_prefixed_name_valid(prefix, "_wifi_channel_usage"@);
            let l = seq!["band"@, "channel"@, "rx_busy_percent"@];
            assert(valid_label_name(l[0]));
            assert(valid_label_name(l[1]));
            assert(valid_label_name(l[2]));
            assert(l[0] != l[1]);
            assert(l[0] != l[2]);
            assert(l[1] != l[2]);
        }
    }

    /// Makes and registers every gauge of the map, named after `prefix`.
    pub fn new(prefix: String, history_ttl_ms: i64) -> (r: Result<Self, GaugeError>)
        ensures
            r matches Ok(m) ==> m.well_formed() && m.is_cleared() && m.named(prefix@) && m.history_ttl_ms == history_ttl_ms,
            r matches Err(e) ==> Self::is_metric_name(prefix@, gauge_error_name(e)),
            (r matches Err(e) && e is Creation) <==> !valid_prefix(prefix@),
            !valid_prefix(prefix@) ==> (r matches Err(e) && gauge_error_name(e) == prefix@ + "_wifi_busy_percent"@),
    {
        proof { Self::lemma_gauge_args(prefix@); }
        let busy_percent_gauge_labels = vec![String::from_str("ap"), String::from_str("name"), String::from_str("band")];
        proof { assert(label_view(busy_percent_gauge_labels@) =~= seq!["ap"@, "name"@, "band"@]); }
        let busy_percent_gauge = match make_family(concat(prefix.as_str(), "_wifi_busy_percent"), concat(prefix.as_str(), "_wifi_busy_percent"), busy_percent_gauge_labels) { Ok(g) => g, Err(e) => { return Err(e); } };
        let rx_bss_percent_labels = vec![String::from_str("ap"), String::from_str("name"), String::from_str("band")];
        proof { assert(label_view(rx_bss_percent_labels@) =~= seq!["ap"@, "name"@, "band"@]); }
        let rx_bss_percent = match make_family(concat(prefix.as_str(), "_wifi_rx_bss_percent"), concat(prefix.as_str(), "_wifi_rx_bss_percent"), rx_bss_percent_labels) { Ok(g) => g, Err(e) => { return Err(e); } };
        let rx_percent_gauge_labels = vec![String::from_str("ap"), String::from_str("name"), String::from_str("band")];
        proof { assert(label_view(rx_percent_gauge_labels@) =~= seq!["ap"@, "name"@, "band"@]); }
        let rx_percent_gauge = match make_family(concat(prefix.as_str(), "_wifi_rx_percent"), concat(prefix.as_str(), "_wifi_rx_percent"), rx_percent_gauge_labels) { Ok(g) => g, Err(e) => { return Err(e); } };
        let tx_percent_gauge_labels = vec![String::from_str("ap"), String::from_str("name"), String::from_str("band")];
        proof { assert(label_view(tx_percent_gauge_labels@) =~= seq!["ap"@, "name"@, "band"@]); }
        let tx_percent_gauge = match make_family(concat(prefix.as_str(), "_wifi_tx_percent"), concat(prefix.as_str(), "_wifi_tx_percent"), tx_percent_gauge_labels) { Ok(g) => g, Err(e) => { return Err(e); } };
        let station_active_gauge_labels = vec![String::from_str("primary_name"), String::from_str("ap_name"), String::from_str("band"), String::from_str("ap_id"), String::from_str("mac"), String::from_str("vendor_name")];
        proof { assert(label_view(station_active_gauge_labels@) =~= seq!["primary_name"@, "ap_name"@, "band"@, "ap_id"@, "mac"@, "vendor_name"@]); }
        let station_active_gauge = match make_family(concat(prefix.as_str(), "_wifi_station_active"), concat(prefix.as_str(), "_wifi_station_active 1 for active"), station_active_gauge_labels) { Ok(g) => g, Err(e) => { return Err(e); } };
        let station_rx_bitrate_gauge_labels = vec![String::from_str("primary_name"), String::from_str("ipv4"), String::from_str("ap_name"), String::from_str("band"), String::from_str("ap_id"), String::from_str("mac")];
        proof { assert(label_view(station_rx_bitrate_gauge_labels@) =~= seq!["primary_name"@, "ipv4"@, "ap_name"@, "band"@, "ap_id"@, "mac"@]); }
        let station_rx_bitrate_gauge = match make_family(concat(prefix.as_str(), "_wifi_station_rx_bitrate"), concat(prefix.as_str(), "_wifi_station_rx_bitrate"), station_rx_bitrate_gauge_labels) { Ok(g) => g, Err(e) => { return Err(e); } };
        let station_rx_mcs_gauge_labels = vec![String::from_str("primary_name"), String::from_str("ipv4"), String::from_str("ap_name"), String::from_str("band"), String::from_str("ap_id"), String::from_str("mac")];
        proof { assert(label_view(station_rx_mcs_gauge_labels@) =~= seq!["primary_name"@, "ipv4"@, "ap_name"@, "band"@, "ap_id"@, "mac"@]); }
        let station_rx_mcs_gauge = match make_family(concat(prefix.as_str(), "_wifi_station_rx_mcs"), concat(prefix.as_str(), "_wifi_station_rx_mcs"), station_rx_mcs_gauge_labels) { Ok(g) => g, Err(e) => { return Err(e); } };
        let station_rx_shortgi_gauge_labels = vec![String::from_str("primary_name"), String::from_str("ipv4"), String::from_str("ap_name"), String::from_str("band"), String::from_str("ap_id"), String::from_str("mac")];
        proof { assert(label_view(station_rx_shortgi_gauge_labels@) =~= seq!["primary_name"@, "ipv4"@, "ap_name"@, "band"@, "ap_id"@, "mac"@]); }
        let station_rx_shortgi_gauge = match make_family(concat(prefix.as_str(), "_wifi_station_rx_shortgi"), concat(prefix.as_str(), "_wifi_station_rx_shortgi 1 for shortgi enabled"), station_rx_shortgi_gauge_labels) { Ok(g) => g, Err(e) => { return Err(e); } };
        let station_rx_vht_mcs_gauge_labels = vec![String::from_str("primary_name"), String::from_str("ipv4"), String::from_str("ap_name"), String::from_str("band"), String::from_str("ap_id"), String::from_str("mac")];
        proof { assert(label_view(station_rx_vht_mcs_gauge_labels@) =~= seq!["primary_name"@, "ipv4"@, "ap_name"@, "band"@, "ap_id"@, "mac"@]); }
        let station_rx_vht_mcs_gauge = match make_family(concat(prefix.as_str(), "_wifi_station_rx_vht_mcs"), concat(prefix.as_str(), "_wifi_station_rx_vht_mcs"), station_rx_vht_mcs_gauge_labels) { Ok(g) => g, Err(e) => { return Err(e); } };
        let station_rx_width_gauge_labels = vec![String::from_str("primary_name"), String::from_str("ipv4"), String::from_str("ap_name"), String::from_str("band"), String::from_str("ap_id"), String::from_str("mac")];
        proof { assert(label_view(station_rx_width_gauge_labels@) =~= seq!["primary_name"@, "ipv4"@, "ap_name"@, "band"@, "ap_id"@, "mac"@]); }
        let station_rx_width_gauge = match make_family(concat(prefix.as_str(), "_wifi_station_rx_width"), concat(prefix.as_str(), "_wifi_station_rx_width"), station_rx_width_gauge_labels) { Ok(g) => g, Err(e) => { return Err(e); } };
        let station_rx_bytes_gauge_labels = vec![String::from_str("primary_name"), String::from_str("ipv4"), String::from_str("ap_name"), String::from_str("band"), String::from_str("ap_id"), String::from_str("mac")];
        proof { assert(label_view(station_rx_bytes_gauge_labels@) =~= seq!["primary_name"@, "ipv4"@, "ap_name"@, "band"@, "ap_id"@, "mac"@]); }
        let station_rx_bytes_gauge = match make_family(concat(prefix.as_str(), "_wifi_station_rx_bytes"), concat(prefix.as_str(), "_wifi_station_rx_bytes"), station_rx_bytes_gauge_labels) { Ok(g) => g, Err(e) => { return Err(e); } };
        let station_rx_rate_gauge_labels = vec![String::from_str("primary_name"), String::from_str("ipv4"), String::from_str("ap_name"), String::from_str("band"), String::from_str("ap_id"), String::from_str("mac")];
        proof { assert(label_view(station_rx_rate_gauge_labels@) =~= seq!["primary_name"@, "ipv4"@, "ap_name"@, "band"@, "ap_id"@, "mac"@]); }
        let station_rx_rate_gauge = match make_family(concat(prefix.as_str(), "_wifi_station_rx_rate"), concat(prefix.as_str(), "_wifi_station_rx_rate"), station_rx_rate_gauge_labels) { Ok(g) => g, Err(e) => { return Err(e); } };
        let station_tx_bitrate_gauge_labels = vec![String::from_str("primary_name"), String::from_str("ipv4"), String::from_str("ap_name"), String::from_str("band"), String::from_str("ap_id"), String::from_str("mac")];
        proof { assert(label_view(station_tx_bitrate_gauge_labels@) =~= seq!["primary_name"@, "ipv4"@, "ap_name"@, "band"@, "ap_id"@, "mac"@]); }
        let station_tx_bitrate_gauge = match make_family(concat(prefix.as_str(), "_wifi_station_tx_bitrate"), concat(prefix.as_str(), "_wifi_station_tx_bitrate"), station_tx_bitrate_gauge_labels) { Ok(g) => g, Err(e) => { return Err(e); } };
        let station_tx_mcs_gauge_labels = vec![String::from_str("primary_name"), String::from_str("ipv4"), String::from_str("ap_name"), String::from_str("band"), String::from_str("ap_id"), String::from_str("mac")];
        proof { assert(label_view(station_tx_mcs_gauge_labels@) =~= seq!["primary_name"@, "ipv4"@, "ap_name"@, "band"@, "ap_id"@, "mac"@]); }
        let station_tx_mcs_gauge = match make_family(concat(prefix.as_str(), "_wifi_station_tx_mcs"), concat(prefix.as_str(), "_wifi_station_tx_mcs"), station_tx_mcs_gauge_labels) { Ok(g) => g, Err(e) => { return Err(e); } };
        let station_tx_shortgi_gauge_labels = vec![String::from_str("primary_name"), String::from_str("ipv4"), String::from_str("ap_name"), String::from_str("band"), String::from_str("ap_id"), String::from_str("mac")];
        proof { assert(label_view(station_tx_shortgi_gauge_labels@) =~= seq!["primary_name"@, "ipv4"@, "ap_name"@, "band"@, "ap_id"@, "mac"@]); }
        let station_tx_shortgi_gauge = match make_family(concat(prefix.as_str(), "_wifi_station_tx_shortgi"), concat(prefix.as_str(), "_wifi_station_tx_shortgi 1 for shortgi enabled"), station_tx_shortgi_gauge_labels) { Ok(g) => g, Err(e) => { return Err(e); } };
        let station_tx_vht_mcs_gauge_labels = vec![String::from_str("primary_name"), String::from_str("ipv4"), String::from_str("ap_name"), String::from_str("band"), String::from_str("ap_id"), String::from_str("mac")];
        proof { assert(label_view(station_tx_vht_mcs_gauge_labels@) =~= seq!["primary_name"@, "ipv4"@, "ap_name"@, "band"@, "ap_id"@, "mac"@]); }
        let station_tx_vht_mcs_gauge = match make_family(concat(prefix.as_str(), "_wifi_station_tx_vht_mcs"), concat(prefix.as_str(), "_wifi_station_tx_vht_mcs"), station_tx_vht_mcs_gauge_labels) { Ok(g) => g, Err(e) => { return Err(e); } };
        let station_tx_width_gauge_labels = vec![String::from_str("primary_name"), String::from_str("ipv4"), String::from_str("ap_name"), String::from_str("band"), String::from_str("ap_id"), String::from_str("mac")];
        proof { assert(label_view(station_tx_width_gauge_labels@) =~= seq!["primary_name"@, "ipv4"@, "ap_name"@, "band"@, "ap_id"@, "mac"@]); }
        let station_tx_width_gauge = match make_family(concat(prefix.as_str(), "_wifi_station_tx_width"), concat(prefix.as_str(), "_wifi_station_tx_width"), station_tx_width_gauge_labels) { Ok(g) => g, Err(e) => { return Err(e); } };
        let station_tx_bytes_gauge_labels = vec![String::from_str("primary_name"), String::from_str("ipv4"), String::from_str("ap_name"), String::from_str("band"), String::from_str("ap_id"), String::from_str("mac")];
        proof { assert(label_view(station_tx_bytes_gauge_labels@) =~= seq!["primary_name"@, "ipv4"@, "ap_name"@, "band"@, "ap_id"@, "mac"@]); }
        let station_tx_bytes_gauge = match make_family(concat(prefix.as_str(), "_wifi_station_tx_bytes"), concat(prefix.as_str(), "_wifi_station_tx_bytes"), station_tx_bytes_gauge_labels) { Ok(g) => g, Err(e) => { return Err(e); } };
        let station_tx_rate_gauge_labels = vec![String::from_str("primary_name"), String::from_str("ipv4"), String::from_str("ap_name"), String::from_str("band"), String::from_str("ap_id"), String::from_str("mac")];
        proof { assert(label_view(station_tx_rate_gauge_labels@) =~= seq!["primary_name"@, "ipv4"@, "ap_name"@, "band"@, "ap_id"@, "mac"@]); }
        let station_tx_rate_gauge = match make_family(concat(prefix.as_str(), "_wifi_station_tx_rate"), concat(prefix.as_str(), "_wifi_station_tx_rate"), station_tx_rate_gauge_labels) { Ok(g) => g, Err(e) => { return Err(e); } };
        let station_signal_gauge_labels = vec![String::from_str("primary_name"), String::from_str("ipv4"), String::from_str("ap_name"), String::from_str("band"), String::from_str("ap_id"), String::from_str("mac")];
        proof { assert(label_view(station_signal_gauge_labels@) =~= seq!["primary_name"@, "ipv4"@, "ap_name"@, "band"@, "ap_id"@, "mac"@]); }
        let station_signal_gauge = match make_family(concat(prefix.as_str(), "_wifi_station_signal"), concat(prefix.as_str(), "_wifi_station_signal"), station_signal_gauge_labels) { Ok(g) => g, Err(e) => { return Err(e); } };
        let station_inactive_gauge_labels = vec![String::from_str("primary_name"), String::from_str("ipv4"), String::from_str("ap_name"), String::from_str("band"), String::from_str("ap_id"), String::from_str("mac")];
        proof { assert(label_view(station_inactive_gauge_labels@) =~= seq!["primary_name"@, "ipv4"@, "ap_name"@, "band"@, "ap_id"@, "mac"@]); }
        let station_inactive_gauge = match make_family(concat(prefix.as_str(), "_wifi_station_inactive"), concat(prefix.as_str(), "_wifi_station_inactive"), station_inactive_gauge_labels) { Ok(g) => g, Err(e) => { return Err(e); } };
        let station_state_gauge_labels = vec![String::from_str("primary_name"), String::from_str("ipv4"), String::from_str("ap_name"), String::from_str("band"), String::from_str("ap_id"), String::from_str("mac"), String::from_str("state")];
        proof { assert(label_view(station_state_gauge_labels@) =~= seq!["primary_name"@, "ipv4"@, "ap_name"@, "band"@, "ap_id"@, "mac"@, "state"@]); }
        let station_state_gauge = match make_family(concat(prefix.as_str(), "_wifi_station_state"), concat(prefix.as_str(), "_wifi_station_state"), station_state_gauge_labels) { Ok(g) => g, Err(e) => { return Err(e); } };
        let station_flags_gauge_labels = vec![String::from_str("primary_name"), String::from_str("ipv4"), String::from_str("ap_name"), String::from_str("band"), String::from_str("ap_id"), String::from_str("mac"), String::from_str("vht"), String::from_str("legacy"), String::from_str("authorized"), String::from_str("ht")];
        proof { assert(label_view(station_flags_gauge_labels@) =~= seq!["primary_name"@, "ipv4"@, "ap_name"@, "band"@, "ap_id"@, "mac"@, "vht"@, "legacy"@, "authorized"@, "ht"@]); }
        let station_flags_gauge = match make_family(concat(prefix.as_str(), "_wifi_station_flags"), concat(prefix.as_str(), "_wifi_station_flags"), station_flags_gauge_labels) { Ok(g) => g, Err(e) => { return Err(e); } };
        let station_last_activity_gauge_labels = vec![String::from_str("primary_name"), String::from_str("ipv4"), String::from_str("ap_name"), String::from_str("band"), String::from_str("ap_id"), String::from_str("mac")];
        proof { assert(label_view(station_last_activity_gauge_labels@) =~= seq!["primary_name"@, "ipv4"@, "ap_name"@, "band"@, "ap_id"@, "mac"@]); }
        let station_last_activity_gauge = match make_family(concat(prefix.as_str(), "_wifi_station_last_activity"), concat(prefix.as_str(), "_wifi_station_last_activity"), station_last_activity_gauge_labels) { Ok(g) => g, Err(e) => { return Err(e); } };
        let station_last_time_reachable_gauge_labels = vec![String::from_str("primary_name"), String::from_str("ipv4"), String::from_str("ap_name"), String::from_str("band"), String::from_str("ap_id"), String::from_str("mac")];
        proof { assert(label_view(station_last_time_reachable_gauge_labels@) =~= seq!["primary_name"@, "ipv4"@, "ap_name"@, "band"@, "ap_id"@, "mac"@]); }
        let station_last_time_reachable_gauge = match make_family(concat(prefix.as_str(), "_wifi_station_last_time_reachable"), concat(prefix.as_str(), "_wifi_station_last_time_reachable"), station_last_time_reachable_gauge_labels) { Ok(g) => g, Err(e) => { return Err(e); } };
        let neighbors_access_point_gauge_labels = vec![String::from_str("channel"), String::from_str("ssid"), String::from_str("bssid"), String::from_str("band"), String::from_str("vht"), String::from_str("legacy"), String::from_str("he"), String::from_str("ht"), String::from_str("eht"), String::from_str("secondary_channel")];
        proof { assert(label_view(neighbors_access_point_gauge_labels@) =~= seq!["channel"@, "ssid"@, "bssid"@, "band"@, "vht"@, "legacy"@, "he"@, "ht"@, "eht"@, "secondary_channel"@]); }
        let neighbors_access_point_gauge = match make_family(concat(prefix.as_str(), "_wifi_neighbors_access_point"), concat(prefix.as_str(), "_wifi_neighbors_access_point signal strength"), neighbors_access_point_gauge_labels) { Ok(g) => g, Err(e) => { return Err(e); } };
        let channel_usage_gauge_labels = vec![String::from_str("band"), String::from_str("channel"), String::from_str("rx_busy_percent")];
        proof { assert(label_view(channel_usage_gauge_labels@) =~= seq!["band"@, "channel"@, "rx_busy_percent"@]); }
        let channel_usage_gauge = match make_family(concat(prefix.as_str(), "_wifi_channel_usage"), concat(prefix.as_str(), "_wifi_channel_usage noise level"), channel_usage_gauge_labels) { Ok(g) => g, Err(e) => { return Err(e); } };
        Ok(WifiMetricMap { history_ttl_ms: history_ttl_ms, busy_percent_gauge, rx_bss_percent, rx_percent_gauge, tx_percent_gauge, station_active_gauge, station_rx_bitrate_gauge, station_rx_mcs_gauge, station_rx_shortgi_gauge, station_rx_vht_mcs_gauge, station_rx_width_gauge, station_rx_bytes_gauge, station_rx_rate_gauge, station_tx_bitrate_gauge, station_tx_mcs_gauge, station_tx_shortgi_gauge, station_tx_vht_mcs_gauge, station_tx_width_gauge, station_tx_bytes_gauge, station_tx_rate_gauge, station_signal_gauge, station_inactive_gauge, station_state_gauge, station_flags_gauge, station_last_activity_gauge, station_last_time_reachable_gauge, neighbors_access_point_gauge, channel_usage_gauge })
    }

    /// The metric names of the gauges, in declaration order.
    pub open spec fn names_of(&self) -> Seq<Seq<char>> {
        seq![family_name(self.busy_percent_gauge), family_name(self.rx_bss_percent), family_name(self.rx_percent_gauge), family_name(self.tx_percent_gauge), family_name(self.station_active_gauge), family_name(self.station_rx_bitrate_gauge), family_name(self.station_rx_mcs_gauge), family_name(self.station_rx_shortgi_gauge), family_name(self.station_rx_vht_mcs_gauge), family_name(self.station_rx_width_gauge), family_name(self.station_rx_bytes_gauge), family_name(self.station_rx_rate_gauge), family_name(self.station_tx_bitrate_gauge), family_name(self.station_tx_mcs_gauge), family_name(self.station_tx_shortgi_gauge), family_name(self.station_tx_vht_mcs_gauge), family_name(self.station_tx_width_gauge), family_name(self.station_tx_bytes_gauge), family_name(self.station_tx_rate_gauge), family_name(self.station_signal_gauge), family_name(self.station_inactive_gauge), family_name(self.station_state_gauge), family_name(self.station_flags_gauge), family_name(self.station_last_activity_gauge), family_name(self.station_last_time_reachable_gauge), family_name(self.neighbors_access_point_gauge), family_name(self.channel_usage_gauge)]
    }

    /// Drops every child of every family and puts every single gauge at 0.
    pub fn reset_all(&mut self)
        requires
            old(self).well_formed(),
        ensures
            final(self).well_formed(),
            final(self).is_cleared(),
            final(self).names_of() == old(self).names_of(),
            final(self).history_ttl_ms == old(self).history_ttl_ms,
    {
        family_reset(&mut self.busy_percent_gauge);
        family_reset(&mut self.rx_bss_percent);
        family_reset(&mut self.rx_percent_gauge);
        family_reset(&mut self.tx_percent_gauge);
        family_reset(&mut self.station_active_gauge);
        family_reset(&mut self.station_rx_bitrate_gauge);
        family_reset(&mut self.station_rx_mcs_gauge);
        family_reset(&mut self.station_rx_shortgi_gauge);
        family_reset(&mut self.station_rx_vht_mcs_gauge);
        family_reset(&mut self.station_rx_width_gauge);
        family_reset(&mut self.station_rx_bytes_gauge);
        family_reset(&mut self.station_rx_rate_gauge);
        family_reset(&mut self.station_tx_bitrate_gauge);
        family_reset(&mut self.station_tx_mcs_gauge);
        family_reset(&mut self.station_tx_shortgi_gauge);
        family_reset(&mut self.station_tx_vht_mcs_gauge);
        family_reset(&mut self.station_tx_width_gauge);
        family_reset(&mut self.station_tx_bytes_gauge);
        family_reset(&mut self.station_tx_rate_gauge);
        family_reset(&mut self.station_signal_gauge);
        family_reset(&mut self.station_inactive_gauge);
        family_reset(&mut self.station_state_gauge);
        family_reset(&mut self.station_flags_gauge);
        family_reset(&mut self.station_last_activity_gauge);
        family_reset(&mut self.station_last_time_reachable_gauge);
        family_reset(&mut self.neighbors_access_point_gauge);
        family_reset(&mut self.channel_usage_gauge);
    }

    /// The families other than the channel survey ones.
    pub open spec fn all_but_survey(&self) -> Seq<GaugeFamily> {
        seq![self.station_active_gauge, self.station_rx_bitrate_gauge, self.station_rx_mcs_gauge, self.station_rx_shortgi_gauge, self.station_rx_vht_mcs_gauge, self.station_rx_width_gauge, self.station_rx_bytes_gauge, self.station_rx_rate_gauge, self.station_tx_bitrate_gauge, self.station_tx_mcs_gauge, self.station_tx_shortgi_gauge, self.station_tx_vht_mcs_gauge, self.station_tx_width_gauge, self.station_tx_bytes_gauge, self.station_tx_rate_gauge, self.station_signal_gauge, self.station_inactive_gauge, self.station_state_gauge, self.station_flags_gauge, self.station_last_activity_gauge, self.station_last_time_reachable_gauge, self.neighbors_access_point_gauge, self.channel_usage_gauge]
    }

    /// The families other than the neighbour one.
    pub open spec fn all_but_neighbors(&self) -> Seq<GaugeFamily> {
        seq![self.busy_percent_gauge, self.rx_bss_percent, self.rx_percent_gauge, self.tx_percent_gauge, self.station_active_gauge, self.station_rx_bitrate_gauge, self.station_rx_mcs_gauge, self.station_rx_shortgi_gauge, self.station_rx_vht_mcs_gauge, self.station_rx_width_gauge, self.station_rx_bytes_gauge, self.station_rx_rate_gauge, self.station_tx_bitrate_gauge, self.station_tx_mcs_gauge, self.station_tx_shortgi_gauge, self.station_tx_vht_mcs_gauge, self.station_tx_width_gauge, self.station_tx_bytes_gauge, self.station_tx_rate_gauge, self.station_signal_gauge, self.station_inactive_gauge, self.station_state_gauge, self.station_flags_gauge, self.station_last_activity_gauge, self.station_last_time_reachable_gauge, self.channel_usage_gauge]
    }

    /// The families other than the channel usage one.
    pub open spec fn all_but_usage(&self) -> Seq<GaugeFamily> {
        seq![self.busy_percent_gauge, self.rx_bss_percent, self.rx_percent_gauge, self.tx_percent_gauge, self.station_active_gauge, self.station_rx_bitrate_gauge, self.station_rx_mcs_gauge, self.station_rx_shortgi_gauge, self.station_rx_vht_mcs_gauge, self.station_rx_width_gauge, self.station_rx_bytes_gauge, self.station_rx_rate_gauge, self.station_tx_bitrate_gauge, self.station_tx_mcs_gauge, self.station_tx_shortgi_gauge, self.station_tx_vht_mcs_gauge, self.station_tx_width_gauge, self.station_tx_bytes_gauge, self.station_tx_rate_gauge, self.station_signal_gauge, self.station_inactive_gauge, self.station_state_gauge, self.station_flags_gauge, self.station_last_activity_gauge, self.station_last_time_reachable_gauge, self.neighbors_access_point_gauge]
    }

    /// Writes the families of one station, reported at address `l3`.
    fn set_station(&mut self, s: &Station, ap: &AccessPoint, l3: &L3Connectivities)
        requires
            old(self).well_formed(),
            station_complete(*s),
            has_ipv4(*s),
            *l3 == best_ipv4(station_l3s(*s)).unwrap(),
            ap.config is Some,
        ensures
            final(self).well_formed(),
            final(self).names_of() == old(self).names_of(),
            final(self).history_ttl_ms == old(self).history_ttl_ms,
            final(self).station_active_gauge@ == station_active_step(old(self).station_active_gauge@, *s, *ap),
            final(self).station_rx_bitrate_gauge@ == station_rx_bitrate_step(old(self).station_rx_bitrate_gauge@, *s, *ap),
            final(self).station_rx_mcs_gauge@ == station_rx_mcs_step(old(self).station_rx_mcs_gauge@, *s, *ap),
            final(self).station_rx_shortgi_gauge@ == station_rx_shortgi_step(old(self).station_rx_shortgi_gauge@, *s, *ap),
            final(self).station_rx_vht_mcs_gauge@ == station_rx_vht_mcs_step(old(self).station_rx_vht_mcs_gauge@, *s, *ap),
            final(self).station_rx_width_gauge@ == station_rx_width_step(old(self).station_rx_width_gauge@, *s, *ap),
            final(self).station_rx_bytes_gauge@ == station_rx_bytes_step(old(self).station_rx_bytes_gauge@, *s, *ap),
            final(self).station_rx_rate_gauge@ == station_rx_rate_step(old(self).station_rx_rate_gauge@, *s, *ap),
            final(self).station_tx_bitrate_gauge@ == station_tx_bitrate_step(old(self).station_tx_bitrate_gauge@, *s, *ap),
            final(self).station_tx_mcs_gauge@ == station_tx_mcs_step(old(self).station_tx_mcs_gauge@, *s, *ap),
            final(self).station_tx_shortgi_gauge@ == station_tx_shortgi_step(old(self).station_tx_shortgi_gauge@, *s, *ap),
            final(self).station_tx_vht_mcs_gauge@ == station_tx_vht_mcs_step(old(self).station_tx_vht_mcs_gauge@, *s, *ap),
            final(self).station_tx_width_gauge@ == station_tx_width_step(old(self).station_tx_width_gauge@, *s, *ap),
            final(self).station_tx_bytes_gauge@ == station_tx_bytes_step(old(self).station_tx_bytes_gauge@, *s, *ap),
            final(self).station_tx_rate_gauge@ == station_tx_rate_step(old(self).station_tx_rate_gauge@, *s, *ap),
            final(self).station_signal_gauge@ == station_signal_step(old(self).station_signal_gauge@, *s, *ap),
            final(self).station_inactive_gauge@ == station_inactive_step(old(self).station_inactive_gauge@, *s, *ap),
            final(self).station_state_gauge@ == station_state_step(old(self).station_state_gauge@, *s, *ap),
            final(self).station_flags_gauge@ == station_flags_step(old(self).station_flags_gauge@, *s, *ap),
            final(self).station_last_activity_gauge@ == station_last_activity_step(old(self).station_last_activity_gauge@, *s, *ap),
            final(self).station_last_time_reachable_gauge@ == station_last_time_reachable_step(old(self).station_last_time_reachable_gauge@, *s, *ap),
            final(self).busy_percent_gauge == old(self).busy_percent_gauge,
            final(self).rx_bss_percent == old(self).rx_bss_percent,
            final(self).rx_percent_gauge == old(self).rx_percent_gauge,
            final(self).tx_percent_gauge == old(self).tx_percent_gauge,
            final(self).neighbors_access_point_gauge == old(self).neighbors_access_point_gauge,
            final(self).channel_usage_gauge == old(self).channel_usage_gauge,
    {
        let host = s.host.as_ref().unwrap();
        let flags = s.flags.as_ref().unwrap();
        let labels = station_label_values(s, ap, l3);
        let active_labels = labels6(text_or(&host.primary_name, "unknown"), text_or(&ap.name, "unknown"), text_or(&ap.config.as_ref().unwrap().band, "unknown"), ap_id_text(ap), text_or(&s.mac, "unknown"), text_or(&host.vendor_name, "unknown"));
        family_set(&mut self.station_active_gauge, &active_labels, flag_value(opt_bool_value(host.active)));
        set_link(&mut self.station_rx_bitrate_gauge, &mut self.station_rx_mcs_gauge, &mut self.station_rx_shortgi_gauge, &mut self.station_rx_vht_mcs_gauge, &mut self.station_rx_width_gauge, &labels, s.last_rx.as_ref().unwrap());
        set_link(&mut self.station_tx_bitrate_gauge, &mut self.station_tx_mcs_gauge, &mut self.station_tx_shortgi_gauge, &mut self.station_tx_vht_mcs_gauge, &mut self.station_tx_width_gauge, &labels, s.last_tx.as_ref().unwrap());
        family_set(&mut self.station_rx_bytes_gauge, &labels, counter_value(s.rx_bytes));
        family_set(&mut self.station_rx_rate_gauge, &labels, counter_value(s.rx_rate));
        family_set(&mut self.station_tx_bytes_gauge, &labels, counter_value(s.tx_bytes));
        family_set(&mut self.station_tx_rate_gauge, &labels, counter_value(s.tx_rate));
        family_set(&mut self.station_signal_gauge, &labels, signal_value(s.signal));
        family_set(&mut self.station_inactive_gauge, &labels, or_min_value(s.inactive));
        family_set(&mut self.station_state_gauge, &with_label(&labels, text_or(&s.state, "unknown")), 1);
        let mut flag_labels = with_label(&labels, bool_label(flags.vht));
        push_label(&mut flag_labels, bool_label(flags.legacy));
        push_label(&mut flag_labels, bool_label(flags.authorized));
        push_label(&mut flag_labels, bool_label(flags.ht));
        assert(label_view(flag_labels@) =~= station_labels(*s, *ap) + seq![bool_text(opt_bool(flags.vht)), bool_text(opt_bool(flags.legacy)), bool_text(opt_bool(flags.authorized)), bool_text(opt_bool(flags.ht))]);
        family_ensure(&mut self.station_flags_gauge, &flag_labels);
        family_set(&mut self.station_last_activity_gauge, &labels, or_min_value(host.last_activity));
        family_set(&mut self.station_last_time_reachable_gauge, &labels, or_min_value(host.last_time_reachable));
    }

    /// Writes the families of each station of an access point, in order. A station
    /// without an IPv4 address stops the run with an error naming its MAC; the stations
    /// before it are written.
    pub fn set_stations_gauges(&mut self, stations: &Vec<Station>, ap: &AccessPoint) -> (r: Result<(), FreeboxResponseError>)
        requires
            old(self).well_formed(),
            forall|i: int| 0 <= i < stations.len() && i <= stations_with_ipv4(stations@) ==> station_complete(#[trigger] stations@[i]),
            stations_with_ipv4(stations@) > 0 ==> ap.config is Some,
        ensures
            final(self).well_formed(),
            final(self).names_of() == old(self).names_of(),
            final(self).history_ttl_ms == old(self).history_ttl_ms,
            final(self).station_active_gauge@ == over_stations(old(self).station_active_gauge@, stations@.take(stations_with_ipv4(stations@) as int), |m: FamilyEntries, s: Station| station_active_step(m, s, *ap)),
            final(self).station_rx_bitrate_gauge@ == over_stations(old(self).station_rx_bitrate_gauge@, stations@.take(stations_with_ipv4(stations@) as int), |m: FamilyEntries, s: Station| station_rx_bitrate_step(m, s, *ap)),
            final(self).station_rx_mcs_gauge@ == over_stations(old(self).station_rx_mcs_gauge@, stations@.take(stations_with_ipv4(stations@) as int), |m: FamilyEntries, s: Station| station_rx_mcs_step(m, s, *ap)),
            final(self).station_rx_shortgi_gauge@ == over_stations(old(self).station_rx_shortgi_gauge@, stations@.take(stations_with_ipv4(stations@) as int), |m: FamilyEntries, s: Station| station_rx_shortgi_step(m, s, *ap)),
            final(self).station_rx_vht_mcs_gauge@ == over_stations(old(self).station_rx_vht_mcs_gauge@, stations@.take(stations_with_ipv4(stations@) as int), |m: FamilyEntries, s: Station| station_rx_vht_mcs_step(m, s, *ap)),
            final(self).station_rx_width_gauge@ == over_stations(old(self).station_rx_width_gauge@, stations@.take(stations_with_ipv4(stations@) as int), |m: FamilyEntries, s: Station| station_rx_width_step(m, s, *ap)),
            final(self).station_rx_bytes_gauge@ == over_stations(old(self).station_rx_bytes_gauge@, stations@.take(stations_with_ipv4(stations@) as int), |m: FamilyEntries, s: Station| station_rx_bytes_step(m, s, *ap)),
            final(self).station_rx_rate_gauge@ == over_stations(old(self).station_rx_rate_gauge@, stations@.take(stations_with_ipv4(stations@) as int), |m: FamilyEntries, s: Station| station_rx_rate_step(m, s, *ap)),
            final(self).station_tx_bitrate_gauge@ == over_stations(old(self).station_tx_bitrate_gauge@, stations@.take(stations_with_ipv4(stations@) as int), |m: FamilyEntries, s: Station| station_tx_bitrate_step(m, s, *ap)),
            final(self).station_tx_mcs_gauge@ == over_stations(old(self).station_tx_mcs_gauge@, stations@.take(stations_with_ipv4(stations@) as int), |m: FamilyEntries, s: Station| station_tx_mcs_step(m, s, *ap)),
            final(self).station_tx_shortgi_gauge@ == over_stations(old(self).station_tx_shortgi_gauge@, stations@.take(stations_with_ipv4(stations@) as int), |m: FamilyEntries, s: Station| station_tx_shortgi_step(m, s, *ap)),
            final(self).station_tx_vht_mcs_gauge@ == over_stations(old(self).station_tx_vht_mcs_gauge@, stations@.take(stations_with_ipv4(stations@) as int), |m: FamilyEntries, s: Station| station_tx_vht_mcs_step(m, s, *ap)),
            final(self).station_tx_width_gauge@ == over_stations(old(self).station_tx_width_gauge@, stations@.take(stations_with_ipv4(stations@) as int), |m: FamilyEntries, s: Station| station_tx_width_step(m, s, *ap)),
            final(self).station_tx_bytes_gauge@ == over_stations(old(self).station_tx_bytes_gauge@, stations@.take(stations_with_ipv4(stations@) as int), |m: FamilyEntries, s: Station| station_tx_bytes_step(m, s, *ap)),
            final(self).station_tx_rate_gauge@ == over_stations(old(self).station_tx_rate_gauge@, stations@.take(stations_with_ipv4(stations@) as int), |m: FamilyEntries, s: Station| station_tx_rate_step(m, s, *ap)),
            final(self).station_signal_gauge@ == over_stations(old(self).station_signal_gauge@, stations@.take(stations_with_ipv4(stations@) as int), |m: FamilyEntries, s: Station| station_signal_step(m, s, *ap)),
            final(self).station_inactive_gauge@ == over_stations(old(self).station_inactive_gauge@, stations@.take(stations_with_ipv4(stations@) as int), |m: FamilyEntries, s: Station| station_inactive_step(m, s, *ap)),
            final(self).station_state_gauge@ == over_stations(old(self).station_state_gauge@, stations@.take(stations_with_ipv4(stations@) as int), |m: FamilyEntries, s: Station| station_state_step(m, s, *ap)),
            final(self).station_flags_gauge@ == over_stations(old(self).station_flags_gauge@, stations@.take(stations_with_ipv4(stations@) as int), |m: FamilyEntries, s: Station| station_flags_step(m, s, *ap)),
            final(self).station_last_activity_gauge@ == over_stations(old(self).station_last_activity_gauge@, stations@.take(stations_with_ipv4(stations@) as int), |m: FamilyEntries, s: Station| station_last_activity_step(m, s, *ap)),
            final(self).station_last_time_reachable_gauge@ == over_stations(old(self).station_last_time_reachable_gauge@, stations@.take(stations_with_ipv4(stations@) as int), |m: FamilyEntries, s: Station| station_last_time_reachable_step(m, s, *ap)),
            final(self).busy_percent_gauge == old(self).busy_percent_gauge,
            final(self).rx_bss_percent == old(self).rx_bss_percent,
            final(self).rx_percent_gauge == old(self).rx_percent_gauge,
            final(self).tx_percent_gauge == old(self).tx_percent_gauge,
            final(self).neighbors_access_point_gauge == old(self).neighbors_access_point_gauge,
            final(self).channel_usage_gauge == old(self).channel_usage_gauge,
            r is Ok <==> stations_with_ipv4(stations@) == stations.len(),
            r matches Err(e) ==> e.reason@ == "no ipv4 address found for station "@ + opt_text(stations@[stations_with_ipv4(stations@) as int].mac),
    {
        proof {
            lemma_stations_with_ipv4_bounds(stations@);
        }
        let mut i: usize = 0;
        while i < stations.len()
            invariant
                i <= stations.len(),
                forall|j: int| 0 <= j < stations.len() && j <= stations_with_ipv4(stations@) ==> station_complete(#[trigger] stations@[j]),
                stations_with_ipv4(stations@) > 0 ==> ap.config is Some,
                forall|j: int| 0 <= j < i ==> has_ipv4(#[trigger] stations@[j]),
                stations_with_ipv4(stations@) <= stations.len(),
                forall|j: int| 0 <= j < stations_with_ipv4(stations@) ==> has_ipv4(#[trigger] stations@[j]),
                stations_with_ipv4(stations@) < stations.len() ==> !has_ipv4(stations@[stations_with_ipv4(stations@) as int]),
                i <= stations_with_ipv4(stations@),
                self.well_formed(),
                self.names_of() == old(self).names_of(),
                self.history_ttl_ms == old(self).history_ttl_ms,
                self.station_active_gauge@ == over_stations(old(self).station_active_gauge@, stations@.take(i as int), |m: FamilyEntries, s: Station| station_active_step(m, s, *ap)),
                self.station_rx_bitrate_gauge@ == over_stations(old(self).station_rx_bitrate_gauge@, stations@.take(i as int), |m: FamilyEntries, s: Station| station_rx_bitrate_step(m, s, *ap)),
                self.station_rx_mcs_gauge@ == over_stations(old(self).station_rx_mcs_gauge@, stations@.take(i as int), |m: FamilyEntries, s: Station| station_rx_mcs_step(m, s, *ap)),
                self.station_rx_shortgi_gauge@ == over_stations(old(self).station_rx_shortgi_gauge@, stations@.take(i as int), |m: FamilyEntries, s: Station| station_rx_shortgi_step(m, s, *ap)),
                self.station_rx_vht_mcs_gauge@ == over_stations(old(self).station_rx_vht_mcs_gauge@, stations@.take(i as int), |m: FamilyEntries, s: Station| station_rx_vht_mcs_step(m, s, *ap)),
                self.station_rx_width_gauge@ == over_stations(old(self).station_rx_width_gauge@, stations@.take(i as int), |m: FamilyEntries, s: Station| station_rx_width_step(m, s, *ap)),
                self.station_rx_bytes_gauge@ == over_stations(old(self).station_rx_bytes_gauge@, stations@.take(i as int), |m: FamilyEntries, s: Station| station_rx_bytes_step(m, s, *ap)),
                self.station_rx_rate_gauge@ == over_stations(old(self).station_rx_rate_gauge@, stations@.take(i as int), |m: FamilyEntries, s: Station| station_rx_rate_step(m, s, *ap)),
                self.station_tx_bitrate_gauge@ == over_stations(old(self).station_tx_bitrate_gauge@, stations@.take(i as int), |m: FamilyEntries, s: Station| station_tx_bitrate_step(m, s, *ap)),
                self.station_tx_mcs_gauge@ == over_stations(old(self).station_tx_mcs_gauge@, stations@.take(i as int), |m: FamilyEntries, s: Station| station_tx_mcs_step(m, s, *ap)),
                self.station_tx_shortgi_gauge@ == over_stations(old(self).station_tx_shortgi_gauge@, stations@.take(i as int), |m: FamilyEntries, s: Station| station_tx_shortgi_step(m, s, *ap)),
                self.station_tx_vht_mcs_gauge@ == over_stations(old(self).station_tx_vht_mcs_gauge@, stations@.take(i as int), |m: FamilyEntries, s: Station| station_tx_vht_mcs_step(m, s, *ap)),
                self.station_tx_width_gauge@ == over_stations(old(self).station_tx_width_gauge@, stations@.take(i as int), |m: FamilyEntries, s: Station| station_tx_width_step(m, s, *ap)),
                self.station_tx_bytes_gauge@ == over_stations(old(self).station_tx_bytes_gauge@, stations@.take(i as int), |m: FamilyEntries, s: Station| station_tx_bytes_step(m, s, *ap)),
                self.station_tx_rate_gauge@ == over_stations(old(self).station_tx_rate_gauge@, stations@.take(i as int), |m: FamilyEntries, s: Station| station_tx_rate_step(m, s, *ap)),
                self.station_signal_gauge@ == over_stations(old(self).station_signal_gauge@, stations@.take(i as int), |m: FamilyEntries, s: Station| station_signal_step(m, s, *ap)),
                self.station_inactive_gauge@ == over_stations(old(self).station_inactive_gauge@, stations@.take(i as int), |m: FamilyEntries, s: Station| station_inactive_step(m, s, *ap)),
                self.station_state_gauge@ == over_stations(old(self).station_state_gauge@, stations@.take(i as int), |m: FamilyEntries, s: Station| station_state_step(m, s, *ap)),
                self.station_flags_gauge@ == over_stations(old(self).station_flags_gauge@, stations@.take(i as int), |m: FamilyEntries, s: Station| station_flags_step(m, s, *ap)),
                self.station_last_activity_gauge@ == over_stations(old(self).station_last_activity_gauge@, stations@.take(i as int), |m: FamilyEntries, s: Station| station_last_activity_step(m, s, *ap)),
                self.station_last_time_reachable_gauge@ == over_stations(old(self).station_last_time_reachable_gauge@, stations@.take(i as int), |m: FamilyEntries, s: Station| station_last_time_reachable_step(m, s, *ap)),
                self.busy_percent_gauge == old(self).busy_percent_gauge,
                self.rx_bss_percent == old(self).rx_bss_percent,
                self.rx_percent_gauge == old(self).rx_percent_gauge,
                self.tx_percent_gauge == old(self).tx_percent_gauge,
                self.neighbors_access_point_gauge == old(self).neighbors_access_point_gauge,
                self.channel_usage_gauge == old(self).channel_usage_gauge,
            decreases stations.len() - i,
        {
            let s = &stations[i];
            let l3s = s.host.as_ref().unwrap().l3connectivities.as_ref().unwrap();
            match best_ipv4_index(l3s) {
                None => {
                    proof {
                        lemma_stations_with_ipv4(stations@, i as int);
                    }
                    let mac = text_or_default(&s.mac);
                    return Err(FreeboxResponseError::new(concat("no ipv4 address found for station ", mac.as_str())));
                },
                Some(k) => {
                    assert(stations@.take(i as int + 1).drop_last() =~= stations@.take(i as int));
                    self.set_station(s, ap, &l3s[k]);
                },
            }
            i = i + 1;
        }
        proof {
            lemma_stations_with_ipv4(stations@, stations.len() as int);
        }
        assert(stations@.take(stations.len() as int) =~= stations@);
        Ok(())
    }

    /// Writes one child per neighbouring access point, valued with its signal.
    pub fn set_neighbors_access_points(&mut self, neighbors: &Vec<NeighborsAccessPoint>) -> (r: Result<(), FreeboxResponseError>)
        requires
            old(self).well_formed(),
            forall|i: int| 0 <= i < neighbors.len() ==> (#[trigger] neighbors@[i]).capabilities is Some,
        ensures
            r is Ok,
            final(self).well_formed(),
            final(self).names_of() == old(self).names_of(),
            final(self).neighbors_access_point_gauge@ == put_neighbors(old(self).neighbors_access_point_gauge@, neighbors@),
            final(self).history_ttl_ms == old(self).history_ttl_ms,
            final(self).all_but_neighbors() == old(self).all_but_neighbors(),
    {
        let mut i: usize = 0;
        while i < neighbors.len()
            invariant
                i <= neighbors.len(),
                forall|j: int| 0 <= j < neighbors.len() ==> (#[trigger] neighbors@[j]).capabilities is Some,
                self.well_formed(),
                self.names_of() == old(self).names_of(),
                self.neighbors_access_point_gauge@ == put_neighbors(old(self).neighbors_access_point_gauge@, neighbors@.take(i as int)),
                self.history_ttl_ms == old(self).history_ttl_ms,
                self.all_but_neighbors() == old(self).all_but_neighbors(),
            decreases neighbors.len() - i,
        {
            let n = &neighbors[i];
            assert(neighbors@.take(i as int + 1).drop_last() =~= neighbors@.take(i as int));
            let c = n.capabilities.as_ref().unwrap();
            let mut labels = labels1(byte_text(n.channel));
            push_label(&mut labels, text_or(&n.ssid, "unknown"));
            push_label(&mut labels, text_or(&n.bssid, "unknown"));
            push_label(&mut labels, text_or(&n.band, "unknown"));
            push_label(&mut labels, bool_label(c.vht));
            push_label(&mut labels, bool_label(c.legacy));
            push_label(&mut labels, bool_label(c.he));
            push_label(&mut labels, bool_label(c.ht));
            push_label(&mut labels, bool_label(c.eht));
            push_label(&mut labels, byte_text(n.secondary_channel));
            assert(label_view(labels@) =~= neighbor_labels(*n));
            family_set(&mut self.neighbors_access_point_gauge, &labels, signal_value(n.signal));
            i = i + 1;
        }
        assert(neighbors@.take(neighbors.len() as int) =~= neighbors@);
        Ok(())
    }

    /// Writes one child per channel usage, valued with its noise level.
    pub fn set_channel_usage_gauges(&mut self, channel_usage: &Vec<ChannelUsage>) -> (r: Result<(), FreeboxResponseError>)
        requires
            old(self).well_formed(),
        ensures
            r is Ok,
            final(self).well_formed(),
            final(self).names_of() == old(self).names_of(),
            final(self).channel_usage_gauge@ == put_usages(old(self).channel_usage_gauge@, channel_usage@),
            final(self).history_ttl_ms == old(self).history_ttl_ms,
            final(self).all_but_usage() == old(self).all_but_usage(),
    {
        let mut i: usize = 0;
        while i < channel_usage.len()
            invariant
                i <= channel_usage.len(),
                self.well_formed(),
                self.names_of() == old(self).names_of(),
                self.channel_usage_gauge@ == put_usages(old(self).channel_usage_gauge@, channel_usage@.take(i as int)),
                self.history_ttl_ms == old(self).history_ttl_ms,
                self.all_but_usage() == old(self).all_but_usage(),
            decreases channel_usage.len() - i,
        {
            let u = &channel_usage[i];
            assert(channel_usage@.take(i as int + 1).drop_last() =~= channel_usage@.take(i as int));
            let labels = labels3(text_or(&u.band, "unknown"), byte_text(u.channel), byte_text(u.rx_busy_percent));
            family_set(&mut self.channel_usage_gauge, &labels, signal_value(u.noise_level));
            i = i + 1;
        }
        assert(channel_usage@.take(channel_usage.len() as int) =~= channel_usage@);
        Ok(())
    }

    /// Writes the channel survey of an access point: the average busy, transmit and
    /// receive percentages over the recent samples (one sample per 100 ms of the
    /// history span is kept). No samples at all changes nothing.
    pub fn set_channel_survey_history_gauges(&mut self, ap: &AccessPoint, histories: &Option<Vec<ChannelSurveyHistory>>)
        requires
            old(self).well_formed(),
            ap.id is Some,
            ap.config is Some,
            ap.config.unwrap().band is Some,
            0 <= old(self).history_ttl_ms,
            old(self).history_ttl_ms / 100 <= u32::MAX,
            histories matches Some(h) ==> {
                &&& h.len() <= MAX_SURVEY_SAMPLES
                &&& h.len() > 0 ==> samples_in(old(self).history_ttl_ms) > 0
                &&& h.len() > samples_in(old(self).history_ttl_ms) && h.len() >= 2
                    ==> forall|i: int| 0 <= i < h.len() ==> (#[trigger] h@[i]).timestamp is Some
            },
        ensures
            final(self).well_formed(),
            final(self).names_of() == old(self).names_of(),
            final(self).history_ttl_ms == old(self).history_ttl_ms,
            histories is None ==> *final(self) == *old(self),
            histories matches Some(h) ==> {
                let mr = samples_in(old(self).history_ttl_ms);
                &&& final(self).busy_percent_gauge@ == family_put(old(self).busy_percent_gauge@, survey_labels(*ap), survey_value(h@, mr, |x: ChannelSurveyHistory| busy_of(x)))
                &&& final(self).tx_percent_gauge@ == family_put(old(self).tx_percent_gauge@, survey_labels(*ap), survey_value(h@, mr, |x: ChannelSurveyHistory| tx_of(x)))
                &&& final(self).rx_bss_percent@ == family_put(old(self).rx_bss_percent@, survey_labels(*ap), survey_value(h@, mr, |x: ChannelSurveyHistory| rx_bss_of(x)))
                &&& final(self).rx_percent_gauge@ == family_put(old(self).rx_percent_gauge@, survey_labels(*ap), survey_value(h@, mr, |x: ChannelSurveyHistory| rx_of(x)))
                &&& final(self).all_but_survey() == old(self).all_but_survey()
            },
    {
        let h = match histories {
            Some(h) => h,
            None => return,
        };
        let max_range = (self.history_ttl_ms / 100) as usize;
        let recent = get_recent_channel_entries(h, max_range);
        proof {
            if h.len() > max_range {
                lemma_sort_len(h@);
            }
        }
        let avg = calculate_avg_channel_survey_history(&recent);
        proof {
            if h.len() == 0 {
                let z = recent@;
                assert(z.drop_last().len() == 0);
                assert(sum_pct(z.drop_last(), |x: ChannelSurveyHistory| busy_of(x)) == 0);
                assert(sum_pct(z.drop_last(), |x: ChannelSurveyHistory| tx_of(x)) == 0);
                assert(sum_pct(z.drop_last(), |x: ChannelSurveyHistory| rx_bss_of(x)) == 0);
                assert(sum_pct(z.drop_last(), |x: ChannelSurveyHistory| rx_of(x)) == 0);
            }
        }
        let ap_id = u64_to_decimal(ap.id.unwrap() as u64);
        let ap_name = text_or(&ap.name, "unknown");
        let band = ap.config.as_ref().unwrap().band.as_ref().unwrap().clone();
        let labels = labels3(ap_id, ap_name, band);
        family_set(&mut self.busy_percent_gauge, &labels, pct_value(avg.busy_percent));
        family_set(&mut self.tx_percent_gauge, &labels, pct_value(avg.tx_percent));
        family_set(&mut self.rx_bss_percent, &labels, pct_value(avg.rx_bss_percent));
        family_set(&mut self.rx_percent_gauge, &labels, pct_value(avg.rx_percent));
    }
}

/// An optional percentage as a gauge value, 0 when absent.
fn pct_value(o: Option<u8>) -> (v: i64)
    ensures
        v == pct(o) as i64,
{
    match o {
        Some(v) => v as i64,
        None => 0,
    }
}

/// The radios to ask for their access point when the box lists none: those the
/// configuration expects, in order; None when it expects none.
pub fn fallback_phy_ids(config: &WifiConfig) -> (r: Option<Vec<i16>>)
    requires
        config.expected_phys matches Some(v) ==> forall|i: int| 0 <= i < v.len() ==> (#[trigger] v@[i]).phy_id is Some,
    ensures
        config.expected_phys is None <==> r is None,
        config.expected_phys matches Some(v) ==> (r matches Some(ids) && ids.len() == v.len()
            && forall|i: int| 0 <= i < v.len() ==> ids@[i] == (#[trigger] v@[i]).phy_id.unwrap()),
{
    match &config.expected_phys {
        None => None,
        Some(phys) => {
            let mut ids: Vec<i16> = Vec::new();
            let mut i: usize = 0;
            while i < phys.len()
                invariant
                    i <= phys.len(),
                    forall|j: int| 0 <= j < phys.len() ==> (#[trigger] phys@[j]).phy_id is Some,
                    ids.len() == i,
                    forall|j: int| 0 <= j < i ==> ids@[j] == (#[trigger] phys@[j]).phy_id.unwrap(),
                decreases phys.len() - i,
            {
                ids.push(phys[i].phy_id.unwrap());
                i = i + 1;
            }
            Some(ids)
        },
    }
}

}
