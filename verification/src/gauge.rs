//! Prometheus gauges, as the metric maps use them.
//!
//! A single-valued gauge is prometheus' `IntGauge`; a labelled family of gauges is
//! prometheus' `IntGaugeVec`, held in [`GaugeFamily`]. Every item that calls into
//! prometheus is trusted; everything built on them is verified.
use prometheus_exporter::prometheus::{IntGauge, IntGaugeVec, Opts};
use vstd::prelude::*;

verus! {

/// prometheus' error type, carried through as it is.
#[verifier::external_type_specification]
#[verifier::external_body]
pub struct ExPrometheusError(prometheus_exporter::prometheus::Error);

/// A single-valued integer gauge (prometheus' `IntGauge`).
#[verifier::external_body]
pub struct Gauge {
    inner: IntGauge,
}

/// The value a single-valued gauge currently holds.
pub uninterp spec fn int_gauge_value(g: Gauge) -> i64;

/// The metric name a single-valued gauge was made with.
pub uninterp spec fn int_gauge_name(g: Gauge) -> Seq<char>;

/// The help text a single-valued gauge was made with.
pub uninterp spec fn int_gauge_help(g: Gauge) -> Seq<char>;

impl View for Gauge {
    type V = i64;

    open spec fn view(&self) -> i64 {
        int_gauge_value(*self)
    }
}

/// A labelled family of integer gauges (prometheus' `IntGaugeVec`).
///
/// Each child gauge is filed under a key computed from its label values; the
/// family keeps, per key, the label values the child was created with and its value.
#[verifier::external_body]
pub struct GaugeFamily {
    inner: IntGaugeVec,
}

/// Children of a family by key: the label values a child was created with, and its value.
pub type FamilyEntries = Map<u64, (Seq<Seq<char>>, i64)>;

/// The children of a family: key, then (label values at creation, current value).
pub uninterp spec fn family_entries(g: GaugeFamily) -> FamilyEntries;

/// How many label values each child of the family takes.
pub uninterp spec fn family_arity(g: GaugeFamily) -> nat;

/// The metric name the family was made with.
pub uninterp spec fn family_name(g: GaugeFamily) -> Seq<char>;

/// The help text the family was made with.
pub uninterp spec fn family_help(g: GaugeFamily) -> Seq<char>;

/// The label names the family was made with, in order.
pub uninterp spec fn family_label_names(g: GaugeFamily) -> Seq<Seq<char>>;

/// The starting state of the FNV-1a hash that prometheus keys children with.
pub const FNV_OFFSET_BASIS: u64 = 0xcbf29ce484222325;

/// The multiplier of the FNV-1a hash.
pub const FNV_PRIME: u64 = 0x100000001b3;

/// One FNV-1a step: mix a byte into the state, then multiply by the prime, wrapping.
pub open spec fn fnv_step(h: u64, b: u8) -> u64 {
    ((h ^ (b as u64)) * FNV_PRIME) as u64
}

/// The FNV-1a state after feeding `bytes`, first to last, from state `h`.
pub open spec fn fnv_fold(h: u64, bytes: Seq<u8>) -> u64
    decreases bytes.len(),
{
    if bytes.len() == 0 {
        h
    } else {
        fnv_fold(fnv_step(h, bytes[0]), bytes.drop_first())
    }
}

/// The key under which prometheus files the child for the given label values: the
/// FNV-1a hash of their UTF-8 bytes, fed one value after the other.
pub open spec fn label_key(labels: Seq<Seq<char>>) -> u64 {
    fnv_fold(FNV_OFFSET_BASIS, vstd::utf8::encode_utf8(labels.flatten()))
}

impl View for GaugeFamily {
    type V = FamilyEntries;

    open spec fn view(&self) -> FamilyEntries {
        family_entries(*self)
    }
}

/// The label values of a `Vec<String>`, as character sequences.
pub open spec fn label_view(v: Seq<String>) -> Seq<Seq<char>> {
    v.map_values(|s: String| s@)
}

/// What setting the child for `labels` to `v` does to the children of a family:
/// an existing child keeps its label values and takes the value, else a child is added.
pub open spec fn family_put(m: FamilyEntries, labels: Seq<Seq<char>>, v: i64) -> FamilyEntries {
    family_put_at(m, label_key(labels), labels, v)
}

/// [`family_put`] with the child's key given.
pub open spec fn family_put_at(m: FamilyEntries, k: u64, labels: Seq<Seq<char>>, v: i64) -> FamilyEntries {
    if m.dom().contains(k) {
        m.insert(k, (m[k].0, v))
    } else {
        m.insert(k, (labels, v))
    }
}

/// What looking up the child for `labels` does: it is created at 0 when absent.
pub open spec fn family_touch(m: FamilyEntries, labels: Seq<Seq<char>>) -> FamilyEntries {
    family_touch_at(m, label_key(labels), labels)
}

/// [`family_touch`] with the child's key given.
pub open spec fn family_touch_at(m: FamilyEntries, k: u64, labels: Seq<Seq<char>>) -> FamilyEntries {
    if m.dom().contains(k) {
        m
    } else {
        m.insert(k, (labels, 0))
    }
}

/// The value of the child that `labels` designates, if there is one.
pub open spec fn family_value(m: FamilyEntries, labels: Seq<Seq<char>>) -> Option<i64> {
    let k = label_key(labels);
    if m.dom().contains(k) { Some(m[k].1) } else { None }
}

/// A character that may start a label name: an ASCII letter or `_`.
pub open spec fn label_start_char(c: char) -> bool {
    ('a' <= c && c <= 'z') || ('A' <= c && c <= 'Z') || c == '_'
}

/// A valid label name: a letter or `_`, then letters, digits or `_`.
pub open spec fn valid_label_name(n: Seq<char>) -> bool {
    &&& n.len() > 0
    &&& label_start_char(n[0])
    &&& forall|i: int| 1 <= i < n.len() ==> label_start_char(#[trigger] n[i]) || ('0' <= n[i] && n[i] <= '9')
}

/// A valid metric name: as a label name, with `:` allowed anywhere too.
pub open spec fn valid_metric_name(n: Seq<char>) -> bool {
    &&& n.len() > 0
    &&& (label_start_char(n[0]) || n[0] == ':')
    &&& forall|i: int| 1 <= i < n.len() ==> label_start_char(#[trigger] n[i]) || n[i] == ':' || ('0' <= n[i] && n[i] <= '9')
}

/// A prefix that metric names may be built from: empty, or itself a valid metric name.
pub open spec fn valid_prefix(p: Seq<char>) -> bool {
    p.len() == 0 || valid_metric_name(p)
}

/// A name made of a prefix and a valid suffix that starts with `_` is valid exactly when
/// the prefix is one names may be built from.
pub proof fn lemma_prefixed_name_valid(prefix: Seq<char>, suffix: Seq<char>)
    requires
        valid_metric_name(suffix),
        suffix[0] == '_',
    ensures
        valid_metric_name(prefix + suffix) <==> valid_prefix(prefix),
{
    let n = prefix + suffix;
    if valid_prefix(prefix) {
        assert forall|i: int| 1 <= i < n.len() implies label_start_char(#[trigger] n[i]) || n[i] == ':' || ('0' <= n[i] && n[i] <= '9') by {
            if i < prefix.len() {
                assert(n[i] == prefix[i]);
            } else {
                assert(n[i] == suffix[i - prefix.len()]);
            }
        }
        if prefix.len() == 0 {
            assert(n[0] == suffix[0]);
        } else {
            assert(n[0] == prefix[0]);
        }
    }
    if valid_metric_name(n) && prefix.len() > 0 {
        assert(n[0] == prefix[0]);
        assert forall|i: int| 1 <= i < prefix.len() implies label_start_char(#[trigger] prefix[i]) || prefix[i] == ':' || ('0' <= prefix[i] && prefix[i] <= '9') by {
            assert(n[i] == prefix[i]);
        }
    }
}

/// What prometheus accepts for a new family: a non-empty help text, a valid metric
/// name, and valid label names, no two alike.
pub open spec fn family_args_accepted(name: Seq<char>, help: Seq<char>, label_names: Seq<Seq<char>>) -> bool {
    &&& help.len() > 0
    &&& valid_metric_name(name)
    &&& forall|i: int| 0 <= i < label_names.len() ==> valid_label_name(#[trigger] label_names[i])
    &&& forall|i: int, j: int| 0 <= i < j < label_names.len() ==> label_names[i] != label_names[j]
}

/// `GenericGauge::<AtomicI64>::new`: a new gauge named `name`, at 0. It is refused
/// exactly when the help text is empty or the name is not a valid metric name.
#[verifier::external_body]
fn int_gauge_new(name: &str, help: &str) -> (r: Result<Gauge, prometheus_exporter::prometheus::Error>)
    ensures
        r matches Ok(g) ==> int_gauge_value(g) == 0 && int_gauge_name(g) == name@ && int_gauge_help(g) == help@,
        r is Ok <==> family_args_accepted(name@, help@, Seq::empty()),
{
    IntGauge::new(name, help).map(|inner| Gauge { inner })
}

/// `prometheus::register` for a single gauge: adds a handle to the default registry.
/// The gauge itself is not changed.
#[verifier::external_body]
fn int_gauge_register(g: &Gauge) -> (r: Result<(), prometheus_exporter::prometheus::Error>) {
    prometheus_exporter::prometheus::register(Box::new(g.inner.clone()))
}

/// `GenericGauge::set`: the gauge now holds `v`.
#[verifier::external_body]
pub(crate) fn int_gauge_set(g: &mut Gauge, v: i64)
    ensures
        int_gauge_value(*final(g)) == v,
        int_gauge_name(*final(g)) == int_gauge_name(*old(g)),
        int_gauge_help(*final(g)) == int_gauge_help(*old(g)),
{
    g.inner.set(v)
}

/// `GenericGaugeVec::new`: a family named `name` whose children take one value per label name.
/// It starts with no children. It is refused exactly when the help text is empty, the
/// name is not a valid metric name, or a label name is invalid or given twice.
#[verifier::external_body]
fn family_new(name: &str, help: &str, label_names: &Vec<String>) -> (r: Result<GaugeFamily, prometheus_exporter::prometheus::Error>)
    ensures
        r matches Ok(f) ==> {
            &&& family_entries(f) == FamilyEntries::empty()
            &&& family_arity(f) == label_names.len()
            &&& family_name(f) == name@
            &&& family_help(f) == help@
            &&& family_label_names(f) == label_view(label_names@)
        },
        r is Ok <==> family_args_accepted(name@, help@, label_view(label_names@)),
{
    let names: Vec<&str> = label_names.iter().map(|s| s.as_str()).collect();
    IntGaugeVec::new(Opts::new(name, help), &names).map(|inner| GaugeFamily { inner })
}

/// `prometheus::register` for a family: adds a handle to the default registry.
/// The family itself is not changed.
#[verifier::external_body]
fn family_register(f: &GaugeFamily) -> (r: Result<(), prometheus_exporter::prometheus::Error>) {
    prometheus_exporter::prometheus::register(Box::new(f.inner.clone()))
}

/// `MetricVec::with_label_values` then `set`: the child for `labels` holds `v`.
#[verifier::external_body]
pub(crate) fn family_set(f: &mut GaugeFamily, labels: &Vec<String>, v: i64)
    requires
        labels.len() == family_arity(*old(f)),
    ensures
        family_entries(*final(f)) == family_put_at(family_entries(*old(f)), label_key(label_view(labels@)), label_view(labels@), v),
        family_arity(*final(f)) == family_arity(*old(f)),
        family_name(*final(f)) == family_name(*old(f)),
        family_help(*final(f)) == family_help(*old(f)),
        family_label_names(*final(f)) == family_label_names(*old(f)),
{
    let refs: Vec<&str> = labels.iter().map(|s| s.as_str()).collect();
    f.inner.with_label_values(&refs).set(v)
}

/// `MetricVec::with_label_values` alone: the child for `labels` exists afterwards.
#[verifier::external_body]
pub(crate) fn family_ensure(f: &mut GaugeFamily, labels: &Vec<String>)
    requires
        labels.len() == family_arity(*old(f)),
    ensures
        family_entries(*final(f)) == family_touch_at(family_entries(*old(f)), label_key(label_view(labels@)), label_view(labels@)),
        family_arity(*final(f)) == family_arity(*old(f)),
        family_name(*final(f)) == family_name(*old(f)),
        family_help(*final(f)) == family_help(*old(f)),
        family_label_names(*final(f)) == family_label_names(*old(f)),
{
    let refs: Vec<&str> = labels.iter().map(|s| s.as_str()).collect();
    f.inner.with_label_values(&refs);
}

/// `MetricVec::reset`: the family has no children afterwards.
#[verifier::external_body]
pub(crate) fn family_reset(f: &mut GaugeFamily)
    ensures
        family_entries(*final(f)) == FamilyEntries::empty(),
        family_arity(*final(f)) == family_arity(*old(f)),
        family_name(*final(f)) == family_name(*old(f)),
        family_help(*final(f)) == family_help(*old(f)),
        family_label_names(*final(f)) == family_label_names(*old(f)),
{
    f.inner.reset()
}

/// Why a gauge could not be made; each variant names the metric.
#[derive(Debug)]
pub enum GaugeError {
    /// Prometheus refused the name, help or label names.
    Creation(String),
    /// The default registry already holds a collector with that name.
    Registration(String),
}

/// The metric name an error carries.
pub open spec fn gauge_error_name(e: GaugeError) -> Seq<char> {
    match e {
        GaugeError::Creation(n) => n@,
        GaugeError::Registration(n) => n@,
    }
}

/// Makes a single-valued gauge named `name` and registers it with the default registry.
pub fn make_int_gauge(name: String, help: String) -> (r: Result<Gauge, GaugeError>)
    ensures
        r matches Ok(g) ==> int_gauge_value(g) == 0 && int_gauge_name(g) == name@ && int_gauge_help(g) == help@,
        r matches Err(e) ==> (e matches GaugeError::Creation(n) && n@ == name@)
            || (e matches GaugeError::Registration(n) && n@ == name@),
        (r matches Err(e) && e is Creation) <==> !family_args_accepted(name@, help@, Seq::empty()),
{
    match int_gauge_new(name.as_str(), help.as_str()) {
        Err(_) => Err(GaugeError::Creation(name)),
        Ok(g) => match int_gauge_register(&g) {
            Err(_) => Err(GaugeError::Registration(name)),
            Ok(()) => Ok(g),
        },
    }
}

/// Makes a family named `name` with the given label names and registers it with the
/// default registry.
pub fn make_family(name: String, help: String, label_names: Vec<String>) -> (r: Result<GaugeFamily, GaugeError>)
    ensures
        r matches Ok(f) ==> {
            &&& f@ == FamilyEntries::empty()
            &&& family_arity(f) == label_names.len()
            &&& family_name(f) == name@
            &&& family_help(f) == help@
            &&& family_label_names(f) == label_view(label_names@)
        },
        r matches Err(e) ==> (e matches GaugeError::Creation(n) && n@ == name@)
            || (e matches GaugeError::Registration(n) && n@ == name@),
        (r matches Err(e) && e is Creation) <==> !family_args_accepted(name@, help@, label_view(label_names@)),
{
    match family_new(name.as_str(), help.as_str(), &label_names) {
        Err(_) => Err(GaugeError::Creation(name)),
        Ok(f) => match family_register(&f) {
            Err(_) => Err(GaugeError::Registration(name)),
            Ok(()) => Ok(f),
        },
    }
}

/// Reading the child that was just set gives back the value that was set.
pub proof fn lemma_family_put_then_value(m: FamilyEntries, labels: Seq<Seq<char>>, v: i64)
    ensures
        family_value(family_put(m, labels, v), labels) == Some(v),
{
}


/// Setting one child leaves every child filed under another key as it was.
pub proof fn lemma_family_put_keeps_others(m: FamilyEntries, labels: Seq<Seq<char>>, v: i64, other: Seq<Seq<char>>)
    requires
        label_key(labels) != label_key(other),
    ensures
        family_value(family_put(m, labels, v), other) == family_value(m, other),
{
}

/// Two different bytes fed to a fresh hash give different states.
proof fn lemma_fnv_first_byte_injective(x: u8, y: u8)
    by (bit_vector)
    requires
        x != y,
    ensures
        ((0xcbf29ce484222325u64 ^ (x as u64)) * 0x100000001b3u64) as u64
            != ((0xcbf29ce484222325u64 ^ (y as u64)) * 0x100000001b3u64) as u64,
{
}

/// Two different one-character ASCII label values are filed under different keys, so
/// their children are distinct.
pub proof fn lemma_one_ascii_char_labels_have_distinct_keys(a: Seq<char>, b: Seq<char>)
    requires
        a.len() == 1,
        b.len() == 1,
        a != b,
        (a[0] as u32) < 0x80,
        (b[0] as u32) < 0x80,
    ensures
        label_key(seq![a]) != label_key(seq![b]),
{
    reveal_with_fuel(Seq::flatten, 2);
    assert(seq![a].flatten() =~= a);
    assert(seq![b].flatten() =~= b);
    assert(a =~= seq![a[0]]);
    assert(b =~= seq![b[0]]);
    assert(a[0] != b[0]);
    let x: u32 = a[0] as u32;
    let y: u32 = b[0] as u32;
    vstd::utf8::char_u32_cast(a[0], x);
    vstd::utf8::char_u32_cast(b[0], y);
    assert(x != y);
    reveal_with_fuel(vstd::utf8::encode_utf8, 2);
    let bx = vstd::utf8::encode_utf8(a);
    let by = vstd::utf8::encode_utf8(b);
    assert(bx.drop_first() =~= Seq::<u8>::empty());
    assert(by.drop_first() =~= Seq::<u8>::empty());
    let cx: u8 = (x & 0x7F) as u8;
    let cy: u8 = (y & 0x7F) as u8;
    assert(x < 0x80 && y < 0x80 && x != y ==> (x & 0x7F) as u8 != (y & 0x7F) as u8) by (bit_vector);
    assert(bx[0] == cx);
    assert(by[0] == cy);
    reveal_with_fuel(fnv_fold, 2);
    lemma_fnv_first_byte_injective(cx, cy);
}

/// A family cleared by a reset has no child to read.
pub proof fn lemma_cleared_family_is_empty(labels: Seq<Seq<char>>)
    ensures
        family_value(FamilyEntries::empty(), labels) is None,
{
}

}
