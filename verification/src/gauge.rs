//! The gauges that the collectors publish through: `prometheus` integer
//! gauges, with contracts over what they hold.
//!
//! Nothing in this module is proved. Each contract states what the source of
//! `prometheus` shows of the call that the body makes.

use vstd::prelude::*;
use crate::series::{exact_reading, exact_readings, no_children, record, texts, Sample};

verus! {

/// A family of integer gauges that share a name and differ in their label
/// values: `prometheus::IntGaugeVec`.
#[verifier::external_body]
pub struct GaugeVec {
    inner: prometheus::IntGaugeVec,
}

/// A single integer gauge without labels: `prometheus::IntGauge`.
#[verifier::external_body]
pub struct Gauge {
    inner: prometheus::IntGauge,
}

/// `prometheus::proto::MetricFamily`: the state of one gauge or gauge vector
/// at the time it was asked for.
#[verifier::external_type_specification]
#[verifier::external_body]
pub struct ExMetricFamily(prometheus::proto::MetricFamily);

/// `prometheus::core::Desc`: the name, help text and label names of a metric.
#[verifier::external_type_specification]
#[verifier::external_body]
pub struct ExDesc(prometheus::core::Desc);

/// The key under which a gauge vector files the series with these label
/// values: the 64-bit FNV-1a hash of the bytes of the values, one after the
/// other, as `MetricVec` computes it before it looks a series up.
pub uninterp spec fn label_hash(values: Seq<Seq<char>>) -> u64;

/// The series that a gauge vector holds, each under the key it is filed under.
pub uninterp spec fn vec_children(gauges: GaugeVec) -> Map<u64, Sample>;

/// The name that a gauge vector was made with.
pub uninterp spec fn vec_name(gauges: GaugeVec) -> Seq<char>;

/// The help text that a gauge vector was made with.
pub uninterp spec fn vec_help(gauges: GaugeVec) -> Seq<char>;

/// The label names that a gauge vector was made with, in the order given.
pub uninterp spec fn vec_label_names(gauges: GaugeVec) -> Seq<Seq<char>>;

/// The value that a gauge holds.
pub uninterp spec fn gauge_value(gauge: Gauge) -> int;

/// The name that a gauge was made with.
pub uninterp spec fn gauge_name(gauge: Gauge) -> Seq<char>;

/// The help text that a gauge was made with.
pub uninterp spec fn gauge_help(gauge: Gauge) -> Seq<char>;

/// The name of a metric family.
pub uninterp spec fn family_name(family: prometheus::proto::MetricFamily) -> Seq<char>;

/// The help text of a metric family.
pub uninterp spec fn family_help(family: prometheus::proto::MetricFamily) -> Seq<char>;

/// Whether the type of a metric family is `GAUGE`.
pub uninterp spec fn family_is_gauge(family: prometheus::proto::MetricFamily) -> bool;

/// The samples of a metric family: of each, the values of the labels named,
/// in that order, and the reading, a whole number.
pub uninterp spec fn family_samples(
    family: prometheus::proto::MetricFamily,
    label_names: Seq<Seq<char>>,
) -> Set<Sample>;

/// The fully qualified name in a descriptor.
pub uninterp spec fn desc_name(desc: prometheus::core::Desc) -> Seq<char>;

/// The help text in a descriptor.
pub uninterp spec fn desc_help(desc: prometheus::core::Desc) -> Seq<char>;

/// The names of the variable labels in a descriptor.
pub uninterp spec fn desc_label_names(desc: prometheus::core::Desc) -> Seq<Seq<char>>;

/// A letter or an underscore.
pub open spec fn is_name_start(c: char) -> bool {
    ('a' <= c && c <= 'z') || ('A' <= c && c <= 'Z') || c == '_'
}

/// A letter, a digit or an underscore.
pub open spec fn is_name_char(c: char) -> bool {
    is_name_start(c) || ('0' <= c && c <= '9')
}

/// A name that the registry takes for a metric and for a label: not empty,
/// letters, digits and underscores, no digit in front.
pub open spec fn is_identifier(name: Seq<char>) -> bool {
    &&& name.len() > 0
    &&& is_name_start(name[0])
    &&& forall|i: int| 0 <= i < name.len() ==> is_name_char(#[trigger] name[i])
}

/// The texts of a list of string slices.
pub open spec fn names_of(names: Seq<&'static str>) -> Seq<Seq<char>> {
    names.map_values(|s: &'static str| s@)
}

/// The one sample of a gauge without labels.
pub open spec fn lone_sample(value: int) -> Set<Sample> {
    set![Sample { labels: Seq::empty(), value: value }]
}

impl GaugeVec {
    /// `IntGaugeVec::new` on `Opts::new(name, help)` and the label names.
    /// The call fails on an empty help text, on a name or a label name that
    /// is no identifier, and on a label name given twice; the contract leaves
    /// those out. The vector starts without series and keeps the name, the
    /// help text and the label names as given.
    #[verifier::external_body]
    pub(crate) fn create(
        name: &'static str,
        help: &'static str,
        label_names: &Vec<&'static str>,
    ) -> (gauges: GaugeVec)
        requires
            is_identifier(name@),
            help@.len() > 0,
            forall|i: int|
                0 <= i < label_names@.len() ==> is_identifier(#[trigger] label_names@[i]@),
            names_of(label_names@).no_duplicates(),
        ensures
            vec_children(gauges) == no_children(),
            vec_name(gauges) == name@,
            vec_help(gauges) == help@,
            vec_label_names(gauges) == names_of(label_names@),
    {
        let opts = prometheus::Opts::new(name, help);
        GaugeVec { inner: prometheus::IntGaugeVec::new(opts, label_names.as_slice()).unwrap() }
    }

    /// `MetricVec::reset`: every series leaves. The descriptor stays.
    #[verifier::external_body]
    pub(crate) fn reset(&mut self)
        ensures
            vec_children(*final(self)) == no_children(),
            vec_name(*final(self)) == vec_name(*old(self)),
            vec_help(*final(self)) == vec_help(*old(self)),
            vec_label_names(*final(self)) == vec_label_names(*old(self)),
    {
        self.inner.reset();
    }

    /// `MetricVec::with_label_values`, then `GenericGauge::set` on the series
    /// it hands out. The first panics unless there are as many values as
    /// label names. It looks the series up by the hash of the values alone:
    /// one that is found keeps its labels and takes the value, one that is
    /// not found is created with these labels.
    #[verifier::external_body]
    pub(crate) fn set(&mut self, labels: &Vec<String>, value: i64)
        requires
            labels@.len() == vec_label_names(*old(self)).len(),
        ensures
            vec_children(*final(self)) == record(
                vec_children(*old(self)),
                (Sample { labels: texts(labels@), value: value as int }),
            ),
            vec_children(*final(self)).dom().contains(label_hash(texts(labels@))),
            vec_name(*final(self)) == vec_name(*old(self)),
            vec_help(*final(self)) == vec_help(*old(self)),
            vec_label_names(*final(self)) == vec_label_names(*old(self)),
    {
        self.inner.with_label_values(labels.as_slice()).set(value);
    }

    /// `Collector::collect` of the vector: one family of type `GAUGE` under
    /// the vector's name and help text, with one sample for each series. A
    /// reading is stored there as a 64-bit float, so the samples are the
    /// series where every value is small enough to be stored exactly.
    #[verifier::external_body]
    pub(crate) fn families(&self) -> (families: Vec<prometheus::proto::MetricFamily>)
        ensures
            families@.len() == 1,
            family_name(families@[0]) == vec_name(*self),
            family_help(families@[0]) == vec_help(*self),
            family_is_gauge(families@[0]),
            exact_readings(vec_children(*self)) ==> family_samples(
                families@[0],
                vec_label_names(*self),
            ) == vec_children(*self).values(),
    {
        prometheus::core::Collector::collect(&self.inner)
    }

    /// `Collector::desc` of the vector: its one descriptor.
    #[verifier::external_body]
    pub(crate) fn descs<'a>(&'a self) -> (descs: Vec<&'a prometheus::core::Desc>)
        ensures
            descs@.len() == 1,
            desc_name(*descs@[0]) == vec_name(*self),
            desc_help(*descs@[0]) == vec_help(*self),
            desc_label_names(*descs@[0]) == vec_label_names(*self),
    {
        prometheus::core::Collector::desc(&self.inner)
    }
}

impl Gauge {
    /// `IntGauge::with_opts` on `Opts::new(name, help)`. The call fails on an
    /// empty help text and on a name that is no identifier; the contract
    /// leaves those out. The gauge starts at zero and keeps the name and the
    /// help text as given.
    #[verifier::external_body]
    pub(crate) fn create(name: &'static str, help: &'static str) -> (gauge: Gauge)
        requires
            is_identifier(name@),
            help@.len() > 0,
        ensures
            gauge_value(gauge) == 0,
            gauge_name(gauge) == name@,
            gauge_help(gauge) == help@,
    {
        let opts = prometheus::Opts::new(name, help);
        Gauge { inner: prometheus::IntGauge::with_opts(opts).unwrap() }
    }

    /// `GenericGauge::set`. The descriptor stays.
    #[verifier::external_body]
    pub(crate) fn set(&mut self, value: i64)
        ensures
            gauge_value(*final(self)) == value,
            gauge_name(*final(self)) == gauge_name(*old(self)),
            gauge_help(*final(self)) == gauge_help(*old(self)),
    {
        self.inner.set(value);
    }

    /// `Collector::collect` of the gauge: one family of type `GAUGE` under
    /// the gauge's name and help text, with one sample without labels. The
    /// reading is stored there as a 64-bit float, so the sample has the
    /// gauge's value where that is small enough to be stored exactly.
    #[verifier::external_body]
    pub(crate) fn families(&self) -> (families: Vec<prometheus::proto::MetricFamily>)
        ensures
            families@.len() == 1,
            family_name(families@[0]) == gauge_name(*self),
            family_help(families@[0]) == gauge_help(*self),
            family_is_gauge(families@[0]),
            exact_reading(gauge_value(*self)) ==> family_samples(families@[0], Seq::empty())
                == lone_sample(gauge_value(*self)),
    {
        prometheus::core::Collector::collect(&self.inner)
    }

    /// `Collector::desc` of the gauge: its one descriptor, without variable
    /// labels.
    #[verifier::external_body]
    pub(crate) fn descs<'a>(&'a self) -> (descs: Vec<&'a prometheus::core::Desc>)
        ensures
            descs@.len() == 1,
            desc_name(*descs@[0]) == gauge_name(*self),
            desc_help(*descs@[0]) == gauge_help(*self),
            desc_label_names(*descs@[0]).len() == 0,
    {
        prometheus::core::Collector::desc(&self.inner)
    }
}

} // verus!
