//! One scrape of one gauge vector: clear, then write what the rows give.

use vstd::prelude::*;
use crate::gauge::{
    family_help, family_is_gauge, family_name, family_samples, lone_sample, vec_children,
    vec_help, vec_label_names, vec_name, GaugeVec,
};
use crate::series::{
    exact_reading, lemma_published_from_samples, published, samples_of, Sample, Series,
};

verus! {

/// Why a scrape has no rows to work on.
#[derive(Clone, Copy, Debug, PartialEq, Eq, Structural)]
pub enum FetchError {
    /// No connection could be had from the pool, or the one handed out
    /// failed its check.
    Connection,
    /// The query failed.
    Query,
}

/// What a metric is made with and described by: its name, its help text and
/// the names of its labels, in the order of the label values. A gauge
/// without labels has none.
pub struct Described {
    pub name: Seq<char>,
    pub help: Seq<char>,
    pub label_names: Seq<Seq<char>>,
}

/// The series of a gauge vector after a scrape: those of the rows fetched, or,
/// where there are none, what it held before.
pub open spec fn after_scrape(before: Map<u64, Sample>, fetched: Option<Seq<Sample>>) -> Map<
    u64,
    Sample,
> {
    match fetched {
        Some(samples) => published(samples),
        None => before,
    }
}

/// A scrape that fetched rows forgets what the vector held before: the series
/// afterwards are the same whatever was there.
pub proof fn lemma_scrape_forgets(
    before: Map<u64, Sample>,
    other: Map<u64, Sample>,
    samples: Seq<Sample>,
)
    ensures
        after_scrape(before, Some(samples)) == after_scrape(other, Some(samples)),
{
}

/// A scrape that fetched no rows leaves what the vector held.
pub proof fn lemma_failed_scrape_keeps(before: Map<u64, Sample>)
    ensures
        after_scrape(before, None) == before,
{
}

/// Labels that none of the rows fetched gives are on no series after the
/// scrape, whatever the vector held before: a row that is gone leaves nothing
/// behind.
pub proof fn lemma_row_that_is_gone_has_no_series(
    before: Map<u64, Sample>,
    samples: Seq<Sample>,
    labels: Seq<Seq<char>>,
)
    requires
        forall|i: int| 0 <= i < samples.len() ==> (#[trigger] samples[i]).labels != labels,
    ensures
        forall|key: u64| #[trigger]
            after_scrape(before, Some(samples)).dom().contains(key) ==> after_scrape(
                before,
                Some(samples),
            )[key].labels != labels,
{
    lemma_published_from_samples(samples);
    assert forall|key: u64| #[trigger] published(samples).dom().contains(key) implies published(
        samples,
    )[key].labels != labels by {
        let i = choose|i: int|
            0 <= i < samples.len() && #[trigger] samples[i].labels == published(
                samples,
            )[key].labels;
        assert(samples[i].labels != labels);
    }
}

/// The family is a gauge, carries the name and the help text, and shows
/// exactly the series.
pub open spec fn shows_series(
    family: prometheus::proto::MetricFamily,
    name: Seq<char>,
    help: Seq<char>,
    label_names: Seq<Seq<char>>,
    children: Map<u64, Sample>,
) -> bool {
    &&& family_is_gauge(family)
    &&& family_name(family) == name
    &&& family_help(family) == help
    &&& family_samples(family, label_names) == children.values()
}

/// The family is a gauge, carries the name and the help text, and shows the
/// one value. A value too large for a 64-bit float to hold exactly is shown
/// rounded.
pub open spec fn shows_value(
    family: prometheus::proto::MetricFamily,
    name: Seq<char>,
    help: Seq<char>,
    value: int,
) -> bool {
    &&& family_is_gauge(family)
    &&& family_name(family) == name
    &&& family_help(family) == help
    &&& exact_reading(value) ==> family_samples(family, Seq::empty()) == lone_sample(value)
}

/// What one family of a result is expected to show.
pub enum Shown {
    /// The series of a gauge vector.
    Series {
        name: Seq<char>,
        help: Seq<char>,
        label_names: Seq<Seq<char>>,
        children: Map<u64, Sample>,
    },
    /// The value of a gauge without labels.
    Value { name: Seq<char>, help: Seq<char>, value: int },
}

/// The family shows what is expected of it.
pub open spec fn shows(family: prometheus::proto::MetricFamily, shown: Shown) -> bool {
    match shown {
        Shown::Series { name, help, label_names, children } => shows_series(
            family,
            name,
            help,
            label_names,
            children,
        ),
        Shown::Value { name, help, value } => shows_value(family, name, help, value),
    }
}

/// The families are as many as expected and show, one by one and in this
/// order, what is expected.
pub open spec fn all_shown(
    families: Seq<prometheus::proto::MetricFamily>,
    shown: Seq<Shown>,
) -> bool {
    &&& families.len() == shown.len()
    &&& forall|i: int| 0 <= i < families.len() ==> shows(#[trigger] families[i], shown[i])
}

/// Families that show what is expected, followed by more that do, show it
/// all in turn.
pub proof fn lemma_shown_in_turn(
    families: Seq<prometheus::proto::MetricFamily>,
    shown: Seq<Shown>,
    more_families: Seq<prometheus::proto::MetricFamily>,
    more_shown: Seq<Shown>,
)
    requires
        all_shown(families, shown),
        all_shown(more_families, more_shown),
    ensures
        all_shown(families + more_families, shown + more_shown),
{
    let all = families + more_families;
    assert forall|i: int| 0 <= i < all.len() implies shows(
        #[trigger] all[i],
        (shown + more_shown)[i],
    ) by {
        if i < families.len() {
            assert(all[i] == families[i]);
        } else {
            assert(all[i] == more_families[i - families.len()]);
        }
    }
}

/// The number of rows as a gauge holds it.
pub open spec fn row_count(rows: nat) -> int {
    if rows <= i64::MAX {
        rows as int
    } else {
        i64::MAX as int
    }
}

/// The number of rows as a gauge holds it: the length, or the largest value
/// of a gauge where the length is beyond it.
pub fn count_value(rows: usize) -> (value: i64)
    ensures
        value == row_count(rows as nat),
{
    let wide = rows as u64;
    if wide <= i64::MAX as u64 {
        wide as i64
    } else {
        i64::MAX
    }
}

/// Every series has as many label values as the vector has label names.
pub open spec fn fits(series: Seq<Series>, gauges: GaugeVec) -> bool {
    forall|i: int|
        0 <= i < series.len() ==> (#[trigger] series[i]).labels@.len() == vec_label_names(
            gauges,
        ).len()
}

/// Replaces what the vector holds by the series given, written first to
/// last. Nothing of what it held before is left.
pub(crate) fn publish(gauges: &mut GaugeVec, series: &Vec<Series>)
    requires
        fits(series@, *old(gauges)),
    ensures
        vec_children(*final(gauges)) == published(samples_of(series@)),
        vec_name(*final(gauges)) == vec_name(*old(gauges)),
        vec_help(*final(gauges)) == vec_help(*old(gauges)),
        vec_label_names(*final(gauges)) == vec_label_names(*old(gauges)),
{
    gauges.reset();
    let mut i: usize = 0;
    while i < series.len()
        invariant
            i <= series@.len(),
            fits(series@, *gauges),
            vec_children(*gauges) == published(samples_of(series@.take(i as int))),
            vec_name(*gauges) == vec_name(*old(gauges)),
            vec_help(*gauges) == vec_help(*old(gauges)),
            vec_label_names(*gauges) == vec_label_names(*old(gauges)),
        decreases series@.len() - i,
    {
        gauges.set(&series[i].labels, series[i].value);
        proof {
            let before = samples_of(series@.take(i as int));
            let after = samples_of(series@.take(i + 1));
            assert(after.drop_last() == before);
            assert(after.last() == series@[i as int]@);
        }
        i += 1;
    }
    proof {
        assert(series@.take(i as int) == series@);
    }
}

} // verus!
