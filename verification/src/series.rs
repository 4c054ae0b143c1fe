//! The model of a gauge vector: which series it holds after a run of writes.
//!
//! A gauge vector files each series under a hash of its label values. A write
//! whose labels hash to a key that is already in use sets the value of the
//! series found there, which keeps the labels it was created with. The laws at
//! the end of this module say what this means for a vector that is cleared and
//! then written row by row.

use vstd::prelude::*;
use crate::gauge::label_hash;

verus! {

/// One series as contracts see it: the label values, in the order in which
/// the label names were declared, and the reading.
pub struct Sample {
    pub labels: Seq<Seq<char>>,
    pub value: int,
}

/// One series as it is handed to a gauge vector.
#[derive(Debug)]
pub struct Series {
    pub labels: Vec<String>,
    pub value: i64,
}

/// The texts that a list of strings holds.
pub open spec fn texts(strings: Seq<String>) -> Seq<Seq<char>> {
    strings.map_values(|s: String| s@)
}

impl View for Series {
    type V = Sample;

    open spec fn view(&self) -> Sample {
        Sample { labels: texts(self.labels@), value: self.value as int }
    }
}

/// The samples that a list of series stands for.
pub open spec fn samples_of(series: Seq<Series>) -> Seq<Sample> {
    series.map_values(|s: Series| s@)
}

/// A gauge vector that holds nothing.
pub open spec fn no_children() -> Map<u64, Sample> {
    Map::empty()
}

/// The children after one write.
pub open spec fn record(children: Map<u64, Sample>, sample: Sample) -> Map<u64, Sample> {
    let key = label_hash(sample.labels);
    if children.dom().contains(key) {
        children.insert(key, Sample { labels: children[key].labels, value: sample.value })
    } else {
        children.insert(key, sample)
    }
}

/// The children after the writes of `samples`, first to last.
pub open spec fn record_all(children: Map<u64, Sample>, samples: Seq<Sample>) -> Map<
    u64,
    Sample,
>
    decreases samples.len(),
{
    if samples.len() == 0 {
        children
    } else {
        record(record_all(children, samples.drop_last()), samples.last())
    }
}

/// What a cleared gauge vector holds after the writes of `samples`.
pub open spec fn published(samples: Seq<Sample>) -> Map<u64, Sample> {
    record_all(no_children(), samples)
}

/// No two of the samples with different labels share a hash.
pub open spec fn hash_separates(samples: Seq<Sample>) -> bool {
    forall|i: int, j: int|
        0 <= i < samples.len() && 0 <= j < samples.len() && label_hash(samples[i].labels)
            == label_hash(samples[j].labels) ==> samples[i].labels == samples[j].labels
}

/// The sample at `k` is the last one with its labels.
pub open spec fn is_latest(samples: Seq<Sample>, k: int) -> bool {
    &&& 0 <= k < samples.len()
    &&& forall|j: int| k < j < samples.len() ==> samples[j].labels != samples[k].labels
}

/// Every reading is a whole number that a 64-bit float holds without
/// rounding.
pub open spec fn exact_readings(children: Map<u64, Sample>) -> bool {
    forall|key: u64| #[trigger]
        children.dom().contains(key) ==> exact_reading(children[key].value)
}

/// The whole numbers that a 64-bit float holds without rounding.
pub open spec fn exact_reading(value: int) -> bool {
    -0x20_0000_0000_0000 <= value <= 0x20_0000_0000_0000
}

/// Every series of a cleared and rewritten vector is filed under the hash of
/// its own labels, took its labels from one of the samples written and its
/// value from one of them, and every sample written found a place.
pub proof fn lemma_published_from_samples(samples: Seq<Sample>)
    ensures
        published(samples).dom().finite(),
        forall|key: u64| #[trigger]
            published(samples).dom().contains(key) ==> {
                &&& label_hash(published(samples)[key].labels) == key
                &&& exists|i: int|
                    0 <= i < samples.len() && #[trigger] samples[i].labels == published(
                        samples,
                    )[key].labels
                &&& exists|j: int|
                    0 <= j < samples.len() && label_hash(samples[j].labels) == key
                        && #[trigger] samples[j].value == published(samples)[key].value
            },
        forall|i: int|
            0 <= i < samples.len() ==> published(samples).dom().contains(
                label_hash(#[trigger] samples[i].labels),
            ),
    decreases samples.len(),
{
    if samples.len() > 0 {
        let rest = samples.drop_last();
        let last = samples.last();
        let before = published(rest);
        let after = published(samples);
        lemma_published_from_samples(rest);
        assert(after == record(before, last));
        assert forall|key: u64| #[trigger] after.dom().contains(key) implies {
            &&& label_hash(after[key].labels) == key
            &&& exists|i: int|
                0 <= i < samples.len() && #[trigger] samples[i].labels == after[key].labels
            &&& exists|j: int|
                0 <= j < samples.len() && label_hash(samples[j].labels) == key
                    && #[trigger] samples[j].value == after[key].value
        } by {
            if key == label_hash(last.labels) {
                let n = samples.len() - 1;
                assert(samples[n].value == after[key].value);
                if before.dom().contains(key) {
                    let i = choose|i: int|
                        0 <= i < rest.len() && #[trigger] rest[i].labels == before[key].labels;
                    assert(samples[i].labels == after[key].labels);
                } else {
                    assert(samples[n].labels == after[key].labels);
                }
            } else {
                assert(before.dom().contains(key));
                let i = choose|i: int|
                    0 <= i < rest.len() && #[trigger] rest[i].labels == before[key].labels;
                assert(samples[i].labels == after[key].labels);
                let j = choose|j: int|
                    0 <= j < rest.len() && label_hash(rest[j].labels) == key
                        && #[trigger] rest[j].value == before[key].value;
                assert(samples[j].value == after[key].value);
            }
        }
        assert forall|i: int| 0 <= i < samples.len() implies after.dom().contains(
            label_hash(#[trigger] samples[i].labels),
        ) by {
            if i < rest.len() {
                assert(rest[i].labels == samples[i].labels);
            }
        }
    }
}

/// A vector that is cleared and then written row by row shows the rows and
/// nothing else: its series are the samples written, each once, and where
/// several were written with the same labels, the last of them. This holds
/// where no two samples with different labels share a hash.
pub proof fn lemma_published_is_derived(samples: Seq<Sample>)
    requires
        hash_separates(samples),
    ensures
        forall|s: Sample|
            #![trigger published(samples).values().contains(s)]
            published(samples).values().contains(s) <==> exists|k: int|
                is_latest(samples, k) && #[trigger] samples[k] == s,
    decreases samples.len(),
{
    let after = published(samples);
    if samples.len() == 0 {
        assert forall|s: Sample| #![trigger after.values().contains(s)]
            after.values().contains(s) <==> exists|k: int|
                is_latest(samples, k) && #[trigger] samples[k] == s by {
            if after.values().contains(s) {
                let key = choose|key: u64| #[trigger]
                    after.dom().contains(key) && after[key] == s;
                assert(false);
            }
        }
    } else {
        let rest = samples.drop_last();
        let last = samples.last();
        let n = samples.len() - 1;
        let before = published(rest);
        let key = label_hash(last.labels);
        assert(hash_separates(rest)) by {
            assert forall|i: int, j: int|
                0 <= i < rest.len() && 0 <= j < rest.len() && label_hash(rest[i].labels)
                    == label_hash(rest[j].labels) implies rest[i].labels == rest[j].labels by {
                assert(rest[i] == samples[i] && rest[j] == samples[j]);
            }
        }
        lemma_published_is_derived(rest);
        lemma_published_from_samples(rest);
        assert(after == record(before, last));
        assert(after == before.insert(key, last)) by {
            if before.dom().contains(key) {
                let i = choose|i: int|
                    0 <= i < rest.len() && #[trigger] rest[i].labels == before[key].labels;
                assert(samples[i] == rest[i]);
                assert(label_hash(samples[i].labels) == label_hash(samples[n].labels));
                assert(before[key].labels == last.labels);
            }
        }
        assert forall|s: Sample| #![trigger after.values().contains(s)]
            after.values().contains(s) <==> exists|k: int|
                is_latest(samples, k) && #[trigger] samples[k] == s by {
            if after.values().contains(s) {
                let at = choose|at: u64| #[trigger] after.dom().contains(at) && after[at] == s;
                if at == key {
                    assert(is_latest(samples, n) && samples[n] == s);
                } else {
                    assert(before.dom().contains(at) && before[at] == s);
                    assert(before.values().contains(s));
                    let k = choose|k: int| is_latest(rest, k) && #[trigger] rest[k] == s;
                    assert(samples[k] == s);
                    assert(is_latest(samples, k)) by {
                        assert forall|j: int| k < j < samples.len() implies samples[j].labels
                            != samples[k].labels by {
                            if j < rest.len() {
                                assert(rest[j] == samples[j]);
                            }
                        }
                    }
                }
            }
            if exists|k: int| is_latest(samples, k) && #[trigger] samples[k] == s {
                let k = choose|k: int| is_latest(samples, k) && #[trigger] samples[k] == s;
                if k == n {
                    assert(after.dom().contains(key) && after[key] == s);
                } else {
                    assert(rest[k] == s);
                    assert(is_latest(rest, k)) by {
                        assert forall|j: int| k < j < rest.len() implies rest[j].labels
                            != rest[k].labels by {
                            assert(rest[j] == samples[j]);
                        }
                    }
                    assert(before.values().contains(s));
                    let at = choose|at: u64| #[trigger]
                        before.dom().contains(at) && before[at] == s;
                    assert(label_hash(s.labels) == at);
                    assert(samples[n].labels != samples[k].labels);
                    assert(at != key);
                    assert(after.dom().contains(at) && after[at] == s);
                }
            }
        }
    }
}

/// Samples with the same labels have the same value.
pub open spec fn labels_fix_value(samples: Seq<Sample>) -> bool {
    forall|i: int, j: int|
        0 <= i < samples.len() && 0 <= j < samples.len() && samples[i].labels
            == samples[j].labels ==> samples[i].value == samples[j].value
}

/// Among the samples with the labels of the one at `i` there is a last one.
proof fn lemma_latest_exists(samples: Seq<Sample>, i: int)
    requires
        0 <= i < samples.len(),
    ensures
        exists|k: int| is_latest(samples, k) && #[trigger] samples[k].labels == samples[i].labels,
    decreases samples.len() - i,
{
    if is_latest(samples, i) {
        assert(samples[i].labels == samples[i].labels);
    } else {
        let j = choose|j: int| i < j < samples.len() && samples[j].labels == samples[i].labels;
        lemma_latest_exists(samples, j);
        let k = choose|k: int|
            is_latest(samples, k) && #[trigger] samples[k].labels == samples[j].labels;
        assert(samples[k].labels == samples[i].labels);
    }
}

/// A vector that is cleared and then written row by row shows exactly the
/// set of the samples written. This holds where no two samples with
/// different labels share a hash, and no two with the same labels differ in
/// their value.
pub proof fn lemma_published_is_the_set_of_samples(samples: Seq<Sample>)
    requires
        hash_separates(samples),
        labels_fix_value(samples),
    ensures
        published(samples).values() == samples.to_set(),
{
    lemma_published_is_derived(samples);
    let shown = published(samples).values();
    assert forall|s: Sample| shown.contains(s) <==> samples.to_set().contains(s) by {
        if shown.contains(s) {
            let k = choose|k: int| is_latest(samples, k) && #[trigger] samples[k] == s;
            assert(samples.contains(s));
        }
        if samples.to_set().contains(s) {
            let i = choose|i: int| 0 <= i < samples.len() && samples[i] == s;
            lemma_latest_exists(samples, i);
            let k = choose|k: int|
                is_latest(samples, k) && #[trigger] samples[k].labels == samples[i].labels;
            assert(samples[k].value == samples[i].value);
            assert(samples[k] == s);
        }
    }
    assert(shown =~= samples.to_set());
}

/// Writing small readings leaves small readings.
pub proof fn lemma_published_readings_exact(samples: Seq<Sample>)
    requires
        forall|i: int| 0 <= i < samples.len() ==> exact_reading(#[trigger] samples[i].value),
    ensures
        exact_readings(published(samples)),
{
    lemma_published_from_samples(samples);
}

} // verus!
