use vstd::prelude::*;
use crate::gauge::{
    desc_help, desc_label_names, desc_name, names_of, vec_children, vec_help, vec_label_names,
    vec_name, GaugeVec,
};
use crate::scrape::{after_scrape, publish, shows_series, Described, FetchError};
use crate::series::{
    hash_separates, labels_fix_value, lemma_published_is_the_set_of_samples,
    lemma_published_readings_exact, no_children, samples_of, texts, Sample, Series,
};
use crate::text::{label_or_empty, or_empty};

verus! {

/// The number of metrics that the collector owns.
pub const METRICS_NUMBER: usize = 1;

/// One row of `instances` that is not deleted.
#[derive(Debug)]
pub struct Instance {
    pub uuid: String,
    pub task_state: Option<String>,
}

/// The name of the metric.
pub open spec fn server_task_state_name() -> Seq<char> {
    "openstack_nova_server_task_state"@
}

/// The help text of the metric.
pub open spec fn server_task_state_help() -> Seq<char> {
    "server_task_state"@
}

/// The label names of the metric, in the order of the label values.
pub open spec fn server_task_state_labels() -> Seq<Seq<char>> {
    seq!["id"@, "task_state"@]
}

/// What the metric is made with.
pub open spec fn server_task_state_described() -> Described {
    Described {
        name: server_task_state_name(),
        help: server_task_state_help(),
        label_names: server_task_state_labels(),
    }
}

/// The series of one server: 0 while it has no task, else 1.
pub open spec fn instance_sample(instance: Instance) -> Sample {
    Sample {
        labels: seq![instance.uuid@, or_empty(instance.task_state)],
        value: if instance.task_state is None {
            0
        } else {
            1
        },
    }
}

/// The series of the rows, in the order of the rows.
pub open spec fn instance_samples(rows: Seq<Instance>) -> Seq<Sample> {
    rows.map_values(|row: Instance| instance_sample(row))
}

/// The series that a fetch gives, if it gave rows.
pub open spec fn fetched_samples(fetched: Result<Vec<Instance>, FetchError>) -> Option<
    Seq<Sample>,
> {
    match fetched {
        Ok(rows) => Some(instance_samples(rows@)),
        Err(_) => None,
    }
}

/// The series of one server.
pub fn instance_series(instance: &Instance) -> (series: Series)
    ensures
        series@ == instance_sample(*instance),
{
    let labels = vec![instance.uuid.clone(), label_or_empty(&instance.task_state)];
    let value: i64 = if instance.task_state.is_none() {
        0
    } else {
        1
    };
    let series = Series { labels, value };
    proof {
        assert(series@.labels =~= instance_sample(*instance).labels);
    }
    series
}

/// A server without a task state still has both labels: the task state is
/// the empty string, and the series reads 0.
pub proof fn lemma_absent_task_state(instance: Instance)
    requires
        instance.task_state is None,
    ensures
        instance_sample(instance).labels.len() == server_task_state_labels().len(),
        instance_sample(instance).labels[1] == Seq::<char>::empty(),
        instance_sample(instance).value == 0,
{
}

/// After a scrape that fetched rows, the series of the metric are exactly
/// those of the rows. This holds where no two rows with different labels
/// share a hash, and no server is there twice, once with an empty task state
/// and once with none.
pub proof fn lemma_series_are_the_rows(before: Map<u64, Sample>, rows: Seq<Instance>)
    requires
        hash_separates(instance_samples(rows)),
        labels_fix_value(instance_samples(rows)),
    ensures
        after_scrape(before, Some(instance_samples(rows))).values() == instance_samples(
            rows,
        ).to_set(),
{
    lemma_published_is_the_set_of_samples(instance_samples(rows));
}

/// Publishes the task state of each server.
pub struct NovaCollector {
    server_task_state: GaugeVec,
}

impl NovaCollector {
    /// What the metric of the collector was made with.
    pub closed spec fn described(self) -> Described {
        Described {
            name: vec_name(self.server_task_state),
            help: vec_help(self.server_task_state),
            label_names: vec_label_names(self.server_task_state),
        }
    }

    /// The metric has the name, the help text and the label names that it is
    /// published under.
    pub open spec fn wf(self) -> bool {
        self.described() == server_task_state_described()
    }

    /// The series that the metric holds.
    pub closed spec fn series(self) -> Map<u64, Sample> {
        vec_children(self.server_task_state)
    }

    /// A collector that owns one gauge vector, with the name, the help text
    /// and the label names of the metric, and without series.
    pub fn new() -> (collector: Self)
        ensures
            collector.wf(),
            collector.series() == no_children(),
    {
        let label_names = vec!["id", "task_state"];
        proof {
            reveal_strlit("openstack_nova_server_task_state");
            reveal_strlit("server_task_state");
            reveal_strlit("id");
            reveal_strlit("task_state");
            let names = server_task_state_labels();
            assert(names_of(label_names@) =~= names);
            assert(names[0].len() == 2 && names[1].len() == 10);
            assert(names.no_duplicates());
        }
        let server_task_state = GaugeVec::create(
            "openstack_nova_server_task_state",
            "server_task_state",
            &label_names,
        );
        NovaCollector { server_task_state }
    }

    /// The descriptor of the metric: its name, its help text and its label
    /// names.
    pub fn desc(&self) -> (descs: Vec<&prometheus::core::Desc>)
        requires
            self.wf(),
        ensures
            descs@.len() == 1,
            desc_name(*descs@[0]) == server_task_state_name(),
            desc_help(*descs@[0]) == server_task_state_help(),
            desc_label_names(*descs@[0]) == server_task_state_labels(),
    {
        self.server_task_state.descs()
    }

    /// One scrape. Where rows were fetched, the metric is cleared and holds
    /// their series afterwards, and the result is its one family. Where the
    /// fetch failed, the metric is left as it was and nothing is returned.
    pub fn collect(&mut self, fetched: &Result<Vec<Instance>, FetchError>) -> (families: Vec<
        prometheus::proto::MetricFamily,
    >)
        requires
            old(self).wf(),
        ensures
            final(self).wf(),
            final(self).series() == after_scrape(old(self).series(), fetched_samples(*fetched)),
            *fetched is Err ==> families@.len() == 0,
            *fetched is Ok ==> families@.len() == METRICS_NUMBER && shows_series(
                families@[0],
                server_task_state_name(),
                server_task_state_help(),
                server_task_state_labels(),
                final(self).series(),
            ),
    {
        let rows = match fetched {
            Ok(rows) => rows,
            Err(_) => {
                return Vec::new();
            },
        };
        let mut series: Vec<Series> = Vec::new();
        let mut i: usize = 0;
        while i < rows.len()
            invariant
                i <= rows@.len(),
                series@.len() == i,
                forall|k: int|
                    0 <= k < i ==> (#[trigger] series@[k])@ == instance_sample(rows@[k]),
            decreases rows@.len() - i,
        {
            series.push(instance_series(&rows[i]));
            i += 1;
        }
        proof {
            assert(samples_of(series@) =~= instance_samples(rows@));
            lemma_published_readings_exact(samples_of(series@));
            assert forall|k: int| 0 <= k < series@.len() implies (
            #[trigger] series@[k]).labels@.len() == server_task_state_labels().len() by {
                assert(series@[k]@.labels.len() == texts(series@[k].labels@).len());
            }
        }
        publish(&mut self.server_task_state, &series);
        self.server_task_state.families()
    }
}

} // verus!
