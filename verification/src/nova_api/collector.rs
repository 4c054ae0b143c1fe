use vstd::prelude::*;
use crate::gauge::{
    desc_help, desc_label_names, desc_name, names_of, vec_children, vec_help, vec_label_names,
    vec_name, GaugeVec,
};
use crate::scrape::{after_scrape, publish, shows_series, Described, FetchError};
use crate::series::{
    hash_separates, lemma_published_is_the_set_of_samples, lemma_published_readings_exact,
    no_children, samples_of, texts, Sample, Series,
};

verus! {

/// The number of metrics that the collector owns.
pub const METRICS_NUMBER: usize = 1;

/// One row of `build_requests`.
#[derive(Debug)]
pub struct BuildRequest {
    pub project_id: String,
    pub instance_uuid: Option<String>,
}

/// The name of the metric.
pub open spec fn build_request_name() -> Seq<char> {
    "openstack_nova_api_build_request"@
}

/// The help text of the metric.
pub open spec fn build_request_help() -> Seq<char> {
    "build_request"@
}

/// The label names of the metric, in the order of the label values.
pub open spec fn build_request_labels() -> Seq<Seq<char>> {
    seq!["project_id"@, "instance_uuid"@]
}

/// What the metric is made with.
pub open spec fn build_request_described() -> Described {
    Described {
        name: build_request_name(),
        help: build_request_help(),
        label_names: build_request_labels(),
    }
}

/// The series of one build request, which reads 1. A request without an
/// instance has none: the instance tells the series apart, so no empty
/// string stands in for it.
pub open spec fn build_request_sample(request: BuildRequest) -> Option<Sample> {
    match request.instance_uuid {
        Some(instance) => Some(Sample { labels: seq![request.project_id@, instance@], value: 1 }),
        None => None,
    }
}

/// The series of the rows that have one, in the order of the rows.
pub open spec fn build_request_samples(rows: Seq<BuildRequest>) -> Seq<Sample> {
    rows.filter_map(|row: BuildRequest| build_request_sample(row))
}

/// The series that a fetch gives, if it gave rows.
pub open spec fn fetched_samples(fetched: Result<Vec<BuildRequest>, FetchError>) -> Option<
    Seq<Sample>,
> {
    match fetched {
        Ok(rows) => Some(build_request_samples(rows@)),
        Err(_) => None,
    }
}

/// The series of one build request, if it has an instance.
pub fn build_request_series(request: &BuildRequest) -> (series: Option<Series>)
    ensures
        series is Some <==> request.instance_uuid is Some,
        match series {
            Some(series) => build_request_sample(*request) == Some(series@),
            None => build_request_sample(*request) is None,
        },
{
    match &request.instance_uuid {
        Some(instance) => {
            let labels = vec![request.project_id.clone(), instance.clone()];
            let series = Series { labels, value: 1 };
            proof {
                assert(series@.labels =~= build_request_sample(*request).unwrap().labels);
            }
            Some(series)
        },
        None => None,
    }
}

/// A build request without an instance contributes no series at all, wherever
/// it stands among the rows: the series are those of the other rows.
pub proof fn lemma_request_without_instance_adds_nothing(
    before: Seq<BuildRequest>,
    request: BuildRequest,
    after: Seq<BuildRequest>,
)
    requires
        request.instance_uuid is None,
    ensures
        build_request_samples(before + seq![request] + after) == build_request_samples(
            before + after,
        ),
    decreases after.len(),
{
    let with = before + seq![request] + after;
    let without = before + after;
    if after.len() == 0 {
        assert(with.drop_last() == before);
        assert(with.last() == request);
        assert(without == before);
    } else {
        let shorter = after.drop_last();
        lemma_request_without_instance_adds_nothing(before, request, shorter);
        assert(with.drop_last() == before + seq![request] + shorter);
        assert(without.drop_last() == before + shorter);
        assert(with.last() == without.last());
    }
}

/// A build request with an instance contributes one series, which carries
/// the project and the instance and reads 1.
pub proof fn lemma_request_with_instance_adds_one(before: Seq<BuildRequest>, request: BuildRequest)
    requires
        request.instance_uuid is Some,
    ensures
        build_request_samples(before.push(request)) == build_request_samples(before).push(
            Sample {
                labels: seq![request.project_id@, request.instance_uuid.unwrap()@],
                value: 1,
            },
        ),
{
    assert(before.push(request).drop_last() == before);
}

/// Every series of a build request reads 1.
proof fn lemma_build_requests_read_one(rows: Seq<BuildRequest>)
    ensures
        forall|i: int|
            0 <= i < build_request_samples(rows).len() ==> (#[trigger] build_request_samples(
                rows,
            )[i]).value == 1,
    decreases rows.len(),
{
    if rows.len() > 0 {
        let rest = build_request_samples(rows.drop_last());
        lemma_build_requests_read_one(rows.drop_last());
        assert forall|i: int| 0 <= i < build_request_samples(rows).len() implies (
        #[trigger] build_request_samples(rows)[i]).value == 1 by {
            if i < rest.len() {
                assert(build_request_samples(rows)[i] == rest[i]);
            }
        }
    }
}

/// After a scrape that fetched rows, the series of the metric are exactly
/// those of the rows that have an instance. This holds where no two rows
/// with different labels share a hash.
pub proof fn lemma_series_are_the_rows(before: Map<u64, Sample>, rows: Seq<BuildRequest>)
    requires
        hash_separates(build_request_samples(rows)),
    ensures
        after_scrape(before, Some(build_request_samples(rows))).values()
            == build_request_samples(rows).to_set(),
{
    lemma_build_requests_read_one(rows);
    lemma_published_is_the_set_of_samples(build_request_samples(rows));
}

/// Publishes the build requests that have an instance.
pub struct NovaApiCollector {
    build_request: GaugeVec,
}

impl NovaApiCollector {
    /// What the metric of the collector was made with.
    pub closed spec fn described(self) -> Described {
        Described {
            name: vec_name(self.build_request),
            help: vec_help(self.build_request),
            label_names: vec_label_names(self.build_request),
        }
    }

    /// The metric has the name, the help text and the label names that it is
    /// published under.
    pub open spec fn wf(self) -> bool {
        self.described() == build_request_described()
    }

    /// The series that the metric holds.
    pub closed spec fn series(self) -> Map<u64, Sample> {
        vec_children(self.build_request)
    }

    /// A collector that owns one gauge vector, with the name, the help text
    /// and the label names of the metric, and without series.
    pub fn new() -> (collector: Self)
        ensures
            collector.wf(),
            collector.series() == no_children(),
    {
        let label_names = vec!["project_id", "instance_uuid"];
        proof {
            reveal_strlit("openstack_nova_api_build_request");
            reveal_strlit("build_request");
            reveal_strlit("project_id");
            reveal_strlit("instance_uuid");
            let names = build_request_labels();
            assert(names_of(label_names@) =~= names);
            assert(names[0].len() == 10 && names[1].len() == 13);
            assert(names.no_duplicates());
        }
        let build_request = GaugeVec::create(
            "openstack_nova_api_build_request",
            "build_request",
            &label_names,
        );
        NovaApiCollector { build_request }
    }

    /// The descriptor of the metric: its name, its help text and its label
    /// names.
    pub fn desc(&self) -> (descs: Vec<&prometheus::core::Desc>)
        requires
            self.wf(),
        ensures
            descs@.len() == 1,
            desc_name(*descs@[0]) == build_request_name(),
            desc_help(*descs@[0]) == build_request_help(),
            desc_label_names(*descs@[0]) == build_request_labels(),
    {
        self.build_request.descs()
    }

    /// One scrape. Where rows were fetched, the metric is cleared and holds
    /// their series afterwards, and the result is its one family. Where the
    /// fetch failed, the metric is left as it was and nothing is returned.
    pub fn collect(&mut self, fetched: &Result<Vec<BuildRequest>, FetchError>) -> (families: Vec<
        prometheus::proto::MetricFamily,
    >)
        requires
            old(self).wf(),
        ensures
            final(self).wf(),
            final(self).series() == after_scrape(old(self).series(), fetched_samples(*fetched)),
            *fetched is Err ==> families@.len() == 0,
            *fetched is Ok ==> families@.len() == METRICS_NUMBER && shows_series(
                families@[0],
                build_request_name(),
                build_request_help(),
                build_request_labels(),
                final(self).series(),
            ),
    {
        let rows = match fetched {
            Ok(rows) => rows,
            Err(_) => {
                return Vec::new();
            },
        };
        let mut series: Vec<Series> = Vec::new();
        let mut i: usize = 0;
        while i < rows.len()
            invariant
                i <= rows@.len(),
                samples_of(series@) == build_request_samples(rows@.take(i as int)),
                forall|k: int|
                    0 <= k < series@.len() ==> (#[trigger] series@[k]).labels@.len() == 2
                        && series@[k].value == 1,
            decreases rows@.len() - i,
        {
            let ghost before = samples_of(series@);
            proof {
                rows@.lemma_filter_map_take_succ(
                    |row: BuildRequest| build_request_sample(row),
                    i as int,
                );
            }
            match build_request_series(&rows[i]) {
                Some(one) => {
                    series.push(one);
                    proof {
                        assert(samples_of(series@) =~= before + seq![one@]);
                        assert(one@.labels.len() == texts(one.labels@).len());
                    }
                },
                None => {
                    proof {
                        assert(before + Seq::<Sample>::empty() =~= before);
                    }
                },
            }
            i += 1;
        }
        proof {
            assert(rows@.take(i as int) == rows@);
            lemma_published_readings_exact(samples_of(series@));
        }
        publish(&mut self.build_request, &series);
        self.build_request.families()
    }
}

} // verus!
