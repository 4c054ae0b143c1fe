use vstd::prelude::*;
use crate::gauge::{
    desc_help, desc_label_names, desc_name, names_of, vec_children, vec_help, vec_label_names,
    vec_name, GaugeVec,
};
use crate::scrape::{after_scrape, publish, shows_series, Described, FetchError};
use crate::series::{
    hash_separates, lemma_published_is_the_set_of_samples, lemma_published_readings_exact,
    no_children, samples_of, texts, Sample, Series,
};
use crate::text::{flag_label, flag_text, lemma_flag_text_tells_flags_apart};
use crate::time::{Timestamp, NANOS_PER_SECOND};

verus! {

/// The number of metrics that the collector owns.
pub const METRICS_NUMBER: usize = 1;

/// An agent counts as alive while its last heartbeat is less than this many
/// seconds old.
pub const HEARTBEAT_WINDOW: i64 = 75;

/// The heartbeat window in nanoseconds.
pub const HEARTBEAT_WINDOW_NANOS: i128 = 75_000_000_000;

/// One row of `ha_router_agent_port_bindings`.
#[derive(Debug)]
pub struct HaRouterAgentPortBinding {
    pub port_id: String,
    pub router_id: String,
    pub l3_agent_id: Option<String>,
    pub state: String,
}

/// One row of `agents`.
#[derive(Debug)]
pub struct Agent {
    pub id: String,
    pub host: String,
    pub admin_state_up: bool,
    pub heartbeat_timestamp: Timestamp,
}

/// The name of the metric.
pub open spec fn l3_agent_of_router_name() -> Seq<char> {
    "openstack_neutron_l3_agent_of_router"@
}

/// The help text of the metric.
pub open spec fn l3_agent_of_router_help() -> Seq<char> {
    "l3_agent_of_router"@
}

/// The label names of the metric, in the order of the label values.
pub open spec fn l3_agent_of_router_labels() -> Seq<Seq<char>> {
    seq![
        "router_id"@,
        "l3_agent_id"@,
        "ha_state"@,
        "agent_alive"@,
        "agent_admin_up"@,
        "agent_host"@,
    ]
}

/// What the metric is made with.
pub open spec fn l3_agent_of_router_described() -> Described {
    Described {
        name: l3_agent_of_router_name(),
        help: l3_agent_of_router_help(),
        label_names: l3_agent_of_router_labels(),
    }
}

/// Whether an agent is alive at `now`: its last heartbeat is less than
/// `HEARTBEAT_WINDOW` seconds old.
pub open spec fn agent_alive(heartbeat: Timestamp, now: Timestamp) -> bool {
    now.nanoseconds() - heartbeat.nanoseconds() < HEARTBEAT_WINDOW * NANOS_PER_SECOND
}

/// The series of one binding and its agent.
pub open spec fn binding_sample(
    binding: HaRouterAgentPortBinding,
    agent: Agent,
    now: Timestamp,
) -> Sample {
    let alive = agent_alive(agent.heartbeat_timestamp, now);
    Sample {
        labels: seq![
            binding.router_id@,
            agent.id@,
            binding.state@,
            flag_text(alive),
            flag_text(agent.admin_state_up),
            agent.host@,
        ],
        value: if alive {
            1
        } else {
            0
        },
    }
}

/// The series of the rows, in the order of the rows.
pub open spec fn binding_samples(
    rows: Seq<(HaRouterAgentPortBinding, Agent)>,
    now: Timestamp,
) -> Seq<Sample> {
    rows.map_values(|row: (HaRouterAgentPortBinding, Agent)| binding_sample(row.0, row.1, now))
}

/// The series that a fetch gives, if it gave rows.
pub open spec fn fetched_samples(
    fetched: Result<Vec<(HaRouterAgentPortBinding, Agent)>, FetchError>,
    now: Timestamp,
) -> Option<Seq<Sample>> {
    match fetched {
        Ok(rows) => Some(binding_samples(rows@, now)),
        Err(_) => None,
    }
}

/// Whether an agent is alive at `now`.
pub fn is_alive(heartbeat: &Timestamp, now: &Timestamp) -> (alive: bool)
    ensures
        alive == agent_alive(*heartbeat, *now),
{
    now.nanos_since(heartbeat) < HEARTBEAT_WINDOW_NANOS
}

/// The series of one binding and its agent.
pub fn binding_series(
    binding: &HaRouterAgentPortBinding,
    agent: &Agent,
    now: &Timestamp,
) -> (series: Series)
    ensures
        series@ == binding_sample(*binding, *agent, *now),
{
    let alive = is_alive(&agent.heartbeat_timestamp, now);
    let labels = vec![
        binding.router_id.clone(),
        agent.id.clone(),
        binding.state.clone(),
        flag_label(alive),
        flag_label(agent.admin_state_up),
        agent.host.clone(),
    ];
    let value: i64 = if alive {
        1
    } else {
        0
    };
    let series = Series { labels, value };
    proof {
        assert(series@.labels =~= binding_sample(*binding, *agent, *now).labels);
    }
    series
}

/// The boundary of the heartbeat window is strict: an agent whose heartbeat is
/// less than 75 seconds old, be it 74 seconds or a nanosecond short of 75, is
/// alive and its series reads 1; one whose heartbeat is 75 seconds old or
/// older is not and its series reads 0.
pub proof fn lemma_heartbeat_window(
    binding: HaRouterAgentPortBinding,
    agent: Agent,
    now: Timestamp,
)
    ensures
        now.nanoseconds() - agent.heartbeat_timestamp.nanoseconds() < 75 * NANOS_PER_SECOND ==> {
            &&& binding_sample(binding, agent, now).value == 1
            &&& binding_sample(binding, agent, now).labels[3] == "true"@
        },
        now.nanoseconds() - agent.heartbeat_timestamp.nanoseconds() >= 75 * NANOS_PER_SECOND
            ==> {
            &&& binding_sample(binding, agent, now).value == 0
            &&& binding_sample(binding, agent, now).labels[3] == "false"@
        },
        now.nanos() == agent.heartbeat_timestamp.nanos() ==> {
            &&& now.seconds() - agent.heartbeat_timestamp.seconds() <= 74 ==> binding_sample(
                binding,
                agent,
                now,
            ).value == 1
            &&& now.seconds() - agent.heartbeat_timestamp.seconds() >= 75 ==> binding_sample(
                binding,
                agent,
                now,
            ).value == 0
        },
{
}

/// After a scrape that fetched rows, the series of the metric are exactly
/// those of the rows. This holds where no two rows with different labels
/// share a hash.
pub proof fn lemma_series_are_the_rows(
    before: Map<u64, Sample>,
    rows: Seq<(HaRouterAgentPortBinding, Agent)>,
    now: Timestamp,
)
    requires
        hash_separates(binding_samples(rows, now)),
    ensures
        after_scrape(before, Some(binding_samples(rows, now))).values() == binding_samples(
            rows,
            now,
        ).to_set(),
{
    let samples = binding_samples(rows, now);
    assert forall|i: int, j: int|
        0 <= i < samples.len() && 0 <= j < samples.len() && samples[i].labels
            == samples[j].labels implies samples[i].value == samples[j].value by {
        let one = agent_alive(rows[i].1.heartbeat_timestamp, now);
        let other = agent_alive(rows[j].1.heartbeat_timestamp, now);
        assert(samples[i].labels[3] == flag_text(one));
        assert(samples[j].labels[3] == flag_text(other));
        lemma_flag_text_tells_flags_apart(one, other);
    }
    lemma_published_is_the_set_of_samples(samples);
}

/// Publishes, for each router, the agents that host it.
pub struct NeutronCollector {
    l3_agent_of_router: GaugeVec,
}

impl NeutronCollector {
    /// What the metric of the collector was made with.
    pub closed spec fn described(self) -> Described {
        Described {
            name: vec_name(self.l3_agent_of_router),
            help: vec_help(self.l3_agent_of_router),
            label_names: vec_label_names(self.l3_agent_of_router),
        }
    }

    /// The metric has the name, the help text and the label names that it is
    /// published under.
    pub open spec fn wf(self) -> bool {
        self.described() == l3_agent_of_router_described()
    }

    /// The series that the metric holds.
    pub closed spec fn series(self) -> Map<u64, Sample> {
        vec_children(self.l3_agent_of_router)
    }

    /// A collector that owns one gauge vector, with the name, the help text
    /// and the label names of the metric, and without series.
    pub fn new() -> (collector: Self)
        ensures
            collector.wf(),
            collector.series() == no_children(),
    {
        let label_names = vec![
            "router_id",
            "l3_agent_id",
            "ha_state",
            "agent_alive",
            "agent_admin_up",
            "agent_host",
        ];
        proof {
            reveal_strlit("openstack_neutron_l3_agent_of_router");
            reveal_strlit("l3_agent_of_router");
            reveal_strlit("router_id");
            reveal_strlit("l3_agent_id");
            reveal_strlit("ha_state");
            reveal_strlit("agent_alive");
            reveal_strlit("agent_admin_up");
            reveal_strlit("agent_host");
            let names = l3_agent_of_router_labels();
            assert(names_of(label_names@) =~= names);
            assert(names[0].len() == 9 && names[1].len() == 11 && names[2].len() == 8);
            assert(names[3].len() == 11 && names[4].len() == 14 && names[5].len() == 10);
            assert(names[1][0] != names[3][0]);
            assert(names.no_duplicates());
        }
        let l3_agent_of_router = GaugeVec::create(
            "openstack_neutron_l3_agent_of_router",
            "l3_agent_of_router",
            &label_names,
        );
        NeutronCollector { l3_agent_of_router }
    }

    /// The descriptor of the metric: its name, its help text and its label
    /// names.
    pub fn desc(&self) -> (descs: Vec<&prometheus::core::Desc>)
        requires
            self.wf(),
        ensures
            descs@.len() == 1,
            desc_name(*descs@[0]) == l3_agent_of_router_name(),
            desc_help(*descs@[0]) == l3_agent_of_router_help(),
            desc_label_names(*descs@[0]) == l3_agent_of_router_labels(),
    {
        self.l3_agent_of_router.descs()
    }

    /// One scrape. Where rows were fetched, the metric is cleared and holds
    /// their series afterwards, and the result is its one family. Where the
    /// fetch failed, the metric is left as it was and nothing is returned.
    pub fn collect(
        &mut self,
        fetched: &Result<Vec<(HaRouterAgentPortBinding, Agent)>, FetchError>,
        now: Timestamp,
    ) -> (families: Vec<prometheus::proto::MetricFamily>)
        requires
            old(self).wf(),
        ensures
            final(self).wf(),
            final(self).series() == after_scrape(
                old(self).series(),
                fetched_samples(*fetched, now),
            ),
            *fetched is Err ==> families@.len() == 0,
            *fetched is Ok ==> families@.len() == METRICS_NUMBER && shows_series(
                families@[0],
                l3_agent_of_router_name(),
                l3_agent_of_router_help(),
                l3_agent_of_router_labels(),
                final(self).series(),
            ),
    {
        let rows = match fetched {
            Ok(rows) => rows,
            Err(_) => {
                return Vec::new();
            },
        };
        let mut series: Vec<Series> = Vec::new();
        let mut i: usize = 0;
        while i < rows.len()
            invariant
                i <= rows@.len(),
                series@.len() == i,
                forall|k: int|
                    0 <= k < i ==> (#[trigger] series@[k])@ == binding_sample(
                        rows@[k].0,
                        rows@[k].1,
                        now,
                    ),
            decreases rows@.len() - i,
        {
            series.push(binding_series(&rows[i].0, &rows[i].1, &now));
            i += 1;
        }
        proof {
            assert(samples_of(series@) =~= binding_samples(rows@, now));
            lemma_published_readings_exact(samples_of(series@));
            assert forall|k: int| 0 <= k < series@.len() implies (
            #[trigger] series@[k]).labels@.len() == l3_agent_of_router_labels().len() by {
                assert(series@[k]@.labels.len() == texts(series@[k].labels@).len());
            }
        }
        publish(&mut self.l3_agent_of_router, &series);
        self.l3_agent_of_router.families()
    }
}

} // verus!
