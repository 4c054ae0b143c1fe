use vstd::prelude::*;
use crate::gauge::{
    desc_help, desc_label_names, desc_name, gauge_help, gauge_name, gauge_value, names_of,
    vec_children, vec_help, vec_label_names, vec_name, Gauge, GaugeVec,
};
use crate::octavia::status::{
    amphora_status_code, amphora_status_value, loadbalancer_status_code,
    loadbalancer_status_value, pool_status_code, pool_status_value,
};
use crate::scrape::{
    all_shown, count_value, lemma_shown_in_turn, publish, row_count, Described, FetchError,
    Shown,
};
use crate::series::{
    exact_readings, hash_separates, lemma_published_from_samples,
    lemma_published_is_the_set_of_samples, lemma_published_readings_exact, no_children,
    published, samples_of, texts, Sample, Series,
};
use crate::text::{label_or_empty, or_empty};
use crate::time::{rfc3339_utc, Timestamp};

verus! {

/// The number of metrics that the collector owns.
pub const METRICS_NUMBER: usize = 7;

/// One row of `load_balancer`.
#[derive(Debug)]
pub struct LoadBalancer {
    pub project_id: Option<String>,
    pub id: String,
    pub name: Option<String>,
    pub provisioning_status: String,
    pub operating_status: String,
    pub provider: Option<String>,
}

/// One row of `vip`.
#[derive(Debug)]
pub struct VirtualIp {
    pub load_balancer_id: String,
    pub ip_address: Option<String>,
}

/// One row of `amphora`.
#[derive(Debug)]
pub struct Amphora {
    pub id: String,
    pub compute_id: Option<String>,
    pub status: String,
    pub load_balancer_id: Option<String>,
    pub lb_network_ip: Option<String>,
    pub ha_ip: Option<String>,
    pub role: Option<String>,
    pub cert_expiration: Option<Timestamp>,
}

/// One row of `pool`.
#[derive(Debug)]
pub struct Pool {
    pub project_id: Option<String>,
    pub id: String,
    pub name: Option<String>,
    pub protocol: String,
    pub lb_algorithm: String,
    pub operating_status: String,
    pub load_balancer_id: Option<String>,
    pub provisioning_status: String,
}

/// What the three queries of one scrape gave, each for itself. The load
/// balancers come joined to their virtual IPs: one pair for each load
/// balancer that has one.
#[derive(Debug)]
pub struct OctaviaRows {
    pub pools: Result<Vec<Pool>, FetchError>,
    pub amphorae: Result<Vec<Amphora>, FetchError>,
    pub loadbalancers: Result<Vec<(LoadBalancer, VirtualIp)>, FetchError>,
}

/// The name of the pool metric.
pub open spec fn pool_status_name() -> Seq<char> {
    "openstack_loadbalancer_pool_status"@
}

/// The name of the amphora metric.
pub open spec fn amphora_status_name() -> Seq<char> {
    "openstack_loadbalancer_amphora_status"@
}

/// The name of the load balancer metric.
pub open spec fn loadbalancer_status_name() -> Seq<char> {
    "openstack_loadbalancer_loadbalancer_status"@
}

/// The name of the count of amphorae.
pub open spec fn total_amphorae_name() -> Seq<char> {
    "openstack_loadbalancer_total_amphorae"@
}

/// The name of the count of load balancers.
pub open spec fn total_loadbalancers_name() -> Seq<char> {
    "openstack_loadbalancer_total_loadbalancers"@
}

/// The name of the count of pools.
pub open spec fn total_pools_name() -> Seq<char> {
    "openstack_loadbalancer_total_pools"@
}

/// The name of the gauge that says that the collector is up.
pub open spec fn up_name() -> Seq<char> {
    "openstack_loadbalancer_up"@
}

/// The help text of the pool metric.
pub open spec fn pool_status_help() -> Seq<char> {
    "pool_status"@
}

/// The help text of the amphora metric.
pub open spec fn amphora_status_help() -> Seq<char> {
    "amphora_status"@
}

/// The help text of the load balancer metric.
pub open spec fn loadbalancer_status_help() -> Seq<char> {
    "loadbalancer_status"@
}

/// The help text of the count of amphorae.
pub open spec fn total_amphorae_help() -> Seq<char> {
    "total_amphorae"@
}

/// The help text of the count of load balancers.
pub open spec fn total_loadbalancers_help() -> Seq<char> {
    "total_loadbalancers"@
}

/// The help text of the count of pools.
pub open spec fn total_pools_help() -> Seq<char> {
    "total_pools"@
}

/// The help text of the gauge that says that the collector is up.
pub open spec fn up_help() -> Seq<char> {
    "up"@
}

/// The label names of the pool metric, in the order of the label values.
pub open spec fn pool_status_labels() -> Seq<Seq<char>> {
    seq![
        "id"@,
        "provisioning_status"@,
        "name"@,
        "loadbalancers"@,
        "protocol"@,
        "lb_algorithm"@,
        "operating_status"@,
        "project_id"@,
    ]
}

/// The label names of the amphora metric, in the order of the label values.
pub open spec fn amphora_status_labels() -> Seq<Seq<char>> {
    seq![
        "id"@,
        "loadbalancer_id"@,
        "compute_id"@,
        "status"@,
        "role"@,
        "lb_network_ip"@,
        "ha_ip"@,
        "cert_expiration"@,
    ]
}

/// The label names of the load balancer metric, in the order of the label
/// values.
pub open spec fn loadbalancer_status_labels() -> Seq<Seq<char>> {
    seq![
        "id"@,
        "name"@,
        "project_id"@,
        "operating_status"@,
        "provisioning_status"@,
        "provider"@,
        "vip_address"@,
    ]
}

/// The series of one pool: the number of its provisioning status.
pub open spec fn pool_sample(pool: Pool) -> Sample {
    Sample {
        labels: seq![
            pool.id@,
            pool.provisioning_status@,
            or_empty(pool.name),
            or_empty(pool.load_balancer_id),
            pool.protocol@,
            pool.lb_algorithm@,
            pool.operating_status@,
            or_empty(pool.project_id),
        ],
        value: pool_status_code(pool.provisioning_status@),
    }
}

/// The text of a certificate's expiry in a label: the timestamp in UTC to
/// the second, or nothing where there is none.
pub open spec fn expiry_text(expiry: Option<Timestamp>) -> Seq<char> {
    match expiry {
        Some(at) => rfc3339_utc(at.seconds()),
        None => Seq::empty(),
    }
}

/// The series of one amphora, given the text of its certificate's expiry:
/// the number of its status.
pub open spec fn amphora_sample_with(amphora: Amphora, cert_expiration: Seq<char>) -> Sample {
    Sample {
        labels: seq![
            amphora.id@,
            or_empty(amphora.load_balancer_id),
            or_empty(amphora.compute_id),
            amphora.status@,
            or_empty(amphora.role),
            or_empty(amphora.lb_network_ip),
            or_empty(amphora.ha_ip),
            cert_expiration,
        ],
        value: amphora_status_code(amphora.status@),
    }
}

/// The series of one amphora.
pub open spec fn amphora_sample(amphora: Amphora) -> Sample {
    amphora_sample_with(amphora, expiry_text(amphora.cert_expiration))
}

/// The series of one load balancer and its virtual IP: the number of its
/// operating status.
pub open spec fn loadbalancer_sample(loadbalancer: LoadBalancer, vip: VirtualIp) -> Sample {
    Sample {
        labels: seq![
            loadbalancer.id@,
            or_empty(loadbalancer.name),
            or_empty(loadbalancer.project_id),
            loadbalancer.operating_status@,
            loadbalancer.provisioning_status@,
            or_empty(loadbalancer.provider),
            or_empty(vip.ip_address),
        ],
        value: loadbalancer_status_code(loadbalancer.operating_status@),
    }
}

/// The series of the pools, in the order of the rows.
pub open spec fn pool_samples(rows: Seq<Pool>) -> Seq<Sample> {
    rows.map_values(|row: Pool| pool_sample(row))
}

/// The series of the amphorae, in the order of the rows.
pub open spec fn amphora_samples(rows: Seq<Amphora>) -> Seq<Sample> {
    rows.map_values(|row: Amphora| amphora_sample(row))
}

/// The series of the load balancers, in the order of the rows.
pub open spec fn loadbalancer_samples(rows: Seq<(LoadBalancer, VirtualIp)>) -> Seq<Sample> {
    rows.map_values(|row: (LoadBalancer, VirtualIp)| loadbalancer_sample(row.0, row.1))
}

/// The series of one pool.
pub fn pool_series(pool: &Pool) -> (series: Series)
    ensures
        series@ == pool_sample(*pool),
{
    let value = pool_status_value(&pool.provisioning_status);
    let labels = vec![
        pool.id.clone(),
        pool.provisioning_status.clone(),
        label_or_empty(&pool.name),
        label_or_empty(&pool.load_balancer_id),
        pool.protocol.clone(),
        pool.lb_algorithm.clone(),
        pool.operating_status.clone(),
        label_or_empty(&pool.project_id),
    ];
    let series = Series { labels, value };
    proof {
        assert(series@.labels =~= pool_sample(*pool).labels);
    }
    series
}

/// The text of a certificate's expiry in a label.
pub fn expiry_label(expiry: &Option<Timestamp>) -> (label: String)
    ensures
        label@ == expiry_text(*expiry),
{
    match expiry {
        Some(at) => at.to_rfc3339(),
        None => String::new(),
    }
}

/// The series of one amphora, given the text of its certificate's expiry.
pub fn amphora_series(amphora: &Amphora, cert_expiration: String) -> (series: Series)
    ensures
        series@ == amphora_sample_with(*amphora, cert_expiration@),
{
    let value = amphora_status_value(&amphora.status);
    let labels = vec![
        amphora.id.clone(),
        label_or_empty(&amphora.load_balancer_id),
        label_or_empty(&amphora.compute_id),
        amphora.status.clone(),
        label_or_empty(&amphora.role),
        label_or_empty(&amphora.lb_network_ip),
        label_or_empty(&amphora.ha_ip),
        cert_expiration,
    ];
    let series = Series { labels, value };
    proof {
        assert(series@.labels =~= amphora_sample_with(*amphora, cert_expiration@).labels);
    }
    series
}

/// The series of one load balancer and its virtual IP.
pub fn loadbalancer_series(loadbalancer: &LoadBalancer, vip: &VirtualIp) -> (series: Series)
    ensures
        series@ == loadbalancer_sample(*loadbalancer, *vip),
{
    let value = loadbalancer_status_value(&loadbalancer.operating_status);
    let labels = vec![
        loadbalancer.id.clone(),
        label_or_empty(&loadbalancer.name),
        label_or_empty(&loadbalancer.project_id),
        loadbalancer.operating_status.clone(),
        loadbalancer.provisioning_status.clone(),
        label_or_empty(&loadbalancer.provider),
        label_or_empty(&vip.ip_address),
    ];
    let series = Series { labels, value };
    proof {
        assert(series@.labels =~= loadbalancer_sample(*loadbalancer, *vip).labels);
    }
    series
}

/// A pool always has all eight labels. Its name, its load balancer and its
/// project are the empty string where the row has none.
pub proof fn lemma_absent_pool_fields(pool: Pool)
    ensures
        pool_sample(pool).labels.len() == pool_status_labels().len(),
        pool.name is None ==> pool_sample(pool).labels[2] == Seq::<char>::empty(),
        pool.load_balancer_id is None ==> pool_sample(pool).labels[3] == Seq::<char>::empty(),
        pool.project_id is None ==> pool_sample(pool).labels[7] == Seq::<char>::empty(),
{
}

/// An amphora always has all eight labels. Its load balancer, its compute
/// instance, its role, its two addresses and the expiry of its certificate
/// are the empty string where the row has none.
pub proof fn lemma_absent_amphora_fields(amphora: Amphora)
    ensures
        amphora_sample(amphora).labels.len() == amphora_status_labels().len(),
        amphora.load_balancer_id is None ==> amphora_sample(amphora).labels[1] == Seq::<
            char,
        >::empty(),
        amphora.compute_id is None ==> amphora_sample(amphora).labels[2] == Seq::<char>::empty(),
        amphora.role is None ==> amphora_sample(amphora).labels[4] == Seq::<char>::empty(),
        amphora.lb_network_ip is None ==> amphora_sample(amphora).labels[5] == Seq::<
            char,
        >::empty(),
        amphora.ha_ip is None ==> amphora_sample(amphora).labels[6] == Seq::<char>::empty(),
        amphora.cert_expiration is None ==> amphora_sample(amphora).labels[7] == Seq::<
            char,
        >::empty(),
{
}

/// A load balancer always has all seven labels. Its name, its project, its
/// provider and the address of its virtual IP are the empty string where the
/// rows have none.
pub proof fn lemma_absent_loadbalancer_fields(loadbalancer: LoadBalancer, vip: VirtualIp)
    ensures
        loadbalancer_sample(loadbalancer, vip).labels.len() == loadbalancer_status_labels().len(),
        loadbalancer.name is None ==> loadbalancer_sample(loadbalancer, vip).labels[1] == Seq::<
            char,
        >::empty(),
        loadbalancer.project_id is None ==> loadbalancer_sample(loadbalancer, vip).labels[2]
            == Seq::<char>::empty(),
        loadbalancer.provider is None ==> loadbalancer_sample(loadbalancer, vip).labels[5]
            == Seq::<char>::empty(),
        vip.ip_address is None ==> loadbalancer_sample(loadbalancer, vip).labels[6] == Seq::<
            char,
        >::empty(),
{
}

/// Every series of the load balancer metric carries the labels of a load
/// balancer that came joined to its virtual IP. An id that only a pool or an
/// amphora refers to is on no series of this metric.
pub proof fn lemma_loadbalancer_series_are_joined_rows(rows: Seq<(LoadBalancer, VirtualIp)>)
    ensures
        forall|key: u64| #[trigger]
            published(loadbalancer_samples(rows)).dom().contains(key) ==> exists|i: int|
                0 <= i < rows.len() && published(loadbalancer_samples(rows))[key].labels
                    == #[trigger] loadbalancer_sample(rows[i].0, rows[i].1).labels
                    && published(loadbalancer_samples(rows))[key].labels[0] == rows[i].0.id@,
{
    let samples = loadbalancer_samples(rows);
    lemma_published_from_samples(samples);
    assert forall|key: u64| #[trigger] published(samples).dom().contains(key) implies exists|
        i: int,
    |
        0 <= i < rows.len() && published(samples)[key].labels == #[trigger] loadbalancer_sample(
            rows[i].0,
            rows[i].1,
        ).labels && published(samples)[key].labels[0] == rows[i].0.id@ by {
        let i = choose|i: int|
            0 <= i < samples.len() && #[trigger] samples[i].labels == published(
                samples,
            )[key].labels;
        assert(samples[i] == loadbalancer_sample(rows[i].0, rows[i].1));
    }
}

/// The load balancer metric after a scrape is the same whatever the pool and
/// amphora queries gave.
pub proof fn lemma_loadbalancer_metric_ignores_other_rows(
    state: OctaviaState,
    one: OctaviaRows,
    other: OctaviaRows,
)
    requires
        one.loadbalancers == other.loadbalancers,
    ensures
        after_collect(state, Ok(one)).loadbalancer_status == after_collect(
            state,
            Ok(other),
        ).loadbalancer_status,
{
}

/// After a pool query that gave rows, the series of the pool metric are
/// exactly those of the rows. This holds where no two rows with different
/// labels share a hash.
pub proof fn lemma_pool_series_are_the_rows(state: OctaviaState, rows: Vec<Pool>)
    requires
        hash_separates(pool_samples(rows@)),
    ensures
        after_pools(state, Ok(rows)).pool_status.values() == pool_samples(rows@).to_set(),
{
    let samples = pool_samples(rows@);
    assert forall|i: int, j: int|
        0 <= i < samples.len() && 0 <= j < samples.len() && samples[i].labels
            == samples[j].labels implies samples[i].value == samples[j].value by {
        assert(samples[i].labels[1] == rows@[i].provisioning_status@);
        assert(samples[j].labels[1] == rows@[j].provisioning_status@);
    }
    lemma_published_is_the_set_of_samples(samples);
}

/// After an amphora query that gave rows, the series of the amphora metric
/// are exactly those of the rows. This holds where no two rows with
/// different labels share a hash.
pub proof fn lemma_amphora_series_are_the_rows(state: OctaviaState, rows: Vec<Amphora>)
    requires
        hash_separates(amphora_samples(rows@)),
    ensures
        after_amphorae(state, Ok(rows)).amphora_status.values() == amphora_samples(
            rows@,
        ).to_set(),
{
    let samples = amphora_samples(rows@);
    assert forall|i: int, j: int|
        0 <= i < samples.len() && 0 <= j < samples.len() && samples[i].labels
            == samples[j].labels implies samples[i].value == samples[j].value by {
        assert(samples[i].labels[3] == rows@[i].status@);
        assert(samples[j].labels[3] == rows@[j].status@);
    }
    lemma_published_is_the_set_of_samples(samples);
}

/// After a load balancer query that gave rows, the series of the load
/// balancer metric are exactly those of the rows. This holds where no two
/// rows with different labels share a hash.
pub proof fn lemma_loadbalancer_series_are_the_rows(
    state: OctaviaState,
    rows: Vec<(LoadBalancer, VirtualIp)>,
)
    requires
        hash_separates(loadbalancer_samples(rows@)),
    ensures
        after_loadbalancers(state, Ok(rows)).loadbalancer_status.values()
            == loadbalancer_samples(rows@).to_set(),
{
    let samples = loadbalancer_samples(rows@);
    assert forall|i: int, j: int|
        0 <= i < samples.len() && 0 <= j < samples.len() && samples[i].labels
            == samples[j].labels implies samples[i].value == samples[j].value by {
        assert(samples[i].labels[3] == rows@[i].0.operating_status@);
        assert(samples[j].labels[3] == rows@[j].0.operating_status@);
    }
    lemma_published_is_the_set_of_samples(samples);
}

/// What the metrics of the load balancing service hold.
pub struct OctaviaState {
    pub pool_status: Map<u64, Sample>,
    pub amphora_status: Map<u64, Sample>,
    pub loadbalancer_status: Map<u64, Sample>,
    pub total_amphorae: int,
    pub total_loadbalancers: int,
    pub total_pools: int,
    pub up: int,
}

/// The state after the pool query: its series and their number, or no change
/// where the query failed.
pub open spec fn after_pools(state: OctaviaState, fetched: Result<Vec<Pool>, FetchError>)
    -> OctaviaState {
    match fetched {
        Ok(rows) => OctaviaState {
            pool_status: published(pool_samples(rows@)),
            total_pools: row_count(rows@.len()),
            ..state
        },
        Err(_) => state,
    }
}

/// The state after the amphora query: its series and their number, or no
/// change where the query failed.
pub open spec fn after_amphorae(state: OctaviaState, fetched: Result<Vec<Amphora>, FetchError>)
    -> OctaviaState {
    match fetched {
        Ok(rows) => OctaviaState {
            amphora_status: published(amphora_samples(rows@)),
            total_amphorae: row_count(rows@.len()),
            ..state
        },
        Err(_) => state,
    }
}

/// The state after the load balancer query: its series and their number, or
/// no change where the query failed.
pub open spec fn after_loadbalancers(
    state: OctaviaState,
    fetched: Result<Vec<(LoadBalancer, VirtualIp)>, FetchError>,
) -> OctaviaState {
    match fetched {
        Ok(rows) => OctaviaState {
            loadbalancer_status: published(loadbalancer_samples(rows@)),
            total_loadbalancers: row_count(rows@.len()),
            ..state
        },
        Err(_) => state,
    }
}

/// The state after one scrape. Without a connection nothing changes; with
/// one, each query changes its own metric and count, and nothing else.
pub open spec fn after_collect(state: OctaviaState, fetched: Result<OctaviaRows, FetchError>)
    -> OctaviaState {
    match fetched {
        Ok(rows) => after_loadbalancers(
            after_amphorae(after_pools(state, rows.pools), rows.amphorae),
            rows.loadbalancers,
        ),
        Err(_) => state,
    }
}

/// There was a connection and each of the three queries gave rows.
pub open spec fn all_fetched(fetched: Result<OctaviaRows, FetchError>) -> bool {
    match fetched {
        Ok(rows) => rows.pools is Ok && rows.amphorae is Ok && rows.loadbalancers is Ok,
        Err(_) => false,
    }
}

/// What the family of a gauge vector is expected to show, if its query gave
/// rows.
pub open spec fn shown_if(fetched: bool, shown: Shown) -> Seq<Shown> {
    if fetched {
        seq![shown]
    } else {
        Seq::empty()
    }
}

/// What the family of the pool metric shows.
pub open spec fn pool_status_shown(state: OctaviaState) -> Shown {
    Shown::Series {
        name: pool_status_name(),
        help: pool_status_help(),
        label_names: pool_status_labels(),
        children: state.pool_status,
    }
}

/// What the family of the amphora metric shows.
pub open spec fn amphora_status_shown(state: OctaviaState) -> Shown {
    Shown::Series {
        name: amphora_status_name(),
        help: amphora_status_help(),
        label_names: amphora_status_labels(),
        children: state.amphora_status,
    }
}

/// What the family of the load balancer metric shows.
pub open spec fn loadbalancer_status_shown(state: OctaviaState) -> Shown {
    Shown::Series {
        name: loadbalancer_status_name(),
        help: loadbalancer_status_help(),
        label_names: loadbalancer_status_labels(),
        children: state.loadbalancer_status,
    }
}

/// What the family of the count of amphorae shows.
pub open spec fn total_amphorae_shown(state: OctaviaState) -> Shown {
    Shown::Value {
        name: total_amphorae_name(),
        help: total_amphorae_help(),
        value: state.total_amphorae,
    }
}

/// What the family of the count of load balancers shows.
pub open spec fn total_loadbalancers_shown(state: OctaviaState) -> Shown {
    Shown::Value {
        name: total_loadbalancers_name(),
        help: total_loadbalancers_help(),
        value: state.total_loadbalancers,
    }
}

/// What the family of the count of pools shows.
pub open spec fn total_pools_shown(state: OctaviaState) -> Shown {
    Shown::Value { name: total_pools_name(), help: total_pools_help(), value: state.total_pools }
}

/// What the family of the `up` gauge shows.
pub open spec fn up_shown(state: OctaviaState) -> Shown {
    Shown::Value { name: up_name(), help: up_help(), value: state.up }
}

/// What the result of one scrape shows, given the state after it. Without a
/// connection it is the `up` gauge alone. With one, it is the metric of each
/// query that gave rows, then the three counts and the `up` gauge.
pub open spec fn collected(state: OctaviaState, fetched: Result<OctaviaRows, FetchError>) -> Seq<
    Shown,
> {
    match fetched {
        Ok(rows) => shown_if(rows.pools is Ok, pool_status_shown(state)) + shown_if(
            rows.amphorae is Ok,
            amphora_status_shown(state),
        ) + shown_if(rows.loadbalancers is Ok, loadbalancer_status_shown(state)) + seq![
            total_amphorae_shown(state),
            total_loadbalancers_shown(state),
            total_pools_shown(state),
            up_shown(state),
        ],
        Err(_) => seq![up_shown(state)],
    }
}

/// The names of the seven metrics, in the order in which they are described
/// and collected.
pub open spec fn metric_names() -> Seq<Seq<char>> {
    seq![
        pool_status_name(),
        amphora_status_name(),
        loadbalancer_status_name(),
        total_amphorae_name(),
        total_loadbalancers_name(),
        total_pools_name(),
        up_name(),
    ]
}

/// The help texts of the seven metrics, in the order of their names.
pub open spec fn metric_helps() -> Seq<Seq<char>> {
    seq![
        pool_status_help(),
        amphora_status_help(),
        loadbalancer_status_help(),
        total_amphorae_help(),
        total_loadbalancers_help(),
        total_pools_help(),
        up_help(),
    ]
}

/// The label names of the seven metrics, in the order of their names. The
/// counts and the `up` gauge have none.
pub open spec fn metric_labels() -> Seq<Seq<Seq<char>>> {
    seq![
        pool_status_labels(),
        amphora_status_labels(),
        loadbalancer_status_labels(),
        Seq::empty(),
        Seq::empty(),
        Seq::empty(),
        Seq::empty(),
    ]
}

/// What the seven metrics are made with, in the order of their names.
pub open spec fn metrics_described() -> Seq<Described> {
    Seq::new(
        7,
        |i: int|
            Described {
                name: metric_names()[i],
                help: metric_helps()[i],
                label_names: metric_labels()[i],
            },
    )
}

/// Publishes the status of pools, amphorae and load balancers, how many
/// there are of each, and that the collector is up.
pub struct OctaviaCollector {
    pool_status: GaugeVec,
    loadbalancer_status: GaugeVec,
    amphora_status: GaugeVec,
    total_amphorae: Gauge,
    total_loadbalancers: Gauge,
    total_pools: Gauge,
    up: Gauge,
}

impl View for OctaviaCollector {
    type V = OctaviaState;

    closed spec fn view(&self) -> OctaviaState {
        OctaviaState {
            pool_status: vec_children(self.pool_status),
            amphora_status: vec_children(self.amphora_status),
            loadbalancer_status: vec_children(self.loadbalancer_status),
            total_amphorae: gauge_value(self.total_amphorae),
            total_loadbalancers: gauge_value(self.total_loadbalancers),
            total_pools: gauge_value(self.total_pools),
            up: gauge_value(self.up),
        }
    }
}

fn new_pool_status() -> (gauges: GaugeVec)
    ensures
        vec_children(gauges) == no_children(),
        vec_name(gauges) == pool_status_name(),
        vec_help(gauges) == pool_status_help(),
        vec_label_names(gauges) == pool_status_labels(),
{
    let label_names = vec![
        "id",
        "provisioning_status",
        "name",
        "loadbalancers",
        "protocol",
        "lb_algorithm",
        "operating_status",
        "project_id",
    ];
    proof {
        reveal_strlit("openstack_loadbalancer_pool_status");
        reveal_strlit("pool_status");
        reveal_strlit("id");
        reveal_strlit("provisioning_status");
        reveal_strlit("name");
        reveal_strlit("loadbalancers");
        reveal_strlit("protocol");
        reveal_strlit("lb_algorithm");
        reveal_strlit("operating_status");
        reveal_strlit("project_id");
        let names = pool_status_labels();
        assert(names_of(label_names@) =~= names);
        assert(names[0].len() == 2 && names[1].len() == 19 && names[2].len() == 4);
        assert(names[3].len() == 13 && names[4].len() == 8 && names[5].len() == 12);
        assert(names[6].len() == 16 && names[7].len() == 10);
        assert(names.no_duplicates());
    }
    GaugeVec::create("openstack_loadbalancer_pool_status", "pool_status", &label_names)
}

fn new_amphora_status() -> (gauges: GaugeVec)
    ensures
        vec_children(gauges) == no_children(),
        vec_name(gauges) == amphora_status_name(),
        vec_help(gauges) == amphora_status_help(),
        vec_label_names(gauges) == amphora_status_labels(),
{
    let label_names = vec![
        "id",
        "loadbalancer_id",
        "compute_id",
        "status",
        "role",
        "lb_network_ip",
        "ha_ip",
        "cert_expiration",
    ];
    proof {
        reveal_strlit("openstack_loadbalancer_amphora_status");
        reveal_strlit("amphora_status");
        reveal_strlit("id");
        reveal_strlit("loadbalancer_id");
        reveal_strlit("compute_id");
        reveal_strlit("status");
        reveal_strlit("role");
        reveal_strlit("lb_network_ip");
        reveal_strlit("ha_ip");
        reveal_strlit("cert_expiration");
        let names = amphora_status_labels();
        assert(names_of(label_names@) =~= names);
        assert(names[0].len() == 2 && names[1].len() == 15 && names[2].len() == 10);
        assert(names[3].len() == 6 && names[4].len() == 4 && names[5].len() == 13);
        assert(names[6].len() == 5 && names[7].len() == 15);
        assert(names[1][0] != names[7][0]);
        assert(names.no_duplicates());
    }
    GaugeVec::create("openstack_loadbalancer_amphora_status", "amphora_status", &label_names)
}

fn new_loadbalancer_status() -> (gauges: GaugeVec)
    ensures
        vec_children(gauges) == no_children(),
        vec_name(gauges) == loadbalancer_status_name(),
        vec_help(gauges) == loadbalancer_status_help(),
        vec_label_names(gauges) == loadbalancer_status_labels(),
{
    let label_names = vec![
        "id",
        "name",
        "project_id",
        "operating_status",
        "provisioning_status",
        "provider",
        "vip_address",
    ];
    proof {
        reveal_strlit("openstack_loadbalancer_loadbalancer_status");
        reveal_strlit("loadbalancer_status");
        reveal_strlit("id");
        reveal_strlit("name");
        reveal_strlit("project_id");
        reveal_strlit("operating_status");
        reveal_strlit("provisioning_status");
        reveal_strlit("provider");
        reveal_strlit("vip_address");
        let names = loadbalancer_status_labels();
        assert(names_of(label_names@) =~= names);
        assert(names[0].len() == 2 && names[1].len() == 4 && names[2].len() == 10);
        assert(names[3].len() == 16 && names[4].len() == 19 && names[5].len() == 8);
        assert(names[6].len() == 11);
        assert(names.no_duplicates());
    }
    GaugeVec::create(
        "openstack_loadbalancer_loadbalancer_status",
        "loadbalancer_status",
        &label_names,
    )
}

fn new_total_amphorae() -> (gauge: Gauge)
    ensures
        gauge_value(gauge) == 0,
        gauge_name(gauge) == total_amphorae_name(),
        gauge_help(gauge) == total_amphorae_help(),
{
    proof {
        reveal_strlit("openstack_loadbalancer_total_amphorae");
        reveal_strlit("total_amphorae");
    }
    Gauge::create("openstack_loadbalancer_total_amphorae", "total_amphorae")
}

fn new_total_loadbalancers() -> (gauge: Gauge)
    ensures
        gauge_value(gauge) == 0,
        gauge_name(gauge) == total_loadbalancers_name(),
        gauge_help(gauge) == total_loadbalancers_help(),
{
    proof {
        reveal_strlit("openstack_loadbalancer_total_loadbalancers");
        reveal_strlit("total_loadbalancers");
    }
    Gauge::create("openstack_loadbalancer_total_loadbalancers", "total_loadbalancers")
}

fn new_total_pools() -> (gauge: Gauge)
    ensures
        gauge_value(gauge) == 0,
        gauge_name(gauge) == total_pools_name(),
        gauge_help(gauge) == total_pools_help(),
{
    proof {
        reveal_strlit("openstack_loadbalancer_total_pools");
        reveal_strlit("total_pools");
    }
    Gauge::create("openstack_loadbalancer_total_pools", "total_pools")
}

fn new_up() -> (gauge: Gauge)
    ensures
        gauge_value(gauge) == 0,
        gauge_name(gauge) == up_name(),
        gauge_help(gauge) == up_help(),
{
    proof {
        reveal_strlit("openstack_loadbalancer_up");
        reveal_strlit("up");
    }
    Gauge::create("openstack_loadbalancer_up", "up")
}

impl OctaviaCollector {
    /// What the seven metrics of the collector were made with, in the order
    /// of `metric_names`.
    pub closed spec fn described(self) -> Seq<Described> {
        seq![
            Described {
                name: vec_name(self.pool_status),
                help: vec_help(self.pool_status),
                label_names: vec_label_names(self.pool_status),
            },
            Described {
                name: vec_name(self.amphora_status),
                help: vec_help(self.amphora_status),
                label_names: vec_label_names(self.amphora_status),
            },
            Described {
                name: vec_name(self.loadbalancer_status),
                help: vec_help(self.loadbalancer_status),
                label_names: vec_label_names(self.loadbalancer_status),
            },
            Described {
                name: gauge_name(self.total_amphorae),
                help: gauge_help(self.total_amphorae),
                label_names: Seq::empty(),
            },
            Described {
                name: gauge_name(self.total_loadbalancers),
                help: gauge_help(self.total_loadbalancers),
                label_names: Seq::empty(),
            },
            Described {
                name: gauge_name(self.total_pools),
                help: gauge_help(self.total_pools),
                label_names: Seq::empty(),
            },
            Described {
                name: gauge_name(self.up),
                help: gauge_help(self.up),
                label_names: Seq::empty(),
            },
        ]
    }

    /// Each metric has the name, the help text and the label names that it
    /// is published under, and the `up` gauge reads 1.
    pub open spec fn wf(self) -> bool {
        &&& self.described() == metrics_described()
        &&& self@.up == 1
    }

    /// A collector that owns the seven metrics, each with its name, its help
    /// text and its label names. The three gauge vectors hold no series, the
    /// three counts are zero and the `up` gauge reads 1.
    pub fn new() -> (collector: Self)
        ensures
            collector.wf(),
            collector@ == (OctaviaState {
                pool_status: no_children(),
                amphora_status: no_children(),
                loadbalancer_status: no_children(),
                total_amphorae: 0,
                total_loadbalancers: 0,
                total_pools: 0,
                up: 1,
            }),
    {
        let pool_status = new_pool_status();
        let loadbalancer_status = new_loadbalancer_status();
        let amphora_status = new_amphora_status();
        let total_amphorae = new_total_amphorae();
        let total_loadbalancers = new_total_loadbalancers();
        let total_pools = new_total_pools();
        let mut up = new_up();
        up.set(1);
        let collector = OctaviaCollector {
            pool_status,
            loadbalancer_status,
            amphora_status,
            total_amphorae,
            total_loadbalancers,
            total_pools,
            up,
        };
        proof {
            assert(collector.described() =~= metrics_described());
        }
        collector
    }

    /// The descriptors of the seven metrics, in the order in which `collect`
    /// returns their families: of each its name, its help text and its label
    /// names.
    pub fn desc(&self) -> (descs: Vec<&prometheus::core::Desc>)
        requires
            self.wf(),
        ensures
            descs@.len() == 7,
            forall|i: int| 0 <= i < 7 ==> desc_name(*#[trigger] descs@[i]) == metric_names()[i],
            forall|i: int| 0 <= i < 7 ==> desc_help(*#[trigger] descs@[i]) == metric_helps()[i],
            forall|i: int|
                0 <= i < 7 ==> desc_label_names(*#[trigger] descs@[i]) == metric_labels()[i],
    {
        let mut descs = self.pool_status.descs();
        let mut more = self.amphora_status.descs();
        descs.append(&mut more);
        let mut more = self.loadbalancer_status.descs();
        descs.append(&mut more);
        let mut more = self.total_amphorae.descs();
        descs.append(&mut more);
        let mut more = self.total_loadbalancers.descs();
        descs.append(&mut more);
        let mut more = self.total_pools.descs();
        descs.append(&mut more);
        let mut more = self.up.descs();
        descs.append(&mut more);
        descs
    }

    /// The pool query's part of a scrape. Where it gave rows, the pool metric
    /// is cleared and holds their series afterwards, and the count of pools
    /// is their number. Where it failed, nothing changes.
    pub fn collect_pool_status(&mut self, fetched: &Result<Vec<Pool>, FetchError>)
        requires
            old(self).wf(),
        ensures
            final(self).wf(),
            final(self)@ == after_pools(old(self)@, *fetched),
            final(self)@.up == 1,
            *fetched is Ok ==> exact_readings(final(self)@.pool_status),
    {
        let rows = match fetched {
            Ok(rows) => rows,
            Err(_) => {
                return ;
            },
        };
        let mut series: Vec<Series> = Vec::new();
        let mut i: usize = 0;
        while i < rows.len()
            invariant
                i <= rows@.len(),
                series@.len() == i,
                forall|k: int| 0 <= k < i ==> (#[trigger] series@[k])@ == pool_sample(rows@[k]),
            decreases rows@.len() - i,
        {
            series.push(pool_series(&rows[i]));
            i += 1;
        }
        proof {
            assert(samples_of(series@) =~= pool_samples(rows@));
            lemma_published_readings_exact(samples_of(series@));
            assert forall|k: int| 0 <= k < series@.len() implies (
            #[trigger] series@[k]).labels@.len() == pool_status_labels().len() by {
                assert(series@[k]@.labels.len() == texts(series@[k].labels@).len());
            }
        }
        publish(&mut self.pool_status, &series);
        self.total_pools.set(count_value(rows.len()));
    }

    /// The amphora query's part of a scrape. Where it gave rows, the amphora
    /// metric is cleared and holds their series afterwards, and the count of
    /// amphorae is their number. Where it failed, nothing changes.
    pub fn collect_amphora_status(&mut self, fetched: &Result<Vec<Amphora>, FetchError>)
        requires
            old(self).wf(),
        ensures
            final(self).wf(),
            final(self)@ == after_amphorae(old(self)@, *fetched),
            final(self)@.up == 1,
            *fetched is Ok ==> exact_readings(final(self)@.amphora_status),
    {
        let rows = match fetched {
            Ok(rows) => rows,
            Err(_) => {
                return ;
            },
        };
        let mut series: Vec<Series> = Vec::new();
        let mut i: usize = 0;
        while i < rows.len()
            invariant
                i <= rows@.len(),
                series@.len() == i,
                forall|k: int|
                    0 <= k < i ==> (#[trigger] series@[k])@ == amphora_sample(rows@[k]),
            decreases rows@.len() - i,
        {
            let cert_expiration = expiry_label(&rows[i].cert_expiration);
            series.push(amphora_series(&rows[i], cert_expiration));
            i += 1;
        }
        proof {
            assert(samples_of(series@) =~= amphora_samples(rows@));
            lemma_published_readings_exact(samples_of(series@));
            assert forall|k: int| 0 <= k < series@.len() implies (
            #[trigger] series@[k]).labels@.len() == amphora_status_labels().len() by {
                assert(series@[k]@.labels.len() == texts(series@[k].labels@).len());
            }
        }
        publish(&mut self.amphora_status, &series);
        self.total_amphorae.set(count_value(rows.len()));
    }

    /// The load balancer query's part of a scrape. Where it gave rows, the
    /// load balancer metric is cleared and holds their series afterwards, and
    /// the count of load balancers is their number. Where it failed, nothing
    /// changes.
    pub fn collect_loadbalancer_status(
        &mut self,
        fetched: &Result<Vec<(LoadBalancer, VirtualIp)>, FetchError>,
    )
        requires
            old(self).wf(),
        ensures
            final(self).wf(),
            final(self)@ == after_loadbalancers(old(self)@, *fetched),
            final(self)@.up == 1,
            *fetched is Ok ==> exact_readings(final(self)@.loadbalancer_status),
    {
        let rows = match fetched {
            Ok(rows) => rows,
            Err(_) => {
                return ;
            },
        };
        let mut series: Vec<Series> = Vec::new();
        let mut i: usize = 0;
        while i < rows.len()
            invariant
                i <= rows@.len(),
                series@.len() == i,
                forall|k: int|
                    0 <= k < i ==> (#[trigger] series@[k])@ == loadbalancer_sample(
                        rows@[k].0,
                        rows@[k].1,
                    ),
            decreases rows@.len() - i,
        {
            series.push(loadbalancer_series(&rows[i].0, &rows[i].1));
            i += 1;
        }
        proof {
            assert(samples_of(series@) =~= loadbalancer_samples(rows@));
            lemma_published_readings_exact(samples_of(series@));
            assert forall|k: int| 0 <= k < series@.len() implies (
            #[trigger] series@[k]).labels@.len() == loadbalancer_status_labels().len() by {
                assert(series@[k]@.labels.len() == texts(series@[k].labels@).len());
            }
        }
        publish(&mut self.loadbalancer_status, &series);
        self.total_loadbalancers.set(count_value(rows.len()));
    }

    /// One scrape. Without a connection nothing changes, and the result is
    /// the family of the `up` gauge alone. With one, each query that gave
    /// rows replaces the series of its metric and sets its count, and each
    /// that failed leaves both as they were. The result then holds the family
    /// of each metric whose query gave rows, in the order pools, amphorae,
    /// load balancers, then the counts of amphorae, load balancers and pools,
    /// then the `up` gauge, which reads 1.
    pub fn collect(&mut self, fetched: &Result<OctaviaRows, FetchError>) -> (families: Vec<
        prometheus::proto::MetricFamily,
    >)
        requires
            old(self).wf(),
        ensures
            final(self).wf(),
            final(self)@ == after_collect(old(self)@, *fetched),
            final(self)@.up == 1,
            all_shown(families@, collected(final(self)@, *fetched)),
            all_fetched(*fetched) ==> families@.len() == METRICS_NUMBER,
    {
        let rows = match fetched {
            Ok(rows) => rows,
            Err(_) => {
                return self.up.families();
            },
        };
        self.collect_pool_status(&rows.pools);
        self.collect_amphora_status(&rows.amphorae);
        self.collect_loadbalancer_status(&rows.loadbalancers);

        let ghost state = self@;
        let mut families: Vec<prometheus::proto::MetricFamily> = Vec::new();
        let ghost mut shown: Seq<Shown> = Seq::empty();
        if rows.pools.is_ok() {
            let mut family = self.pool_status.families();
            proof {
                lemma_shown_in_turn(families@, shown, family@, seq![pool_status_shown(state)]);
                shown = shown + seq![pool_status_shown(state)];
            }
            families.append(&mut family);
        }
        if rows.amphorae.is_ok() {
            let mut family = self.amphora_status.families();
            proof {
                lemma_shown_in_turn(families@, shown, family@, seq![amphora_status_shown(state)]);
                shown = shown + seq![amphora_status_shown(state)];
            }
            families.append(&mut family);
        }
        if rows.loadbalancers.is_ok() {
            let mut family = self.loadbalancer_status.families();
            proof {
                lemma_shown_in_turn(
                    families@,
                    shown,
                    family@,
                    seq![loadbalancer_status_shown(state)],
                );
                shown = shown + seq![loadbalancer_status_shown(state)];
            }
            families.append(&mut family);
        }
        let mut family = self.total_amphorae.families();
        proof {
            lemma_shown_in_turn(families@, shown, family@, seq![total_amphorae_shown(state)]);
            shown = shown + seq![total_amphorae_shown(state)];
        }
        families.append(&mut family);
        let mut family = self.total_loadbalancers.families();
        proof {
            lemma_shown_in_turn(families@, shown, family@, seq![total_loadbalancers_shown(state)]);
            shown = shown + seq![total_loadbalancers_shown(state)];
        }
        families.append(&mut family);
        let mut family = self.total_pools.families();
        proof {
            lemma_shown_in_turn(families@, shown, family@, seq![total_pools_shown(state)]);
            shown = shown + seq![total_pools_shown(state)];
        }
        families.append(&mut family);
        let mut family = self.up.families();
        proof {
            lemma_shown_in_turn(families@, shown, family@, seq![up_shown(state)]);
            shown = shown + seq![up_shown(state)];
            assert(shown =~= collected(state, *fetched));
        }
        families.append(&mut family);
        families
    }
}

} // verus!
