use openstack_exporter::octavia::collector::{
    amphora_series, expiry_label, loadbalancer_series, pool_series, Amphora, LoadBalancer,
    OctaviaCollector, OctaviaRows, Pool, VirtualIp,
};
use openstack_exporter::scrape::FetchError;
use openstack_exporter::time::Timestamp;
use prometheus::TextEncoder;

fn parse(text: &str) -> Timestamp {
    let parsed = chrono::NaiveDateTime::parse_from_str(text, "%Y-%m-%dT%H:%M:%SZ").unwrap();
    Timestamp::from_unix(parsed.and_utc().timestamp(), 0).unwrap()
}

fn loadbalancer() -> LoadBalancer {
    LoadBalancer {
        project_id: Some("e3cd678b11784734bc366148aa37580e".into()),
        id: "607226db-27ef-4d41-ae89-f2a800e9c2db".into(),
        name: Some("best_load_balancer".into()),
        provisioning_status: "ACTIVE".into(),
        operating_status: "ONLINE".into(),
        provider: Some("octavia".into()),
    }
}

fn pool() -> Pool {
    Pool {
        project_id: Some("8b1632d90bfe407787d9996b7f662fd7".into()),
        id: "ca00ed86-94e3-440e-95c6-ffa35531081e".into(),
        name: Some("my_test_pool".into()),
        protocol: "TCP".into(),
        lb_algorithm: "ROUND_ROBIN".into(),
        operating_status: "ERROR".into(),
        load_balancer_id: Some("e7284bb2-f46a-42ca-8c9b-e08671255125".into()),
        provisioning_status: "ACTIVE".into(),
    }
}

fn master() -> Amphora {
    Amphora {
        id: "45f40289-0551-483a-b089-47214bc2a8a4".into(),
        compute_id: Some("667bb225-69aa-44b1-8908-694dc624c267".into()),
        status: "READY".into(),
        load_balancer_id: Some("882f2a9d-9d53-4bd0-b0e9-08e9d0de11f9".into()),
        lb_network_ip: Some("192.168.0.6".into()),
        ha_ip: Some("10.0.0.6".into()),
        role: Some("MASTER".into()),
        cert_expiration: Some(parse("2020-08-08T23:44:31Z")),
    }
}

fn backup() -> Amphora {
    Amphora {
        id: "7f890893-ced0-46ed-8697-33415d070e5a".into(),
        compute_id: Some("9cd0f9a2-fe12-42fc-a7e3-5b6fbbe20395".into()),
        status: "READY".into(),
        load_balancer_id: Some("882f2a9d-9d53-4bd0-b0e9-08e9d0de11f9".into()),
        lb_network_ip: Some("192.168.0.17".into()),
        ha_ip: Some("10.0.0.6".into()),
        role: Some("BACKUP".into()),
        cert_expiration: Some(parse("2020-08-08T23:44:30Z")),
    }
}

fn vip() -> VirtualIp {
    VirtualIp {
        load_balancer_id: "607226db-27ef-4d41-ae89-f2a800e9c2db".into(),
        ip_address: Some("203.0.113.50".into()),
    }
}

fn all_rows() -> Result<OctaviaRows, FetchError> {
    Ok(OctaviaRows {
        pools: Ok(vec![pool()]),
        amphorae: Ok(vec![master(), backup()]),
        loadbalancers: Ok(vec![(loadbalancer(), vip())]),
    })
}

const POOL_STATUS: &str = "# HELP openstack_loadbalancer_pool_status pool_status\n\
     # TYPE openstack_loadbalancer_pool_status gauge\n\
     openstack_loadbalancer_pool_status{id=\"ca00ed86-94e3-440e-95c6-ffa35531081e\",lb_algorithm=\"ROUND_ROBIN\",loadbalancers=\"e7284bb2-f46a-42ca-8c9b-e08671255125\",name=\"my_test_pool\",operating_status=\"ERROR\",project_id=\"8b1632d90bfe407787d9996b7f662fd7\",protocol=\"TCP\",provisioning_status=\"ACTIVE\"} 0\n";

const AMPHORA_STATUS: &str = "# HELP openstack_loadbalancer_amphora_status amphora_status\n\
     # TYPE openstack_loadbalancer_amphora_status gauge\n\
     openstack_loadbalancer_amphora_status{cert_expiration=\"2020-08-08T23:44:30Z\",compute_id=\"9cd0f9a2-fe12-42fc-a7e3-5b6fbbe20395\",ha_ip=\"10.0.0.6\",id=\"7f890893-ced0-46ed-8697-33415d070e5a\",lb_network_ip=\"192.168.0.17\",loadbalancer_id=\"882f2a9d-9d53-4bd0-b0e9-08e9d0de11f9\",role=\"BACKUP\",status=\"READY\"} 2\n\
     openstack_loadbalancer_amphora_status{cert_expiration=\"2020-08-08T23:44:31Z\",compute_id=\"667bb225-69aa-44b1-8908-694dc624c267\",ha_ip=\"10.0.0.6\",id=\"45f40289-0551-483a-b089-47214bc2a8a4\",lb_network_ip=\"192.168.0.6\",loadbalancer_id=\"882f2a9d-9d53-4bd0-b0e9-08e9d0de11f9\",role=\"MASTER\",status=\"READY\"} 2\n";

const LOADBALANCER_STATUS: &str = "# HELP openstack_loadbalancer_loadbalancer_status loadbalancer_status\n\
     # TYPE openstack_loadbalancer_loadbalancer_status gauge\n\
     openstack_loadbalancer_loadbalancer_status{id=\"607226db-27ef-4d41-ae89-f2a800e9c2db\",name=\"best_load_balancer\",operating_status=\"ONLINE\",project_id=\"e3cd678b11784734bc366148aa37580e\",provider=\"octavia\",provisioning_status=\"ACTIVE\",vip_address=\"203.0.113.50\"} 0\n";

fn totals(amphorae: u32, loadbalancers: u32, pools: u32) -> String {
    format!(
        "# HELP openstack_loadbalancer_total_amphorae total_amphorae\n\
         # TYPE openstack_loadbalancer_total_amphorae gauge\n\
         openstack_loadbalancer_total_amphorae {amphorae}\n\
         # HELP openstack_loadbalancer_total_loadbalancers total_loadbalancers\n\
         # TYPE openstack_loadbalancer_total_loadbalancers gauge\n\
         openstack_loadbalancer_total_loadbalancers {loadbalancers}\n\
         # HELP openstack_loadbalancer_total_pools total_pools\n\
         # TYPE openstack_loadbalancer_total_pools gauge\n\
         openstack_loadbalancer_total_pools {pools}\n"
    )
}

const UP: &str = "# HELP openstack_loadbalancer_up up\n\
     # TYPE openstack_loadbalancer_up gauge\n\
     openstack_loadbalancer_up 1\n";

#[test]
fn pool_and_amphora_rows_never_reach_the_loadbalancer_metric() {
    let mut collector = OctaviaCollector::new();
    let mfs = collector.collect(&all_rows());
    let family = &mfs[2];
    assert_eq!(family.name(), "openstack_loadbalancer_loadbalancer_status");
    let text = TextEncoder::new()
        .encode_to_string(std::slice::from_ref(family))
        .unwrap();
    assert_eq!(text, LOADBALANCER_STATUS);
    assert!(!text.contains("e7284bb2-f46a-42ca-8c9b-e08671255125"));
    assert!(!text.contains("882f2a9d-9d53-4bd0-b0e9-08e9d0de11f9"));
}

#[test]
fn without_a_connection_only_up_is_returned() {
    let encoder = TextEncoder::new();
    let mut collector = OctaviaCollector::new();

    let mfs = collector.collect(&Err(FetchError::Connection));
    assert_eq!(encoder.encode_to_string(&mfs).unwrap(), UP);

    collector.collect(&all_rows());
    let mfs = collector.collect(&Err(FetchError::Connection));
    assert_eq!(encoder.encode_to_string(&mfs).unwrap(), UP);

    // What the metrics held is still there for the next scrape to replace.
    let mfs = collector.collect(&Ok(OctaviaRows {
        pools: Err(FetchError::Query),
        amphorae: Err(FetchError::Query),
        loadbalancers: Err(FetchError::Query),
    }));
    assert_eq!(
        encoder.encode_to_string(&mfs).unwrap(),
        format!("{}{}", totals(2, 1, 1), UP)
    );
}

#[test]
fn a_failed_query_leaves_out_its_metric_and_keeps_its_count() {
    let encoder = TextEncoder::new();
    let mut collector = OctaviaCollector::new();
    collector.collect(&all_rows());

    let mfs = collector.collect(&Ok(OctaviaRows {
        pools: Err(FetchError::Query),
        amphorae: Ok(vec![master()]),
        loadbalancers: Ok(vec![]),
    }));
    assert_eq!(mfs.len(), 6);
    assert_eq!(mfs[0].name(), "openstack_loadbalancer_amphora_status");
    assert_eq!(mfs[0].get_metric().len(), 1);
    assert_eq!(mfs[1].name(), "openstack_loadbalancer_loadbalancer_status");
    assert!(mfs[1].get_metric().is_empty());
    assert_eq!(
        encoder.encode_to_string(&mfs[2..]).unwrap(),
        format!("{}{}", totals(1, 0, 1), UP)
    );

    // The pool metric was not touched: the next good scrape of the other two
    // still finds it as the first scrape left it.
    let mfs = collector.collect(&Ok(OctaviaRows {
        pools: Err(FetchError::Query),
        amphorae: Err(FetchError::Query),
        loadbalancers: Err(FetchError::Query),
    }));
    assert_eq!(mfs.len(), 4);
    let mut again = OctaviaCollector::new();
    again.collect_pool_status(&Ok(vec![pool()]));
    again.collect_pool_status(&Err(FetchError::Query));
    let mfs = again.collect(&Ok(OctaviaRows {
        pools: Ok(vec![pool()]),
        amphorae: Err(FetchError::Query),
        loadbalancers: Err(FetchError::Query),
    }));
    assert_eq!(
        encoder.encode_to_string(&mfs).unwrap(),
        format!("{}{}{}", POOL_STATUS, totals(0, 0, 1), UP)
    );
}

#[test]
fn rows_that_are_gone_leave_no_series_behind() {
    let encoder = TextEncoder::new();
    let mut collector = OctaviaCollector::new();
    collector.collect(&all_rows());

    let mfs = collector.collect(&Ok(OctaviaRows {
        pools: Ok(vec![pool()]),
        amphorae: Ok(vec![master()]),
        loadbalancers: Ok(vec![(loadbalancer(), vip())]),
    }));
    let text = encoder.encode_to_string(&mfs).unwrap();
    assert!(text.contains("45f40289-0551-483a-b089-47214bc2a8a4"));
    assert!(!text.contains("7f890893-ced0-46ed-8697-33415d070e5a"));
    assert!(text.contains("openstack_loadbalancer_total_amphorae 1\n"));
}

#[test]
fn the_parts_of_a_scrape_work_alone() {
    let encoder = TextEncoder::new();
    let mut collector = OctaviaCollector::new();
    collector.collect_amphora_status(&Ok(vec![master(), backup()]));
    collector.collect_loadbalancer_status(&Ok(vec![(loadbalancer(), vip())]));
    collector.collect_pool_status(&Ok(vec![pool()]));
    collector.collect_amphora_status(&Err(FetchError::Query));
    let mfs = collector.collect(&Ok(OctaviaRows {
        pools: Ok(vec![pool()]),
        amphorae: Ok(vec![master(), backup()]),
        loadbalancers: Ok(vec![(loadbalancer(), vip())]),
    }));
    assert_eq!(
        encoder.encode_to_string(&mfs).unwrap(),
        format!(
            "{}{}{}{}{}",
            POOL_STATUS,
            AMPHORA_STATUS,
            LOADBALANCER_STATUS,
            totals(2, 1, 1),
            UP
        )
    );
}

#[test]
fn absent_pool_fields_are_empty_labels() {
    let series = pool_series(&Pool {
        project_id: None,
        id: "p".into(),
        name: None,
        protocol: "HTTP".into(),
        lb_algorithm: "LEAST_CONNECTIONS".into(),
        operating_status: "ONLINE".into(),
        load_balancer_id: None,
        provisioning_status: "PENDING_UPDATE".into(),
    });
    assert_eq!(
        series.labels,
        vec!["p", "PENDING_UPDATE", "", "", "HTTP", "LEAST_CONNECTIONS", "ONLINE", ""]
    );
    assert_eq!(series.value, 4);
}

#[test]
fn absent_amphora_fields_are_empty_labels() {
    let bare = Amphora {
        id: "a".into(),
        compute_id: None,
        status: "NOT_A_STATUS".into(),
        load_balancer_id: None,
        lb_network_ip: None,
        ha_ip: None,
        role: None,
        cert_expiration: None,
    };
    assert_eq!(expiry_label(&bare.cert_expiration), "");
    let series = amphora_series(&bare, expiry_label(&bare.cert_expiration));
    assert_eq!(
        series.labels,
        vec!["a", "", "", "NOT_A_STATUS", "", "", "", ""]
    );
    assert_eq!(series.value, -1);

    let mut collector = OctaviaCollector::new();
    let mfs = collector.collect(&Ok(OctaviaRows {
        pools: Err(FetchError::Query),
        amphorae: Ok(vec![bare]),
        loadbalancers: Err(FetchError::Query),
    }));
    let text = TextEncoder::new().encode_to_string(&mfs[..1]).unwrap();
    assert_eq!(
        text,
        "# HELP openstack_loadbalancer_amphora_status amphora_status\n\
         # TYPE openstack_loadbalancer_amphora_status gauge\n\
         openstack_loadbalancer_amphora_status{cert_expiration=\"\",compute_id=\"\",ha_ip=\"\",id=\"a\",lb_network_ip=\"\",loadbalancer_id=\"\",role=\"\",status=\"NOT_A_STATUS\"} -1\n"
    );
}

#[test]
fn amphora_series_takes_the_expiry_as_it_is_given() {
    let series = amphora_series(&master(), "2020-08-08T23:44:31Z".to_string());
    assert_eq!(
        series.labels,
        vec![
            "45f40289-0551-483a-b089-47214bc2a8a4",
            "882f2a9d-9d53-4bd0-b0e9-08e9d0de11f9",
            "667bb225-69aa-44b1-8908-694dc624c267",
            "READY",
            "MASTER",
            "192.168.0.6",
            "10.0.0.6",
            "2020-08-08T23:44:31Z"
        ]
    );
    assert_eq!(series.value, 2);
    assert_eq!(
        expiry_label(&master().cert_expiration),
        "2020-08-08T23:44:31Z"
    );
}

#[test]
fn absent_loadbalancer_fields_are_empty_labels() {
    let series = loadbalancer_series(
        &LoadBalancer {
            project_id: None,
            id: "lb".into(),
            name: None,
            provisioning_status: "ACTIVE".into(),
            operating_status: "NO_MONITOR".into(),
            provider: None,
        },
        &VirtualIp {
            load_balancer_id: "lb".into(),
            ip_address: None,
        },
    );
    assert_eq!(
        series.labels,
        vec!["lb", "", "", "NO_MONITOR", "ACTIVE", "", ""]
    );
    assert_eq!(series.value, 4);
}

#[test]
fn octavia_descriptors_name_the_seven_metrics() {
    let collector = OctaviaCollector::new();
    let descs = collector.desc();
    let names: Vec<&str> = descs.iter().map(|desc| desc.fq_name.as_str()).collect();
    assert_eq!(
        names,
        vec![
            "openstack_loadbalancer_pool_status",
            "openstack_loadbalancer_amphora_status",
            "openstack_loadbalancer_loadbalancer_status",
            "openstack_loadbalancer_total_amphorae",
            "openstack_loadbalancer_total_loadbalancers",
            "openstack_loadbalancer_total_pools",
            "openstack_loadbalancer_up",
        ]
    );
    assert_eq!(
        descs[0].variable_labels,
        vec![
            "id",
            "provisioning_status",
            "name",
            "loadbalancers",
            "protocol",
            "lb_algorithm",
            "operating_status",
            "project_id"
        ]
    );
    assert_eq!(
        descs[1].variable_labels,
        vec![
            "id",
            "loadbalancer_id",
            "compute_id",
            "status",
            "role",
            "lb_network_ip",
            "ha_ip",
            "cert_expiration"
        ]
    );
    assert_eq!(
        descs[2].variable_labels,
        vec![
            "id",
            "name",
            "project_id",
            "operating_status",
            "provisioning_status",
            "provider",
            "vip_address"
        ]
    );
    for desc in &descs[3..] {
        assert!(desc.variable_labels.is_empty());
    }
    let helps: Vec<&str> = descs.iter().map(|desc| desc.help.as_str()).collect();
    assert_eq!(
        helps,
        vec![
            "pool_status",
            "amphora_status",
            "loadbalancer_status",
            "total_amphorae",
            "total_loadbalancers",
            "total_pools",
            "up",
        ]
    );
}

#[test]
fn a_new_collector_is_up_and_counts_nothing() {
    let mut collector = OctaviaCollector::new();
    let mfs = collector.collect(&Ok(OctaviaRows {
        pools: Err(FetchError::Query),
        amphorae: Err(FetchError::Query),
        loadbalancers: Err(FetchError::Query),
    }));
    assert_eq!(
        TextEncoder::new().encode_to_string(&mfs).unwrap(),
        format!("{}{}", totals(0, 0, 0), UP)
    );
}
