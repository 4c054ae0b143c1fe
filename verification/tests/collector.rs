use openstack_exporter::neutron::collector::{Agent, HaRouterAgentPortBinding, NeutronCollector};
use openstack_exporter::nova::collector::{Instance, NovaCollector};
use openstack_exporter::nova_api::collector::{BuildRequest, NovaApiCollector};
use openstack_exporter::octavia::collector::{
    Amphora, LoadBalancer, OctaviaCollector, OctaviaRows, Pool, VirtualIp,
};
use openstack_exporter::time::Timestamp;
use openstack_exporter::{neutron, nova, nova_api, octavia};
use prometheus::TextEncoder;

fn timestamp(at: chrono::NaiveDateTime) -> Timestamp {
    let at = at.and_utc();
    Timestamp::from_unix(at.timestamp(), at.timestamp_subsec_nanos()).unwrap()
}

fn neutron_scenario() {
    let agent = || Agent {
        id: "ddbf087c-e38f-4a73-bcb3-c38f2a719a03".into(),
        host: "dev-os-ctrl-02".into(),
        admin_state_up: true,
        heartbeat_timestamp: timestamp(chrono::Utc::now().naive_utc()),
    };
    let rows = Ok(vec![
        (
            HaRouterAgentPortBinding {
                port_id: "f8a44de0-fc8e-45df-93c7-f79bf3b01c95".into(),
                router_id: "9daeb7dd-7e3f-4e44-8c42-c7a0e8c8a42f".into(),
                l3_agent_id: Some("ddbf087c-e38f-4a73-bcb3-c38f2a719a03".into()),
                state: "active".into(),
            },
            agent(),
        ),
        (
            HaRouterAgentPortBinding {
                port_id: "9135549f-07b7-4efd-9a81-3b71fc69b8f8".into(),
                router_id: "f8a44de0-fc8e-45df-93c7-f79bf3b01c95".into(),
                l3_agent_id: Some("ddbf087c-e38f-4a73-bcb3-c38f2a719a03".into()),
                state: "backup".into(),
            },
            agent(),
        ),
    ]);

    let mut collector = NeutronCollector::new();

    let mfs = collector.collect(&rows, timestamp(chrono::Utc::now().naive_utc()));
    assert_eq!(mfs.len(), neutron::collector::METRICS_NUMBER);

    let encoder = TextEncoder::new();
    assert_eq!(
        encoder.encode_to_string(&mfs).unwrap(),
        "# HELP openstack_neutron_l3_agent_of_router l3_agent_of_router\n\
         # TYPE openstack_neutron_l3_agent_of_router gauge\n\
         openstack_neutron_l3_agent_of_router{agent_admin_up=\"true\",agent_alive=\"true\",agent_host=\"dev-os-ctrl-02\",ha_state=\"backup\",l3_agent_id=\"ddbf087c-e38f-4a73-bcb3-c38f2a719a03\",router_id=\"f8a44de0-fc8e-45df-93c7-f79bf3b01c95\"} 1\n\
         openstack_neutron_l3_agent_of_router{agent_admin_up=\"true\",agent_alive=\"true\",agent_host=\"dev-os-ctrl-02\",ha_state=\"active\",l3_agent_id=\"ddbf087c-e38f-4a73-bcb3-c38f2a719a03\",router_id=\"9daeb7dd-7e3f-4e44-8c42-c7a0e8c8a42f\"} 1\n"
    );
}

fn nova_scenario() {
    let rows = Ok(vec![
        Instance {
            uuid: "ec2917d8-cbd4-49b2-b204-f2c0a81cbe3b".to_string(),
            task_state: None,
        },
        Instance {
            uuid: "f3e2e9b6-3b7d-4b1e-9e0d-0f6b3b3b1b1b".to_string(),
            task_state: Some("spawning".into()),
        },
    ]);

    let mut collector = NovaCollector::new();

    let mfs = collector.collect(&rows);
    assert_eq!(mfs.len(), nova::collector::METRICS_NUMBER);

    let encoder = TextEncoder::new();
    assert_eq!(
        encoder.encode_to_string(&mfs).unwrap(),
        "# HELP openstack_nova_server_task_state server_task_state\n\
         # TYPE openstack_nova_server_task_state gauge\n\
         openstack_nova_server_task_state{id=\"f3e2e9b6-3b7d-4b1e-9e0d-0f6b3b3b1b1b\",task_state=\"spawning\"} 1\n\
         openstack_nova_server_task_state{id=\"ec2917d8-cbd4-49b2-b204-f2c0a81cbe3b\",task_state=\"\"} 0\n"
    );
}

fn nova_api_scenario() {
    let rows = Ok(vec![
        BuildRequest {
            project_id: "ec2917d8-cbd4-49b2-b204-f2c0a81cbe3b".into(),
            instance_uuid: Some("f3e2e9b6-3b7d-4b1e-9e0d-0f6b3b3b1b1b".into()),
        },
        BuildRequest {
            project_id: "107b88ab-f104-4ac5-8032-302e8a621d46".into(),
            instance_uuid: Some("894cacd1-a432-4093-a0e7-cd29503205da".into()),
        },
    ]);

    let mut collector = NovaApiCollector::new();

    let mfs = collector.collect(&rows);
    assert_eq!(mfs.len(), nova_api::collector::METRICS_NUMBER);

    let encoder = TextEncoder::new();
    assert_eq!(
        encoder.encode_to_string(&mfs).unwrap(),
        "# HELP openstack_nova_api_build_request build_request\n\
         # TYPE openstack_nova_api_build_request gauge\n\
         openstack_nova_api_build_request{instance_uuid=\"f3e2e9b6-3b7d-4b1e-9e0d-0f6b3b3b1b1b\",project_id=\"ec2917d8-cbd4-49b2-b204-f2c0a81cbe3b\"} 1\n\
         openstack_nova_api_build_request{instance_uuid=\"894cacd1-a432-4093-a0e7-cd29503205da\",project_id=\"107b88ab-f104-4ac5-8032-302e8a621d46\"} 1\n"
    );
}

fn octavia_scenario() {
    let parse = |text: &str| {
        timestamp(chrono::NaiveDateTime::parse_from_str(text, "%Y-%m-%dT%H:%M:%SZ").unwrap())
    };
    let rows = Ok(OctaviaRows {
        pools: Ok(vec![Pool {
            project_id: Some("8b1632d90bfe407787d9996b7f662fd7".into()),
            id: "ca00ed86-94e3-440e-95c6-ffa35531081e".into(),
            name: Some("my_test_pool".into()),
            protocol: "TCP".into(),
            lb_algorithm: "ROUND_ROBIN".into(),
            operating_status: "ERROR".into(),
            load_balancer_id: Some("e7284bb2-f46a-42ca-8c9b-e08671255125".into()),
            provisioning_status: "ACTIVE".into(),
        }]),
        amphorae: Ok(vec![
            Amphora {
                id: "45f40289-0551-483a-b089-47214bc2a8a4".into(),
                compute_id: Some("667bb225-69aa-44b1-8908-694dc624c267".into()),
                status: "READY".into(),
                load_balancer_id: Some("882f2a9d-9d53-4bd0-b0e9-08e9d0de11f9".into()),
                lb_network_ip: Some("192.168.0.6".into()),
                ha_ip: Some("10.0.0.6".into()),
                role: Some("MASTER".into()),
                cert_expiration: Some(parse("2020-08-08T23:44:31Z")),
            },
            Amphora {
                id: "7f890893-ced0-46ed-8697-33415d070e5a".into(),
                compute_id: Some("9cd0f9a2-fe12-42fc-a7e3-5b6fbbe20395".into()),
                status: "READY".into(),
                load_balancer_id: Some("882f2a9d-9d53-4bd0-b0e9-08e9d0de11f9".into()),
                lb_network_ip: Some("192.168.0.17".into()),
                ha_ip: Some("10.0.0.6".into()),
                role: Some("BACKUP".into()),
                cert_expiration: Some(parse("2020-08-08T23:44:30Z")),
            },
        ]),
        loadbalancers: Ok(vec![(
            LoadBalancer {
                project_id: Some("e3cd678b11784734bc366148aa37580e".into()),
                id: "607226db-27ef-4d41-ae89-f2a800e9c2db".into(),
                name: Some("best_load_balancer".into()),
                provisioning_status: "ACTIVE".into(),
                operating_status: "ONLINE".into(),
                provider: Some("octavia".into()),
            },
            VirtualIp {
                load_balancer_id: "607226db-27ef-4d41-ae89-f2a800e9c2db".into(),
                ip_address: Some("203.0.113.50".into()),
            },
        )]),
    });

    let mut collector = OctaviaCollector::new();

    let mfs = collector.collect(&rows);
    assert_eq!(mfs.len(), octavia::collector::METRICS_NUMBER);

    let encoder = TextEncoder::new();
    assert_eq!(
        encoder.encode_to_string(&mfs).unwrap(),
        "# HELP openstack_loadbalancer_pool_status pool_status\n\
         # TYPE openstack_loadbalancer_pool_status gauge\n\
         openstack_loadbalancer_pool_status{id=\"ca00ed86-94e3-440e-95c6-ffa35531081e\",lb_algorithm=\"ROUND_ROBIN\",loadbalancers=\"e7284bb2-f46a-42ca-8c9b-e08671255125\",name=\"my_test_pool\",operating_status=\"ERROR\",project_id=\"8b1632d90bfe407787d9996b7f662fd7\",protocol=\"TCP\",provisioning_status=\"ACTIVE\"} 0\n\
         # HELP openstack_loadbalancer_amphora_status amphora_status\n\
         # TYPE openstack_loadbalancer_amphora_status gauge\n\
         openstack_loadbalancer_amphora_status{cert_expiration=\"2020-08-08T23:44:30Z\",compute_id=\"9cd0f9a2-fe12-42fc-a7e3-5b6fbbe20395\",ha_ip=\"10.0.0.6\",id=\"7f890893-ced0-46ed-8697-33415d070e5a\",lb_network_ip=\"192.168.0.17\",loadbalancer_id=\"882f2a9d-9d53-4bd0-b0e9-08e9d0de11f9\",role=\"BACKUP\",status=\"READY\"} 2\n\
         openstack_loadbalancer_amphora_status{cert_expiration=\"2020-08-08T23:44:31Z\",compute_id=\"667bb225-69aa-44b1-8908-694dc624c267\",ha_ip=\"10.0.0.6\",id=\"45f40289-0551-483a-b089-47214bc2a8a4\",lb_network_ip=\"192.168.0.6\",loadbalancer_id=\"882f2a9d-9d53-4bd0-b0e9-08e9d0de11f9\",role=\"MASTER\",status=\"READY\"} 2\n\
         # HELP openstack_loadbalancer_loadbalancer_status loadbalancer_status\n\
         # TYPE openstack_loadbalancer_loadbalancer_status gauge\n\
         openstack_loadbalancer_loadbalancer_status{id=\"607226db-27ef-4d41-ae89-f2a800e9c2db\",name=\"best_load_balancer\",operating_status=\"ONLINE\",project_id=\"e3cd678b11784734bc366148aa37580e\",provider=\"octavia\",provisioning_status=\"ACTIVE\",vip_address=\"203.0.113.50\"} 0\n\
         # HELP openstack_loadbalancer_total_amphorae total_amphorae\n\
         # TYPE openstack_loadbalancer_total_amphorae gauge\n\
         openstack_loadbalancer_total_amphorae 2\n\
         # HELP openstack_loadbalancer_total_loadbalancers total_loadbalancers\n\
         # TYPE openstack_loadbalancer_total_loadbalancers gauge\n\
         openstack_loadbalancer_total_loadbalancers 1\n\
         # HELP openstack_loadbalancer_total_pools total_pools\n\
         # TYPE openstack_loadbalancer_total_pools gauge\n\
         openstack_loadbalancer_total_pools 1\n\
         # HELP openstack_loadbalancer_up up\n\
         # TYPE openstack_loadbalancer_up gauge\n\
         openstack_loadbalancer_up 1\n"
    );
}

/// The four collectors, each on its own rows.
#[test]
fn collector_test_collector() {
    neutron_scenario();
    nova_scenario();
    nova_api_scenario();
    octavia_scenario();
}

#[test]
fn neutron_test_collector() {
    neutron_scenario();
}

#[test]
fn nova_test_collector() {
    nova_scenario();
}

#[test]
fn nova_api_test_collector() {
    nova_api_scenario();
}

#[test]
fn octavia_test_collector() {
    octavia_scenario();
}
