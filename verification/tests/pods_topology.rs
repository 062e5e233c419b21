use kafka_crd::authorization::KafkaAuthorization;
use kafka_crd::config::{
    CpuLimits, KafkaConfigFragment, LoggingFragment, MemoryLimits, PvcConfig, Quantity, Resources,
    Storage,
};
use kafka_crd::affinity::StackableAffinity;
use kafka_crd::listener::KafkaListenerName;
use kafka_crd::{
    ClusterCondition, ClusterOperation, Container, Error, KafkaCluster, KafkaClusterConfig,
    KafkaClusterSpec, KafkaClusterStatus, KafkaPodRef, KafkaRole, ObjectMeta, ProductImage, Role,
    RoleGroup, RoleGroupEntry,
};

fn empty_fragment() -> KafkaConfigFragment {
    KafkaConfigFragment {
        logging: LoggingFragment {
            enable_vector_agent: None,
            containers: None,
        },
        resources: Resources {
            cpu: CpuLimits {
                min: None,
                max: None,
            },
            memory: MemoryLimits { limit: None },
            storage: Storage {
                log_dirs: PvcConfig {
                    capacity: None,
                    storage_class: None,
                    selectors: None,
                },
            },
        },
        affinity: StackableAffinity {
            pod_affinity: None,
            pod_anti_affinity: None,
            node_affinity: None,
            node_selector: None,
        },
    }
}

fn group(name: &str, replicas: Option<u16>) -> RoleGroupEntry {
    RoleGroupEntry {
        name: name.to_string(),
        group: RoleGroup {
            config: empty_fragment(),
            replicas,
            selector: None,
        },
    }
}

fn cluster(namespace: Option<&str>, groups: Vec<RoleGroupEntry>) -> KafkaCluster {
    KafkaCluster {
        metadata: ObjectMeta {
            name: Some("simple-kafka".to_string()),
            namespace: namespace.map(|s| s.to_string()),
        },
        spec: KafkaClusterSpec {
            image: ProductImage {
                product_version: "3.4.0".to_string(),
                stackable_version: None,
            },
            brokers: Some(Role {
                config: empty_fragment(),
                role_groups: groups,
            }),
            cluster_config: KafkaClusterConfig {
                authentication: vec![],
                authorization: KafkaAuthorization { opa: None },
                tls: None,
                vector_aggregator_config_map_name: None,
                zookeeper_config_map_name: "zk".to_string(),
            },
            cluster_operation: ClusterOperation {
                reconciliation_paused: false,
                stopped: false,
            },
        },
        status: None,
    }
}

fn pod_names(pods: &[KafkaPodRef]) -> Vec<String> {
    pods.iter().map(|p| p.pod_name.clone()).collect()
}

#[test]
fn three_replicas_get_ordinals_zero_one_two() {
    // Scenario: the rolegroup asks for three replicas; exactly three pods
    // with ordinals 0, 1 and 2 are predicted.
    let kafka = cluster(Some("ns"), vec![group("default", Some(3))]);
    let pods = kafka.pods().unwrap();
    assert_eq!(pods.len(), 3);
    assert_eq!(
        pod_names(&pods),
        vec![
            "simple-kafka-broker-default-0".to_string(),
            "simple-kafka-broker-default-1".to_string(),
            "simple-kafka-broker-default-2".to_string(),
        ]
    );
    for pod in &pods {
        assert_eq!(pod.namespace, "ns");
        assert_eq!(pod.role_group_service_name, "simple-kafka-broker-default");
    }
}

#[test]
fn reordering_groups_keeps_ordinals() {
    let forward = cluster(
        Some("ns"),
        vec![group("alpha", Some(2)), group("beta", Some(1))],
    );
    let backward = cluster(
        Some("ns"),
        vec![group("beta", Some(1)), group("alpha", Some(2))],
    );
    assert_eq!(
        pod_names(&forward.pods().unwrap()),
        pod_names(&backward.pods().unwrap())
    );
}

#[test]
fn groups_are_enumerated_in_name_order() {
    let kafka = cluster(
        Some("ns"),
        vec![group("zeta", Some(1)), group("alpha", Some(1))],
    );
    assert_eq!(
        pod_names(&kafka.pods().unwrap()),
        vec![
            "simple-kafka-broker-alpha-0".to_string(),
            "simple-kafka-broker-zeta-0".to_string(),
        ]
    );
}

#[test]
fn missing_namespace_is_an_error() {
    let kafka = cluster(None, vec![group("default", Some(1))]);
    assert!(matches!(kafka.pods(), Err(Error::NoNamespace)));
}

#[test]
fn missing_replicas_means_no_pods() {
    let kafka = cluster(Some("ns"), vec![group("default", None)]);
    assert_eq!(kafka.pods().unwrap().len(), 0);
}

#[test]
fn two_digit_ordinals() {
    let kafka = cluster(Some("ns"), vec![group("g", Some(12))]);
    let pods = kafka.pods().unwrap();
    assert_eq!(pods.len(), 12);
    assert_eq!(pods[9].pod_name, "simple-kafka-broker-g-9");
    assert_eq!(pods[10].pod_name, "simple-kafka-broker-g-10");
    assert_eq!(pods[11].pod_name, "simple-kafka-broker-g-11");
}

#[test]
fn fqdn_joins_pod_service_and_namespace() {
    let pod = KafkaPodRef {
        namespace: "ns".to_string(),
        role_group_service_name: "simple-kafka-broker-default".to_string(),
        pod_name: "simple-kafka-broker-default-0".to_string(),
    };
    assert_eq!(
        pod.fqdn(),
        "simple-kafka-broker-default-0.simple-kafka-broker-default.ns.svc.cluster.local"
    );
}

#[test]
fn rolegroup_lookup_and_errors() {
    let kafka = cluster(Some("ns"), vec![group("default", Some(1))]);

    let rgr = kafka.broker_rolegroup_ref("default");
    assert_eq!(rgr.object_name(), "simple-kafka-broker-default");
    let found = kafka.rolegroup(&rgr).unwrap();
    assert_eq!(found.replicas, Some(1));

    let unknown_role = kafka_crd::RoleGroupRef {
        cluster: "simple-kafka".to_string(),
        role: "server".to_string(),
        role_group: "default".to_string(),
    };
    match kafka.rolegroup(&unknown_role) {
        Err(Error::UnknownKafkaRole { role, roles }) => {
            assert_eq!(role, "server");
            assert_eq!(roles, vec!["broker".to_string()]);
        }
        other => panic!("expected an unknown-role error, got {:?}", other),
    }

    let missing_group = kafka.broker_rolegroup_ref("other");
    match kafka.rolegroup(&missing_group) {
        Err(Error::CannotRetrieveKafkaRoleGroup { role_group }) => {
            assert_eq!(role_group, "other");
        }
        other => panic!("expected a missing-group error, got {:?}", other),
    }
}

#[test]
fn missing_role_is_an_error() {
    let mut kafka = cluster(Some("ns"), vec![]);
    kafka.spec.brokers = None;
    match kafka.role(&KafkaRole::Broker) {
        Err(Error::CannotRetrieveKafkaRole { role }) => assert_eq!(role, "broker"),
        other => panic!("expected a missing-role error, got {:?}", other),
    }
    let rgr = kafka.broker_rolegroup_ref("default");
    assert!(matches!(
        kafka.merged_config(&KafkaRole::Broker, &rgr),
        Err(Error::CannotRetrieveKafkaRole { .. })
    ));
}

#[test]
fn merged_config_resolves_three_layers() {
    let mut groups = vec![group("default", Some(3))];
    groups[0].group.config.resources.cpu.min = Some(Quantity("750m".to_string()));
    let mut kafka = cluster(Some("ns"), groups);
    if let Some(role) = &mut kafka.spec.brokers {
        role.config.resources.memory.limit = Some(Quantity("4Gi".to_string()));
    }
    let rgr = kafka.broker_rolegroup_ref("default");
    let merged = kafka.merged_config(&KafkaRole::Broker, &rgr).unwrap();
    // Rolegroup wins, role next, defaults fill the rest.
    assert_eq!(
        merged.resources.cpu.min,
        Some(Quantity("750m".to_string()))
    );
    assert_eq!(
        merged.resources.memory.limit,
        Some(Quantity("4Gi".to_string()))
    );
    assert_eq!(
        merged.resources.cpu.max,
        Some(Quantity("1000m".to_string()))
    );
    assert!(!merged.logging.enable_vector_agent);
    assert_eq!(merged.logging.containers.len(), 5);
}

#[test]
fn broker_role_service_name_is_cluster_name() {
    let kafka = cluster(Some("ns"), vec![]);
    assert_eq!(
        kafka.broker_role_service_name(),
        Some("simple-kafka".to_string())
    );
}

#[test]
fn nameless_cluster_has_empty_cluster_name() {
    let mut kafka = cluster(Some("ns"), vec![group("g", Some(1))]);
    kafka.metadata.name = None;
    assert_eq!(kafka.broker_role_service_name(), None);
    assert_eq!(kafka.name_any(), "");
    let pods = kafka.pods().unwrap();
    assert_eq!(pods[0].pod_name, "-broker-g-0");
}

#[test]
fn conditions_follow_recorded_status() {
    let mut kafka = cluster(Some("ns"), vec![]);
    assert!(kafka.conditions().is_empty());
    kafka.status = Some(KafkaClusterStatus {
        conditions: vec![ClusterCondition {
            condition_type: "Available".to_string(),
            status: "True".to_string(),
            message: None,
        }],
    });
    let conditions = kafka.conditions();
    assert_eq!(conditions.len(), 1);
    assert_eq!(conditions[0].condition_type, "Available");
    assert_eq!(conditions[0].status, "True");
}

#[test]
fn container_and_role_and_listener_names() {
    assert_eq!(KafkaRole::Broker.name(), "broker");
    assert_eq!(KafkaRole::roles(), vec!["broker".to_string()]);
    assert_eq!(Container::Prepare.name(), "prepare");
    assert_eq!(Container::KcatProber.name(), "kcat-prober");
    assert_eq!(KafkaListenerName::Client.name(), "CLIENT");
    assert_eq!(KafkaListenerName::ClientAuth.name(), "CLIENT_AUTH");
    assert_eq!(KafkaListenerName::Internal.name(), "INTERNAL");
}
