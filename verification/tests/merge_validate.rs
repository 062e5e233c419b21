use kafka_crd::affinity::{LabelEntry, LabelSelector, LabelSelectorRequirement, StackableAffinity};
use kafka_crd::config::{
    ContainerLogConfig, ContainerLogConfigEntry, CpuLimits, KafkaConfig, KafkaConfigFragment,
    LogLevel, LoggingFragment, MemoryLimits, PvcConfig, Quantity, Resources, Storage,
};
use kafka_crd::{Container, Error, KafkaRole};

fn empty_affinity() -> StackableAffinity {
    StackableAffinity {
        pod_affinity: None,
        pod_anti_affinity: None,
        node_affinity: None,
        node_selector: None,
    }
}

fn empty_fragment() -> KafkaConfigFragment {
    KafkaConfigFragment {
        logging: LoggingFragment {
            enable_vector_agent: None,
            containers: None,
        },
        resources: Resources {
            cpu: CpuLimits {
                min: None,
                max: None,
            },
            memory: MemoryLimits { limit: None },
            storage: Storage {
                log_dirs: PvcConfig {
                    capacity: None,
                    storage_class: None,
                    selectors: None,
                },
            },
        },
        affinity: empty_affinity(),
    }
}

#[test]
fn defaults_set_every_required_field() {
    let defaults = KafkaConfig::default_config("simple-kafka", &KafkaRole::Broker);
    assert_eq!(defaults.logging.enable_vector_agent, Some(false));
    assert_eq!(defaults.logging.containers.as_ref().unwrap().len(), 5);
    assert_eq!(
        defaults.resources.cpu.min,
        Some(Quantity("250m".to_string()))
    );
    assert_eq!(
        defaults.resources.cpu.max,
        Some(Quantity("1000m".to_string()))
    );
    assert_eq!(
        defaults.resources.memory.limit,
        Some(Quantity("1Gi".to_string()))
    );
    assert_eq!(
        defaults.resources.storage.log_dirs.capacity,
        Some(Quantity("2Gi".to_string()))
    );
    let anti = defaults.affinity.pod_anti_affinity.as_ref().unwrap();
    assert_eq!(anti.len(), 1);
    assert_eq!(anti[0].weight, 70);
    assert_eq!(anti[0].topology_key, "kubernetes.io/hostname");
    assert_eq!(
        anti[0].match_labels[1].value,
        "simple-kafka".to_string()
    );
}

#[test]
fn merge_higher_layer_wins_on_set_fields() {
    let defaults = KafkaConfig::default_config("k", &KafkaRole::Broker);
    let mut role = empty_fragment();
    role.resources.cpu.min = Some(Quantity("500m".to_string()));
    role.resources.memory.limit = Some(Quantity("2Gi".to_string()));
    let mut rolegroup = empty_fragment();
    rolegroup.resources.cpu.min = Some(Quantity("750m".to_string()));

    role.merge(&defaults);
    rolegroup.merge(&role);

    // Rolegroup value when set, else role value, else default.
    assert_eq!(
        rolegroup.resources.cpu.min,
        Some(Quantity("750m".to_string()))
    );
    assert_eq!(
        rolegroup.resources.memory.limit,
        Some(Quantity("2Gi".to_string()))
    );
    assert_eq!(
        rolegroup.resources.cpu.max,
        Some(Quantity("1000m".to_string()))
    );
    assert_eq!(rolegroup.logging.enable_vector_agent, Some(false));
}

#[test]
fn merge_twice_is_a_no_op() {
    let defaults = KafkaConfig::default_config("k", &KafkaRole::Broker);
    let mut once = empty_fragment();
    once.resources.cpu.min = Some(Quantity("500m".to_string()));
    once.merge(&defaults);
    let mut twice = empty_fragment();
    twice.resources.cpu.min = Some(Quantity("500m".to_string()));
    twice.merge(&defaults);
    twice.merge(&defaults);
    assert_eq!(once, twice);
}

#[test]
fn validate_incomplete_fragment_fails() {
    let fragment = empty_fragment();
    match fragment.validate() {
        Err(Error::FragmentValidationFailure { field }) => {
            assert_eq!(field, "logging.enableVectorAgent");
        }
        other => panic!("expected a validation failure, got {:?}", other),
    }

    let mut with_logging = empty_fragment();
    with_logging.logging.enable_vector_agent = Some(true);
    match with_logging.validate() {
        Err(Error::FragmentValidationFailure { field }) => {
            assert_eq!(field, "logging.containers");
        }
        other => panic!("expected a validation failure, got {:?}", other),
    }
}

#[test]
fn validate_complete_fragment_succeeds() {
    let mut fragment = empty_fragment();
    fragment.logging.enable_vector_agent = Some(true);
    fragment.logging.containers = Some(vec![ContainerLogConfigEntry {
        container: Container::Kafka,
        log_config: ContainerLogConfig {
            level: LogLevel::Debug,
        },
    }]);
    let config = fragment.validate().unwrap();
    assert!(config.logging.enable_vector_agent);
    assert_eq!(config.logging.containers.len(), 1);
    assert_eq!(config.logging.containers[0].container, Container::Kafka);
}

#[test]
fn storage_builds_one_claim() {
    let storage = Storage {
        log_dirs: PvcConfig {
            capacity: Some(Quantity("2Gi".to_string())),
            storage_class: Some("fast".to_string()),
            selectors: None,
        },
    };
    let pvcs = storage.build_pvcs();
    assert_eq!(pvcs.len(), 1);
    assert_eq!(pvcs[0].name, "log-dirs");
    assert_eq!(pvcs[0].access_modes, vec!["ReadWriteOnce".to_string()]);
    assert_eq!(pvcs[0].config.capacity, Some(Quantity("2Gi".to_string())));
    assert_eq!(pvcs[0].config.storage_class, Some("fast".to_string()));
}

#[test]
fn legacy_selector_is_additive() {
    let mut affinity = empty_affinity();
    let selector = LabelSelector {
        match_labels: vec![LabelEntry {
            key: "kubernetes.io/arch".to_string(),
            value: "amd64".to_string(),
        }],
        match_expressions: vec![LabelSelectorRequirement {
            key: "zone".to_string(),
            operator: "In".to_string(),
            values: vec!["a".to_string(), "b".to_string()],
        }],
    };
    affinity.add_legacy_selector(&selector);
    assert_eq!(affinity.node_selector.as_ref().unwrap().len(), 1);
    assert_eq!(
        affinity.node_selector.as_ref().unwrap()[0].key,
        "kubernetes.io/arch"
    );
    assert_eq!(affinity.node_affinity.as_ref().unwrap().len(), 1);
    assert!(affinity.pod_affinity.is_none());
    assert!(affinity.pod_anti_affinity.is_none());

    // Applying it again appends; nothing already present is removed.
    affinity.add_legacy_selector(&selector);
    assert_eq!(affinity.node_selector.as_ref().unwrap().len(), 2);
    assert_eq!(affinity.node_affinity.as_ref().unwrap().len(), 2);
}

#[test]
fn empty_selector_changes_nothing() {
    let mut affinity = empty_affinity();
    let selector = LabelSelector {
        match_labels: vec![],
        match_expressions: vec![],
    };
    affinity.add_legacy_selector(&selector);
    assert!(affinity.node_selector.is_none());
    assert!(affinity.node_affinity.is_none());
}
