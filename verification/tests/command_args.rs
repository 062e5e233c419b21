use kafka_crd::affinity::StackableAffinity;
use kafka_crd::authorization::KafkaAuthorization;
use kafka_crd::command;
use kafka_crd::config::{
    CpuLimits, KafkaConfigFragment, LoggingFragment, MemoryLimits, PvcConfig, Resources, Storage,
};
use kafka_crd::tls::KafkaTls;
use kafka_crd::{
    ClusterOperation, KafkaCluster, KafkaClusterConfig, KafkaClusterSpec, ObjectMeta, ProductImage,
};

fn kafka(tls: Option<KafkaTls>, opa: Option<&str>) -> KafkaCluster {
    KafkaCluster {
        metadata: ObjectMeta {
            name: Some("simple-kafka".to_string()),
            namespace: Some("ns".to_string()),
        },
        spec: KafkaClusterSpec {
            image: ProductImage {
                product_version: "3.4.0".to_string(),
                stackable_version: None,
            },
            brokers: None,
            cluster_config: KafkaClusterConfig {
                authentication: vec![],
                authorization: KafkaAuthorization {
                    opa: opa.map(|name| kafka_crd::authorization::OpaConfig {
                        config_map_name: name.to_string(),
                        package: None,
                    }),
                },
                tls,
                vector_aggregator_config_map_name: None,
                zookeeper_config_map_name: "zk".to_string(),
            },
            cluster_operation: ClusterOperation {
                reconciliation_paused: false,
                stopped: false,
            },
        },
        status: None,
    }
}

fn client_tls() -> Option<KafkaTls> {
    Some(KafkaTls {
        server_secret_class: Some("tls".to_string()),
        internal_secret_class: "tls".to_string(),
    })
}

fn no_client_tls() -> Option<KafkaTls> {
    Some(KafkaTls {
        server_secret_class: None,
        internal_secret_class: "tls".to_string(),
    })
}

#[test]
fn chown_and_chmod_exact() {
    assert_eq!(
        command::chown_and_chmod("/stackable/data"),
        vec![
            "echo chown and chmod /stackable/data".to_string(),
            "chown -R stackable:stackable /stackable/data".to_string(),
            "chmod -R a=,u=rwX /stackable/data".to_string(),
        ]
    );
}

#[test]
fn create_key_and_trust_store_exact() {
    assert_eq!(
        command::create_key_and_trust_store("/d", "ca"),
        vec![
            "echo [/d] Creating truststore".to_string(),
            "keytool -importcert -file /d/ca.crt -keystore /d/truststore.p12 -storetype pkcs12 -noprompt -alias ca -storepass changeit".to_string(),
            "echo [/d] Creating certificate chain".to_string(),
            "cat /d/ca.crt /d/tls.crt > /d/chain.crt".to_string(),
            "echo [/d] Creating keystore".to_string(),
            "openssl pkcs12 -export -in /d/chain.crt -inkey /d/tls.key -out /d/keystore.p12 --passout pass:changeit".to_string(),
        ]
    );
}

#[test]
fn prepare_cmd_without_client_tls() {
    let args = command::prepare_container_cmd_args(&kafka(no_client_tls(), None));
    let parts: Vec<&str> = args.split(" && ").collect();
    assert_eq!(parts.len(), 7);
    assert!(parts[0].starts_with("keytool -importkeystore -srckeystore /etc/pki/java/cacerts"));
    assert_eq!(parts[1], "echo chown and chmod /stackable/data");
    assert_eq!(parts[4], "echo chown and chmod /stackable/tmp");
    assert!(!args.contains("Creating keystore"));
}

#[test]
fn prepare_cmd_with_client_tls() {
    let args = command::prepare_container_cmd_args(&kafka(client_tls(), None));
    let parts: Vec<&str> = args.split(" && ").collect();
    assert_eq!(parts.len(), 16);
    assert!(parts[1].starts_with("echo [/stackable/tls_certs] Creating truststore"));
    assert!(args.contains("openssl pkcs12 -export"));
    assert!(args.contains("chown -R stackable:stackable /stackable/tls_certs"));
}

#[test]
fn kcat_cmd_plain() {
    assert_eq!(
        command::kcat_container_cmd_args(&kafka(no_client_tls(), None)),
        vec![
            "kcat".to_string(),
            "-b".to_string(),
            "localhost:9092".to_string(),
            "-L".to_string(),
        ]
    );
}

#[test]
fn kcat_cmd_with_client_tls() {
    assert_eq!(
        command::kcat_container_cmd_args(&kafka(client_tls(), None)),
        vec![
            "kcat".to_string(),
            "-b".to_string(),
            "localhost:9093".to_string(),
            "-X".to_string(),
            "security.protocol=SSL".to_string(),
            "-X".to_string(),
            "ssl.keystore.location=/stackable/tls_certs/keystore.p12".to_string(),
            "-X".to_string(),
            "ssl.keystore.password=changeit".to_string(),
            "-X".to_string(),
            "ssl.truststore.location=/stackable/tls_certs/truststore.p12".to_string(),
            "-X".to_string(),
            "ssl.truststore.password=changeit".to_string(),
            "-L".to_string(),
        ]
    );
}

#[test]
fn compute_files_emits_authorizer_settings() {
    let fragment = KafkaConfigFragment {
        logging: LoggingFragment {
            enable_vector_agent: None,
            containers: None,
        },
        resources: Resources {
            cpu: CpuLimits {
                min: None,
                max: None,
            },
            memory: MemoryLimits { limit: None },
            storage: Storage {
                log_dirs: PvcConfig {
                    capacity: None,
                    storage_class: None,
                    selectors: None,
                },
            },
        },
        affinity: StackableAffinity {
            pod_affinity: None,
            pod_anti_affinity: None,
            node_affinity: None,
            node_selector: None,
        },
    };

    let with_opa = kafka(None, Some("opa-cm"));
    assert_eq!(
        fragment.compute_files(&with_opa, "broker", "server.properties"),
        vec![
            (
                "authorizer.class.name".to_string(),
                Some("org.openpolicyagent.kafka.OpaAuthorizer".to_string())
            ),
            (
                "opa.authorizer.metrics.enabled".to_string(),
                Some("true".to_string())
            ),
        ]
    );
    assert!(fragment
        .compute_files(&with_opa, "broker", "other.properties")
        .is_empty());
    let without_opa = kafka(None, None);
    assert!(fragment
        .compute_files(&without_opa, "broker", "server.properties")
        .is_empty());
    assert!(fragment.compute_env(&without_opa, "broker").is_empty());
    assert!(fragment.compute_cli(&without_opa, "broker").is_empty());
}
