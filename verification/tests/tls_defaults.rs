use kafka_crd::authorization::KafkaAuthorization;
use kafka_crd::tls;
use kafka_crd::tls::KafkaTls;
use kafka_crd::{
    ClusterOperation, KafkaCluster, KafkaClusterConfig, KafkaClusterSpec, ObjectMeta, ProductImage,
};

fn kafka_with_tls(tls: Option<KafkaTls>) -> KafkaCluster {
    KafkaCluster {
        metadata: ObjectMeta {
            name: Some("simple-kafka".to_string()),
            namespace: None,
        },
        spec: KafkaClusterSpec {
            image: ProductImage {
                product_version: "3.4.0".to_string(),
                stackable_version: Some("0.0.0-dev".to_string()),
            },
            brokers: None,
            cluster_config: KafkaClusterConfig {
                authentication: vec![],
                authorization: KafkaAuthorization { opa: None },
                tls,
                vector_aggregator_config_map_name: None,
                zookeeper_config_map_name: "xyz".to_string(),
            },
            cluster_operation: ClusterOperation {
                reconciliation_paused: false,
                stopped: false,
            },
        },
        status: None,
    }
}

fn get_server_secret_class(kafka: &KafkaCluster) -> Option<String> {
    kafka
        .spec
        .cluster_config
        .tls
        .as_ref()
        .and_then(|tls| tls.server_secret_class.clone())
}

fn get_internal_secret_class(kafka: &KafkaCluster) -> String {
    kafka
        .spec
        .cluster_config
        .tls
        .as_ref()
        .unwrap()
        .internal_secret_class
        .clone()
}

#[test]
fn test_client_tls() {
    // No TLS section: both scopes take their defaults.
    let kafka = kafka_with_tls(tls::default_kafka_tls());
    assert_eq!(get_server_secret_class(&kafka), tls::server_tls_default());
    assert_eq!(
        get_internal_secret_class(&kafka),
        tls::internal_tls_default()
    );

    // Only the server secret class given: internal keeps its default.
    let kafka = kafka_with_tls(Some(KafkaTls {
        server_secret_class: Some("simple-kafka-server-tls".to_string()),
        internal_secret_class: tls::internal_tls_default(),
    }));
    assert_eq!(
        get_server_secret_class(&kafka).unwrap(),
        "simple-kafka-server-tls".to_string()
    );
    assert_eq!(
        get_internal_secret_class(&kafka),
        tls::internal_tls_default()
    );

    // The server secret class set to nothing: client TLS is off, internal
    // keeps its default.
    let kafka = kafka_with_tls(Some(KafkaTls {
        server_secret_class: None,
        internal_secret_class: tls::internal_tls_default(),
    }));
    assert_eq!(get_server_secret_class(&kafka), None);
    assert_eq!(
        get_internal_secret_class(&kafka),
        tls::internal_tls_default()
    );

    // Only the internal secret class given: server keeps its default.
    let kafka = kafka_with_tls(Some(KafkaTls {
        server_secret_class: tls::server_tls_default(),
        internal_secret_class: "simple-kafka-internal-tls".to_string(),
    }));
    assert_eq!(get_server_secret_class(&kafka), tls::server_tls_default());
    assert_eq!(
        get_internal_secret_class(&kafka),
        "simple-kafka-internal-tls".to_string()
    );
}

#[test]
fn test_internal_tls() {
    // No TLS section: both scopes take their defaults.
    let kafka = kafka_with_tls(tls::default_kafka_tls());
    assert_eq!(get_server_secret_class(&kafka), tls::server_tls_default());
    assert_eq!(
        get_internal_secret_class(&kafka),
        tls::internal_tls_default()
    );

    // Only the internal secret class given: server keeps its default.
    let kafka = kafka_with_tls(Some(KafkaTls {
        server_secret_class: tls::server_tls_default(),
        internal_secret_class: "simple-kafka-internal-tls".to_string(),
    }));
    assert_eq!(get_server_secret_class(&kafka), tls::server_tls_default());
    assert_eq!(
        get_internal_secret_class(&kafka),
        "simple-kafka-internal-tls".to_string()
    );

    // Only the server secret class given: internal keeps its default.
    let kafka = kafka_with_tls(Some(KafkaTls {
        server_secret_class: Some("simple-kafka-server-tls".to_string()),
        internal_secret_class: tls::internal_tls_default(),
    }));
    assert_eq!(
        get_server_secret_class(&kafka),
        Some("simple-kafka-server-tls".to_string())
    );
    assert_eq!(
        get_internal_secret_class(&kafka),
        tls::internal_tls_default()
    );
}
