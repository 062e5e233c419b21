use kafka_crd::authentication::{
    AuthenticationClass, AuthenticationClassProvider, ResolvedAuthenticationClasses,
};
use kafka_crd::authorization::KafkaAuthorization;
use kafka_crd::{
    ClusterOperation, KafkaCluster, KafkaClusterConfig, KafkaClusterSpec, ObjectMeta, ProductImage,
};
use kafka_crd::listener::KafkaListenerConfig;
use kafka_crd::security;
use kafka_crd::security::{KafkaTlsSecurity, VolumeContent};

fn no_auth() -> ResolvedAuthenticationClasses {
    ResolvedAuthenticationClasses::new(vec![])
}

fn tls_auth(class_name: &str, override_class: Option<&str>) -> ResolvedAuthenticationClasses {
    ResolvedAuthenticationClasses::new(vec![AuthenticationClass {
        name: class_name.to_string(),
        provider: AuthenticationClassProvider::Tls {
            client_cert_secret_class: override_class.map(|s| s.to_string()),
        },
    }])
}

#[test]
fn ports_without_any_tls() {
    let security = KafkaTlsSecurity::new(no_auth(), "".to_string(), None);
    assert!(!security.tls_enabled());
    assert_eq!(security.client_port(), 9092);
    assert_eq!(security.client_port_name(), "kafka");
    assert_eq!(security.internal_port(), 19092);
    assert_eq!(security.tls_internal_secret_class(), None);
}

#[test]
fn ports_with_server_tls() {
    let security = KafkaTlsSecurity::new(no_auth(), "tls".to_string(), Some("tls".to_string()));
    assert!(security.tls_enabled());
    assert_eq!(security.client_port(), 9093);
    assert_eq!(security.client_port_name(), "kafka-tls");
    assert_eq!(security.internal_port(), 19093);
}

#[test]
fn client_tls_off_internal_on() {
    // Scenario: no server secret class, no authentication class, internal
    // secret class "tls": plain client port, secure internal port, and
    // only internal keystore keys in the emitted configuration.
    let security = KafkaTlsSecurity::new(no_auth(), "tls".to_string(), None);
    assert!(!security.tls_enabled());
    assert_eq!(security.client_port(), 9092);
    assert_eq!(security.internal_port(), 19093);

    let config = security.config_settings();
    let keys: Vec<&str> = config.iter().map(|(k, _)| k.as_str()).collect();
    assert!(keys.contains(&"listener.name.internal.ssl.keystore.location"));
    assert!(keys.contains(&"listener.name.internal.ssl.truststore.location"));
    assert!(keys.contains(&"inter.broker.listener.name"));
    for key in &keys {
        assert!(!key.starts_with("listener.name.client"));
    }
    assert_eq!(config.len(), 8);
}

#[test]
fn client_auth_override_governs_external_scope() {
    // Scenario: server secret class "s" and a TLS authentication class
    // with override "o": client authentication is required and the
    // external certificate material comes from "o", never from "s".
    let security = KafkaTlsSecurity::new(
        tls_auth("kafka-client-tls", Some("o")),
        "tls".to_string(),
        Some("s".to_string()),
    );
    let config = security.config_settings();
    assert!(config.contains(&(
        "listener.name.client_auth.ssl.client.auth".to_string(),
        "required".to_string()
    )));

    let volumes = security.volumes_needed();
    let mut external_secret_classes = vec![];
    for v in &volumes {
        if v.mount_path.contains("server") {
            if let VolumeContent::EphemeralSecret { secret_class, .. } = &v.content {
                external_secret_classes.push(secret_class.clone());
            }
        }
    }
    assert!(!external_secret_classes.is_empty());
    for sc in &external_secret_classes {
        assert_eq!(sc, "o");
    }
}

#[test]
fn auth_class_without_override_falls_back_to_server_class() {
    let security = KafkaTlsSecurity::new(
        tls_auth("kafka-client-tls", None),
        "tls".to_string(),
        Some("s".to_string()),
    );
    let volumes = security.volumes_needed();
    match &volumes[0].content {
        VolumeContent::EphemeralSecret { secret_class, .. } => assert_eq!(secret_class, "s"),
        VolumeContent::EmptyDir => panic!("expected a secret volume"),
    }
}

#[test]
fn internal_toggle_keeps_client_port() {
    // Toggling the internal secret class between empty and non-empty must
    // not change the client port.
    let on = KafkaTlsSecurity::new(no_auth(), "tls".to_string(), Some("tls".to_string()));
    let off = KafkaTlsSecurity::new(no_auth(), "".to_string(), Some("tls".to_string()));
    assert_eq!(on.client_port(), off.client_port());
    assert_eq!(on.client_port_name(), off.client_port_name());
    assert_ne!(on.internal_port(), off.internal_port());

    let plain_on = KafkaTlsSecurity::new(no_auth(), "tls".to_string(), None);
    let plain_off = KafkaTlsSecurity::new(no_auth(), "".to_string(), None);
    assert_eq!(plain_on.client_port(), plain_off.client_port());
    assert_eq!(plain_on.client_port(), 9092);
}

#[test]
fn config_settings_with_client_auth_has_no_plain_client_keys() {
    let security = KafkaTlsSecurity::new(
        tls_auth("kafka-client-tls", Some("o")),
        "tls".to_string(),
        Some("s".to_string()),
    );
    let config = security.config_settings();
    for (key, _) in &config {
        assert!(!key.starts_with("listener.name.client."));
    }
    assert!(config
        .iter()
        .any(|(k, _)| k.starts_with("listener.name.client_auth.")));
}

#[test]
fn config_settings_server_tls_exact() {
    let security = KafkaTlsSecurity::new(no_auth(), "tls".to_string(), Some("tls".to_string()));
    let config = security.config_settings();
    let expected: Vec<(String, String)> = vec![
        (
            "listener.name.client.ssl.keystore.location".to_string(),
            "/stackable/tls_keystore_server/keystore.p12".to_string(),
        ),
        (
            "listener.name.client.ssl.keystore.password".to_string(),
            "changeit".to_string(),
        ),
        (
            "listener.name.client.ssl.keystore.type".to_string(),
            "PKCS12".to_string(),
        ),
        (
            "listener.name.client.ssl.truststore.location".to_string(),
            "/stackable/tls_keystore_server/truststore.p12".to_string(),
        ),
        (
            "listener.name.client.ssl.truststore.password".to_string(),
            "changeit".to_string(),
        ),
        (
            "listener.name.client.ssl.truststore.type".to_string(),
            "PKCS12".to_string(),
        ),
        (
            "listener.name.internal.ssl.keystore.location".to_string(),
            "/stackable/tls_keystore_internal/keystore.p12".to_string(),
        ),
        (
            "listener.name.internal.ssl.keystore.password".to_string(),
            "changeit".to_string(),
        ),
        (
            "listener.name.internal.ssl.keystore.type".to_string(),
            "PKCS12".to_string(),
        ),
        (
            "listener.name.internal.ssl.truststore.location".to_string(),
            "/stackable/tls_keystore_internal/truststore.p12".to_string(),
        ),
        (
            "listener.name.internal.ssl.truststore.password".to_string(),
            "changeit".to_string(),
        ),
        (
            "listener.name.internal.ssl.truststore.type".to_string(),
            "PKCS12".to_string(),
        ),
        (
            "listener.name.internal.ssl.client.auth".to_string(),
            "required".to_string(),
        ),
        (
            "inter.broker.listener.name".to_string(),
            "INTERNAL".to_string(),
        ),
    ];
    assert_eq!(config, expected);
}

#[test]
fn svc_container_commands_interpolates_port_name() {
    let secure = KafkaTlsSecurity::new(no_auth(), "tls".to_string(), Some("tls".to_string()));
    assert_eq!(
        secure.svc_container_commands(),
        "kubectl get service \"$POD_NAME\" -o jsonpath='{.spec.ports[?(@.name==\"kafka-tls\")].nodePort}' | tee /stackable/tmp/kafka-tls_nodeport"
    );
    let plain = KafkaTlsSecurity::new(no_auth(), "tls".to_string(), None);
    assert_eq!(
        plain.svc_container_commands(),
        "kubectl get service \"$POD_NAME\" -o jsonpath='{.spec.ports[?(@.name==\"kafka\")].nodePort}' | tee /stackable/tmp/kafka_nodeport"
    );
}

#[test]
fn kcat_prober_plain() {
    let security = KafkaTlsSecurity::new(no_auth(), "".to_string(), None);
    assert_eq!(
        security.kcat_prober_container_commands(),
        vec![
            "/stackable/kcat".to_string(),
            "-b".to_string(),
            "localhost:9092".to_string(),
            "-L".to_string(),
        ]
    );
}

#[test]
fn kcat_prober_with_client_auth() {
    let security = KafkaTlsSecurity::new(tls_auth("c", Some("o")), "".to_string(), None);
    assert_eq!(
        security.kcat_prober_container_commands(),
        vec![
            "/stackable/kcat".to_string(),
            "-b".to_string(),
            "localhost:9093".to_string(),
            "-X".to_string(),
            "security.protocol=SSL".to_string(),
            "-X".to_string(),
            "ssl.key.location=/stackable/tls_cert_server_mount/tls.key".to_string(),
            "-X".to_string(),
            "ssl.certificate.location=/stackable/tls_cert_server_mount/tls.crt".to_string(),
            "-X".to_string(),
            "ssl.ca.location=/stackable/tls_cert_server_mount/ca.crt".to_string(),
            "-L".to_string(),
        ]
    );
}

#[test]
fn kcat_prober_with_server_tls() {
    let security = KafkaTlsSecurity::new(no_auth(), "".to_string(), Some("tls".to_string()));
    assert_eq!(
        security.kcat_prober_container_commands(),
        vec![
            "/stackable/kcat".to_string(),
            "-b".to_string(),
            "localhost:9093".to_string(),
            "-X".to_string(),
            "security.protocol=SSL".to_string(),
            "-X".to_string(),
            "ssl.ca.location=/stackable/tls_cert_server_mount/ca.crt".to_string(),
            "-L".to_string(),
        ]
    );
}

#[test]
fn prepare_args_order_and_scopes() {
    // Client authentication: no system truststore import, external scope
    // first, internal scope appended.
    let security = KafkaTlsSecurity::new(tls_auth("c", Some("o")), "tls".to_string(), None);
    let args = security.prepare_container_command_args();
    assert_eq!(args.len(), 8);
    assert!(args[0].contains("tls_keystore_server_mount/keystore.p12"));
    assert!(args[2].contains("tls_keystore_server_mount/truststore.p12"));
    assert!(args[4].contains("tls_keystore_internal_mount/keystore.p12"));
    assert!(args[6].contains("tls_keystore_internal_mount/truststore.p12"));
    for arg in &args {
        assert!(!arg.contains("/etc/pki/java/cacerts"));
    }

    // Server TLS without authentication: system trust first, then
    // keystore, then truststore.
    let security = KafkaTlsSecurity::new(no_auth(), "".to_string(), Some("tls".to_string()));
    let args = security.prepare_container_command_args();
    assert_eq!(args.len(), 6);
    assert!(args[0].contains("/etc/pki/java/cacerts"));
    assert!(args[2].contains("keystore.p12"));
    assert!(args[4].contains("truststore.p12"));

    // No TLS anywhere: nothing to prepare.
    let security = KafkaTlsSecurity::new(no_auth(), "".to_string(), None);
    assert!(security.prepare_container_command_args().is_empty());
}

#[test]
fn import_commands_exact() {
    assert_eq!(
        KafkaTlsSecurity::import_keystore("/src", "/dst"),
        vec![
            "echo Importing /src/keystore.p12 to /dst/keystore.p12".to_string(),
            "keytool -importkeystore -srckeystore /src/keystore.p12 -srcstoretype PKCS12 -srcstorepass \"\" -destkeystore /dst/keystore.p12 -deststoretype PKCS12 -deststorepass changeit -noprompt".to_string(),
        ]
    );
    assert_eq!(
        KafkaTlsSecurity::import_truststore("/src", "/dst"),
        vec![
            "echo Importing /src/truststore.p12 to /dst/truststore.p12".to_string(),
            "keytool -importkeystore -srckeystore /src/truststore.p12 -srcstoretype PKCS12 -srcstorepass \"\" -srcalias 1 -destkeystore /dst/truststore.p12 -deststoretype PKCS12 -deststorepass changeit -destalias $(cat /proc/sys/kernel/random/uuid) -noprompt".to_string(),
        ]
    );
    assert_eq!(
        KafkaTlsSecurity::import_system_truststore("/dst"),
        vec![
            "echo Importing /etc/pki/java/cacerts to /dst/truststore.p12".to_string(),
            "keytool -importkeystore -srckeystore /etc/pki/java/cacerts -srcstoretype jks -srcstorepass changeit -destkeystore /dst/truststore.p12 -deststoretype pkcs12 -deststorepass changeit -noprompt".to_string(),
        ]
    );
}

#[test]
fn kafka_container_commands_with_and_without_opa() {
    let security = KafkaTlsSecurity::new(no_auth(), "tls".to_string(), None);
    let listeners = KafkaListenerConfig {
        listeners: "CLIENT://0.0.0.0:9092".to_string(),
        advertised_listeners: "CLIENT://broker:9092".to_string(),
        listener_security_protocol_map: "CLIENT:PLAINTEXT".to_string(),
    };
    let with_opa = security.kafka_container_commands(&listeners, Some("http://opa:8081"));
    assert_eq!(
        with_opa,
        vec![
            "bin/kafka-server-start.sh".to_string(),
            "/stackable/config/server.properties".to_string(),
            "--override \"zookeeper.connect=$ZOOKEEPER\"".to_string(),
            "--override \"listeners=CLIENT://0.0.0.0:9092\"".to_string(),
            "--override \"advertised.listeners=CLIENT://broker:9092\"".to_string(),
            "--override \"listener.security.protocol.map=CLIENT:PLAINTEXT\"".to_string(),
            "--override \"opa.authorizer.url=http://opa:8081\"".to_string(),
        ]
    );
    let without_opa = security.kafka_container_commands(&listeners, None);
    assert_eq!(without_opa[6], "".to_string());
}

#[test]
fn volumes_for_internal_scope_only() {
    let security = KafkaTlsSecurity::new(no_auth(), "tls".to_string(), None);
    let volumes = security.volumes_needed();
    assert_eq!(volumes.len(), 3);
    assert_eq!(volumes[0].name, "tls-keystore-internal-mount");
    match &volumes[0].content {
        VolumeContent::EphemeralSecret {
            secret_class,
            pkcs12,
        } => {
            assert_eq!(secret_class, "tls");
            assert!(*pkcs12);
        }
        VolumeContent::EmptyDir => panic!("expected a secret volume"),
    }
    assert!(matches!(volumes[1].content, VolumeContent::EmptyDir));
    assert!(matches!(volumes[2].content, VolumeContent::EmptyDir));
}

#[test]
fn new_from_kafka_cluster_defaults_and_errors() {
    let kafka = KafkaCluster {
        metadata: ObjectMeta {
            name: Some("simple-kafka".to_string()),
            namespace: Some("ns".to_string()),
        },
        spec: KafkaClusterSpec {
            image: ProductImage {
                product_version: "3.4.0".to_string(),
                stackable_version: None,
            },
            brokers: None,
            cluster_config: KafkaClusterConfig {
                authentication: vec![],
                authorization: KafkaAuthorization { opa: None },
                tls: None,
                vector_aggregator_config_map_name: None,
                zookeeper_config_map_name: "zk".to_string(),
            },
            cluster_operation: ClusterOperation {
                reconciliation_paused: false,
                stopped: false,
            },
        },
        status: None,
    };

    // Without a TLS section the internal secret class takes its default
    // and no server secret class is set.
    let security = KafkaTlsSecurity::new_from_kafka_cluster(vec![], &kafka).unwrap();
    assert_eq!(security.internal_secret_class, "tls");
    assert_eq!(security.server_secret_class, None);
    assert!(!security.tls_enabled());

    // An ambiguous pair of TLS classes is rejected.
    let two_tls = vec![
        kafka_crd::authentication::AuthenticationClass {
            name: "a".to_string(),
            provider: AuthenticationClassProvider::Tls {
                client_cert_secret_class: None,
            },
        },
        kafka_crd::authentication::AuthenticationClass {
            name: "b".to_string(),
            provider: AuthenticationClassProvider::Tls {
                client_cert_secret_class: None,
            },
        },
    ];
    assert!(matches!(
        KafkaTlsSecurity::new_from_kafka_cluster(two_tls, &kafka),
        Err(security::Error::InvalidAuthenticationClassConfiguration { .. })
    ));
}

#[test]
fn port_constants() {
    assert_eq!(security::CLIENT_PORT, 9092);
    assert_eq!(security::SECURE_CLIENT_PORT, 9093);
    assert_eq!(security::INTERNAL_PORT, 19092);
    assert_eq!(security::SECURE_INTERNAL_PORT, 19093);
}
