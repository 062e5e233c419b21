//! Transport-security resolution for the broker cluster.
//!
//! [`KafkaTlsSecurity`] combines the cluster's TLS settings with the
//! resolved authentication classes and derives every downstream fact:
//! which ports and listener names are active, which secret class feeds the
//! client-facing keystore, the certificate-materialization command
//! sequences for the init container, and the broker configuration
//! properties.

use crate::authentication::{
    AuthenticationClass, AuthenticationClassProvider, ResolvedAuthenticationClasses,
    spec_first_tls, spec_first_unsupported, spec_provider_name, spec_scan_multiple_tls,
    spec_tls_count,
};
use crate::listener::{KafkaListenerConfig, KafkaListenerName, spec_listener_name};
use crate::strings::{spec_dec_digits, u16_dec};
use crate::{Container, KafkaCluster, SERVER_PROPERTIES_FILE, STACKABLE_CONFIG_DIR, STACKABLE_TMP_DIR};
use vstd::prelude::*;

verus! {

// Client listener ports: the secure pair applies when client-facing TLS is
// active, the plain pair otherwise.
pub const CLIENT_PORT_NAME: &'static str = "kafka";

pub const CLIENT_PORT: u16 = 9092;

pub const SECURE_CLIENT_PORT_NAME: &'static str = "kafka-tls";

pub const SECURE_CLIENT_PORT: u16 = 9093;

// Broker-to-broker ports.
pub const INTERNAL_PORT: u16 = 19092;

pub const SECURE_INTERNAL_PORT: u16 = 19093;

/// Well-known store password: not a secret, it only satisfies tooling that
/// refuses password-less stores.
pub const SSL_STORE_PASSWORD: &'static str = "changeit";

// Broker properties for the plain client listener.
pub const CLIENT_SSL_KEYSTORE_LOCATION: &'static str = "listener.name.client.ssl.keystore.location";

pub const CLIENT_SSL_KEYSTORE_PASSWORD: &'static str = "listener.name.client.ssl.keystore.password";

pub const CLIENT_SSL_KEYSTORE_TYPE: &'static str = "listener.name.client.ssl.keystore.type";

pub const CLIENT_SSL_TRUSTSTORE_LOCATION: &'static str =
    "listener.name.client.ssl.truststore.location";

pub const CLIENT_SSL_TRUSTSTORE_PASSWORD: &'static str =
    "listener.name.client.ssl.truststore.password";

pub const CLIENT_SSL_TRUSTSTORE_TYPE: &'static str = "listener.name.client.ssl.truststore.type";

// Broker properties for the authenticating client listener.
pub const CLIENT_AUTH_SSL_KEYSTORE_LOCATION: &'static str =
    "listener.name.client_auth.ssl.keystore.location";

pub const CLIENT_AUTH_SSL_KEYSTORE_PASSWORD: &'static str =
    "listener.name.client_auth.ssl.keystore.password";

pub const CLIENT_AUTH_SSL_KEYSTORE_TYPE: &'static str =
    "listener.name.client_auth.ssl.keystore.type";

pub const CLIENT_AUTH_SSL_TRUSTSTORE_LOCATION: &'static str =
    "listener.name.client_auth.ssl.truststore.location";

pub const CLIENT_AUTH_SSL_TRUSTSTORE_PASSWORD: &'static str =
    "listener.name.client_auth.ssl.truststore.password";

pub const CLIENT_AUTH_SSL_TRUSTSTORE_TYPE: &'static str =
    "listener.name.client_auth.ssl.truststore.type";

pub const CLIENT_AUTH_SSL_CLIENT_AUTH: &'static str = "listener.name.client_auth.ssl.client.auth";

// Broker properties for the internal listener.
pub const INTER_BROKER_LISTENER_NAME: &'static str = "inter.broker.listener.name";

pub const INTER_SSL_KEYSTORE_LOCATION: &'static str = "listener.name.internal.ssl.keystore.location";

pub const INTER_SSL_KEYSTORE_PASSWORD: &'static str = "listener.name.internal.ssl.keystore.password";

pub const INTER_SSL_KEYSTORE_TYPE: &'static str = "listener.name.internal.ssl.keystore.type";

pub const INTER_SSL_TRUSTSTORE_LOCATION: &'static str =
    "listener.name.internal.ssl.truststore.location";

pub const INTER_SSL_TRUSTSTORE_PASSWORD: &'static str =
    "listener.name.internal.ssl.truststore.password";

pub const INTER_SSL_TRUSTSTORE_TYPE: &'static str = "listener.name.internal.ssl.truststore.type";

pub const INTER_SSL_CLIENT_AUTH: &'static str = "listener.name.internal.ssl.client.auth";

/// The image's system truststore.
pub const SYSTEM_TRUST_STORE_DIR: &'static str = "/etc/pki/java/cacerts";

// Mount paths and volume names for certificate material.
pub const STACKABLE_TLS_CERT_SERVER_MOUNT_DIR: &'static str = "/stackable/tls_cert_server_mount";

pub const STACKABLE_TLS_CERT_SERVER_MOUNT_DIR_NAME: &'static str = "tls-cert-server-mount";

pub const STACKABLE_TLS_KEYSTORE_SERVER_MOUNT_DIR: &'static str =
    "/stackable/tls_keystore_server_mount";

pub const STACKABLE_TLS_KEYSTORE_SERVER_MOUNT_DIR_NAME: &'static str = "tls-keystore-server-mount";

pub const STACKABLE_TLS_KEYSTORE_SERVER_DIR: &'static str = "/stackable/tls_keystore_server";

pub const STACKABLE_TLS_KEYSTORE_SERVER_DIR_NAME: &'static str = "tls-keystore-server";

pub const STACKABLE_TLS_KEYSTORE_INTERNAL_MOUNT_DIR: &'static str =
    "/stackable/tls_keystore_internal_mount";

pub const STACKABLE_TLS_KEYSTORE_INTERNAL_MOUNT_DIR_NAME: &'static str =
    "tls-keystore-internal-mount";

pub const STACKABLE_TLS_KEYSTORE_INTERNAL_DIR: &'static str = "/stackable/tls_keystore_internal";

pub const STACKABLE_TLS_KEYSTORE_INTERNAL_DIR_NAME: &'static str = "tls-keystore-internal";

/// The path of the password-protected keystore under a directory.
pub open spec fn spec_keystore_path(dir: Seq<char>) -> Seq<char> {
    dir + "/keystore.p12"@
}

/// The path of the password-protected truststore under a directory.
pub open spec fn spec_truststore_path(dir: Seq<char>) -> Seq<char> {
    dir + "/truststore.p12"@
}

/// The two commands that convert a secret-provider-issued, password-less
/// keystore into a password-protected keystore in a writable directory.
pub open spec fn spec_import_keystore_cmds(src: Seq<char>, dst: Seq<char>) -> Seq<Seq<char>> {
    seq![
        "echo Importing "@ + src + "/keystore.p12 to "@ + dst + "/keystore.p12"@,
        "keytool -importkeystore -srckeystore "@ + src
            + "/keystore.p12 -srcstoretype PKCS12 -srcstorepass \"\" -destkeystore "@ + dst
            + "/keystore.p12 -deststoretype PKCS12 -deststorepass "@ + SSL_STORE_PASSWORD@
            + " -noprompt"@,
    ]
}

/// The two commands that convert a secret-provider-issued, password-less
/// truststore into a password-protected truststore in a writable
/// directory. The destination entry gets a fresh alias so that several
/// truststores can later be merged without alias collisions.
pub open spec fn spec_import_truststore_cmds(src: Seq<char>, dst: Seq<char>) -> Seq<Seq<char>> {
    seq![
        "echo Importing "@ + src + "/truststore.p12 to "@ + dst + "/truststore.p12"@,
        "keytool -importkeystore -srckeystore "@ + src
            + "/truststore.p12 -srcstoretype PKCS12 -srcstorepass \"\" -srcalias 1 -destkeystore "@
            + dst + "/truststore.p12 -deststoretype PKCS12 -deststorepass "@ + SSL_STORE_PASSWORD@
            + " -destalias $(cat /proc/sys/kernel/random/uuid) -noprompt"@,
    ]
}

/// The two commands that copy the system truststore into a
/// password-protected truststore in a writable directory.
pub open spec fn spec_import_system_truststore_cmds(dst: Seq<char>) -> Seq<Seq<char>> {
    seq![
        "echo Importing "@ + SYSTEM_TRUST_STORE_DIR@ + " to "@ + dst + "/truststore.p12"@,
        "keytool -importkeystore -srckeystore "@ + SYSTEM_TRUST_STORE_DIR@
            + " -srcstoretype jks -srcstorepass "@ + SSL_STORE_PASSWORD@ + " -destkeystore "@ + dst
            + "/truststore.p12 -deststoretype pkcs12 -deststorepass "@ + SSL_STORE_PASSWORD@
            + " -noprompt"@,
    ]
}

/// The kcat arguments for probing the authenticating client listener.
pub open spec fn spec_kcat_client_auth_ssl(cert_directory: Seq<char>) -> Seq<Seq<char>> {
    seq![
        "-X"@,
        "security.protocol=SSL"@,
        "-X"@,
        "ssl.key.location="@ + cert_directory + "/tls.key"@,
        "-X"@,
        "ssl.certificate.location="@ + cert_directory + "/tls.crt"@,
        "-X"@,
        "ssl.ca.location="@ + cert_directory + "/ca.crt"@,
    ]
}

/// The kcat arguments for probing the plain TLS client listener.
pub open spec fn spec_kcat_client_ssl(cert_directory: Seq<char>) -> Seq<Seq<char>> {
    seq![
        "-X"@,
        "security.protocol=SSL"@,
        "-X"@,
        "ssl.ca.location="@ + cert_directory + "/ca.crt"@,
    ]
}

/// Why resolved transport security cannot be built.
#[derive(Debug, PartialEq)]
pub enum Error {
    /// The referenced authentication classes do not form a valid set.
    InvalidAuthenticationClassConfiguration { source: crate::authentication::Error },
}

/// Where a mounted volume's content comes from.
#[derive(Debug, PartialEq)]
pub enum VolumeContent {
    /// An ephemeral volume provisioned by the secret provider for the
    /// given secret class, optionally converted to a keystore format.
    EphemeralSecret { secret_class: String, pkcs12: bool },
    /// A writable empty directory, shared between containers of the pod.
    EmptyDir,
}

/// Spec-level form of a volume's content.
#[verifier::ext_equal]
pub enum VolumeContentView {
    EphemeralSecret { secret_class: Seq<char>, pkcs12: bool },
    EmptyDir,
}

impl View for VolumeContent {
    type V = VolumeContentView;

    open spec fn view(&self) -> VolumeContentView {
        match self {
            VolumeContent::EphemeralSecret { secret_class, pkcs12 } => {
                VolumeContentView::EphemeralSecret { secret_class: secret_class@, pkcs12: *pkcs12 }
            },
            VolumeContent::EmptyDir => VolumeContentView::EmptyDir,
        }
    }
}

impl DeepView for VolumeContent {
    type V = VolumeContentView;

    open spec fn deep_view(&self) -> VolumeContentView {
        self.view()
    }
}

/// One volume mount a broker pod needs for certificate material.
#[derive(Debug, PartialEq)]
pub struct KafkaVolumeSpec {
    /// Name of the pod volume.
    pub name: String,
    /// Where its content comes from.
    pub content: VolumeContent,
    /// Where the owning container mounts it.
    pub mount_path: String,
    /// The container that mounts it.
    pub owning_container: Container,
}

/// Spec-level form of a volume mount.
#[verifier::ext_equal]
pub struct KafkaVolumeSpecView {
    pub name: Seq<char>,
    pub content: VolumeContentView,
    pub mount_path: Seq<char>,
    pub owning_container: Container,
}

impl View for KafkaVolumeSpec {
    type V = KafkaVolumeSpecView;

    open spec fn view(&self) -> KafkaVolumeSpecView {
        KafkaVolumeSpecView {
            name: self.name@,
            content: self.content@,
            mount_path: self.mount_path@,
            owning_container: self.owning_container,
        }
    }
}

impl DeepView for KafkaVolumeSpec {
    type V = KafkaVolumeSpecView;

    open spec fn deep_view(&self) -> KafkaVolumeSpecView {
        self.view()
    }
}

/// Appends one key/value pair to a property list.
fn push_property(config: &mut Vec<(String, String)>, key: &'static str, value: String)
    ensures
        final(config).deep_view() == old(config).deep_view().push((key@, value@)),
{
    config.push((String::from_str(key), value));
    proof {
        assert(config.deep_view() =~= old(config).deep_view().push((key@, value@)));
    }
}

/// Resolved transport security for one cluster: the validated
/// authentication classes plus the two secret-class settings.
///
/// A pure derivation of the cluster specification; it performs no lookup
/// itself and is recomputed for every reconciliation pass.
pub struct KafkaTlsSecurity {
    /// The resolved, validated authentication classes.
    pub resolved_authentication_classes: ResolvedAuthenticationClasses,
    /// Secret class for broker-to-broker TLS; empty disables it.
    pub internal_secret_class: String,
    /// Secret class for client-facing TLS; absent disables it.
    pub server_secret_class: Option<String>,
}

impl KafkaTlsSecurity {
    /// The TLS-provider authentication class, if one was resolved.
    pub open spec fn spec_tls_auth_class(&self) -> Option<AuthenticationClass> {
        spec_first_tls(self.resolved_authentication_classes.resolved_classes@)
    }

    /// Client-facing TLS is active when a TLS authentication class or a
    /// server secret class is present.
    pub open spec fn spec_tls_enabled(&self) -> bool {
        self.spec_tls_auth_class() is Some || self.server_secret_class is Some
    }

    /// Broker-to-broker TLS is active unless the internal secret class is
    /// explicitly empty.
    pub open spec fn spec_internal_tls_enabled(&self) -> bool {
        self.internal_secret_class@.len() != 0
    }

    /// The client port the broker listens on.
    pub open spec fn spec_client_port(&self) -> u16 {
        if self.spec_tls_enabled() {
            SECURE_CLIENT_PORT
        } else {
            CLIENT_PORT
        }
    }

    /// The client port's name.
    pub open spec fn spec_client_port_name(&self) -> Seq<char> {
        if self.spec_tls_enabled() {
            SECURE_CLIENT_PORT_NAME@
        } else {
            CLIENT_PORT_NAME@
        }
    }

    /// The broker-to-broker port.
    pub open spec fn spec_internal_port(&self) -> u16 {
        if self.spec_internal_tls_enabled() {
            SECURE_INTERNAL_PORT
        } else {
            INTERNAL_PORT
        }
    }

    /// The secret class that feeds the client-facing keystore: the
    /// authentication class's client-certificate override when present,
    /// else the server secret class.
    pub open spec fn spec_effective_client_secret_class(&self) -> Option<Seq<char>> {
        match self.spec_tls_auth_class() {
            Some(c) => match c.provider {
                AuthenticationClassProvider::Tls { client_cert_secret_class: Some(o) } => Some(o@),
                _ => self.server_secret_class.deep_view(),
            },
            None => self.server_secret_class.deep_view(),
        }
    }

    /// Combines the resolved authentication classes with the two
    /// secret-class settings.
    pub fn new(
        resolved_authentication_classes: ResolvedAuthenticationClasses,
        internal_secret_class: String,
        server_secret_class: Option<String>,
    ) -> (r: Self)
        ensures
            r.resolved_authentication_classes == resolved_authentication_classes,
            r.internal_secret_class == internal_secret_class,
            r.server_secret_class == server_secret_class,
    {
        Self { resolved_authentication_classes, internal_secret_class, server_secret_class }
    }

    /// Builds the resolved transport security from the cluster object and
    /// the authentication classes an external lookup resolved its
    /// references into. The classes are validated here; the TLS secret
    /// classes fall back to their defaults when the specification carries
    /// no TLS section.
    pub fn new_from_kafka_cluster(
        authentication_classes: Vec<AuthenticationClass>,
        kafka: &KafkaCluster,
    ) -> (r: Result<Self, Error>)
        ensures
            match r {
                Ok(s) => {
                    &&& s.resolved_authentication_classes.resolved_classes@
                        == authentication_classes@
                    &&& s.resolved_authentication_classes.well_formed()
                    &&& !spec_scan_multiple_tls(authentication_classes@, false)
                    &&& spec_first_unsupported(authentication_classes@) is None
                    &&& s.internal_secret_class@ == match kafka.spec.cluster_config.tls {
                        Some(t) => t.internal_secret_class@,
                        None => "tls"@,
                    }
                    &&& s.server_secret_class.deep_view() == match kafka.spec.cluster_config.tls {
                        Some(t) => t.server_secret_class.deep_view(),
                        None => None::<Seq<char>>,
                    }
                },
                Err(Error::InvalidAuthenticationClassConfiguration { source }) => match source {
                    crate::authentication::Error::MultipleTlsAuthenticationClasses { .. } => {
                        &&& spec_scan_multiple_tls(authentication_classes@, false)
                        &&& spec_tls_count(authentication_classes@) > 1
                    },
                    crate::authentication::Error::AuthenticationProviderNotSupported {
                        authentication_class: c,
                        provider: p,
                    } => {
                        &&& !spec_scan_multiple_tls(authentication_classes@, false)
                        &&& spec_first_unsupported(authentication_classes@) matches Some(u) && c@
                            == u.name@ && p@ == spec_provider_name(u.provider)
                    },
                },
            },
    {
        let resolved_authentication_classes = match ResolvedAuthenticationClasses::validate(
            authentication_classes,
        ) {
            Ok(resolved) => resolved,
            Err(source) => {
                return Err(Error::InvalidAuthenticationClassConfiguration { source });
            },
        };
        let internal_secret_class = match &kafka.spec.cluster_config.tls {
            Some(t) => t.internal_secret_class.clone(),
            None => crate::tls::internal_tls_default(),
        };
        let server_secret_class = match &kafka.spec.cluster_config.tls {
            Some(t) => match &t.server_secret_class {
                Some(s) => Some(s.clone()),
                None => None,
            },
            None => None,
        };
        Ok(Self { resolved_authentication_classes, internal_secret_class, server_secret_class })
    }

    /// Whether any client-facing TLS is active. This drives the init
    /// container commands, the broker configuration and the client port.
    pub fn tls_enabled(&self) -> (r: bool)
        ensures
            r == self.spec_tls_enabled(),
    {
        self.tls_client_authentication_class().is_some() || self.tls_server_secret_class().is_some()
    }

    /// The secret class for client-facing TLS, if one is set.
    pub fn tls_server_secret_class(&self) -> (r: Option<&str>)
        ensures
            r.deep_view() == self.server_secret_class.deep_view(),
    {
        match &self.server_secret_class {
            Some(s) => Some(s.as_str()),
            None => None,
        }
    }

    /// The TLS-provider authentication class, if one was resolved.
    pub fn tls_client_authentication_class(&self) -> (r: Option<&AuthenticationClass>)
        ensures
            match r {
                Some(c) => self.spec_tls_auth_class() == Some(*c),
                None => self.spec_tls_auth_class() is None,
            },
    {
        self.resolved_authentication_classes.get_tls_authentication_class()
    }

    /// The secret class for broker-to-broker TLS; `None` when it was set to
    /// the empty string to opt out.
    pub fn tls_internal_secret_class(&self) -> (r: Option<&str>)
        ensures
            r.deep_view() == if self.spec_internal_tls_enabled() {
                Some(self.internal_secret_class@)
            } else {
                None::<Seq<char>>
            },
    {
        if !self.internal_secret_class.as_str().is_empty() {
            Some(self.internal_secret_class.as_str())
        } else {
            None
        }
    }

    /// The client port: secure when any client-facing TLS is active.
    pub fn client_port(&self) -> (r: u16)
        ensures
            r == self.spec_client_port(),
    {
        if self.tls_enabled() {
            SECURE_CLIENT_PORT
        } else {
            CLIENT_PORT
        }
    }

    /// The client port's name: the secure one when TLS is active.
    pub fn client_port_name(&self) -> (r: &str)
        ensures
            r@ == self.spec_client_port_name(),
    {
        if self.tls_enabled() {
            SECURE_CLIENT_PORT_NAME
        } else {
            CLIENT_PORT_NAME
        }
    }

    /// The broker-to-broker port: secure when internal TLS is active.
    pub fn internal_port(&self) -> (r: u16)
        ensures
            r == self.spec_internal_port(),
    {
        if self.tls_internal_secret_class().is_some() {
            SECURE_INTERNAL_PORT
        } else {
            INTERNAL_PORT
        }
    }

    /// The secret class feeding the client-facing keystore: the
    /// authentication class's override takes precedence over the server
    /// secret class, so that requiring authentication never leaves other
    /// trust anchors in the same store.
    pub fn get_tls_secret_class(&self) -> (r: Option<&String>)
        ensures
            r.deep_view() == self.spec_effective_client_secret_class(),
    {
        match self.resolved_authentication_classes.get_tls_authentication_class() {
            Some(c) => match &c.provider {
                AuthenticationClassProvider::Tls { client_cert_secret_class: Some(s) } => Some(s),
                _ => self.server_secret_class.as_ref(),
            },
            None => self.server_secret_class.as_ref(),
        }
    }

    /// The ordered init-container command sequence that materializes
    /// certificates: external scope first (system trust only when server
    /// TLS is active without client authentication, then keystore, then
    /// truststore), internal scope appended after it.
    pub open spec fn spec_prepare_container_command_args(&self) -> Seq<Seq<char>> {
        (if self.spec_tls_auth_class() is Some {
            spec_import_keystore_cmds(
                STACKABLE_TLS_KEYSTORE_SERVER_MOUNT_DIR@,
                STACKABLE_TLS_KEYSTORE_SERVER_DIR@,
            ) + spec_import_truststore_cmds(
                STACKABLE_TLS_KEYSTORE_SERVER_MOUNT_DIR@,
                STACKABLE_TLS_KEYSTORE_SERVER_DIR@,
            )
        } else if self.server_secret_class is Some {
            spec_import_system_truststore_cmds(STACKABLE_TLS_KEYSTORE_SERVER_DIR@)
                + spec_import_keystore_cmds(
                STACKABLE_TLS_KEYSTORE_SERVER_MOUNT_DIR@,
                STACKABLE_TLS_KEYSTORE_SERVER_DIR@,
            ) + spec_import_truststore_cmds(
                STACKABLE_TLS_KEYSTORE_SERVER_MOUNT_DIR@,
                STACKABLE_TLS_KEYSTORE_SERVER_DIR@,
            )
        } else {
            Seq::empty()
        }) + (if self.spec_internal_tls_enabled() {
            spec_import_keystore_cmds(
                STACKABLE_TLS_KEYSTORE_INTERNAL_MOUNT_DIR@,
                STACKABLE_TLS_KEYSTORE_INTERNAL_DIR@,
            ) + spec_import_truststore_cmds(
                STACKABLE_TLS_KEYSTORE_INTERNAL_MOUNT_DIR@,
                STACKABLE_TLS_KEYSTORE_INTERNAL_DIR@,
            )
        } else {
            Seq::empty()
        })
    }

    /// The init-container commands that generate keystores and truststores
    /// for the active TLS scopes.
    ///
    /// When client authentication is required, the dedicated secret class
    /// is the sole trust anchor: the system truststore is deliberately not
    /// imported, so no unrelated authority is trusted.
    pub fn prepare_container_command_args(&self) -> (r: Vec<String>)
        ensures
            r.deep_view() == self.spec_prepare_container_command_args(),
    {
        let mut args: Vec<String> = Vec::new();
        if self.tls_client_authentication_class().is_some() {
            let mut ks = Self::import_keystore(
                STACKABLE_TLS_KEYSTORE_SERVER_MOUNT_DIR,
                STACKABLE_TLS_KEYSTORE_SERVER_DIR,
            );
            args.append(&mut ks);
            let mut ts = Self::import_truststore(
                STACKABLE_TLS_KEYSTORE_SERVER_MOUNT_DIR,
                STACKABLE_TLS_KEYSTORE_SERVER_DIR,
            );
            args.append(&mut ts);
        } else if self.tls_server_secret_class().is_some() {
            let mut st = Self::import_system_truststore(STACKABLE_TLS_KEYSTORE_SERVER_DIR);
            args.append(&mut st);
            let mut ks = Self::import_keystore(
                STACKABLE_TLS_KEYSTORE_SERVER_MOUNT_DIR,
                STACKABLE_TLS_KEYSTORE_SERVER_DIR,
            );
            args.append(&mut ks);
            let mut ts = Self::import_truststore(
                STACKABLE_TLS_KEYSTORE_SERVER_MOUNT_DIR,
                STACKABLE_TLS_KEYSTORE_SERVER_DIR,
            );
            args.append(&mut ts);
        }
        if self.tls_internal_secret_class().is_some() {
            let mut ks = Self::import_keystore(
                STACKABLE_TLS_KEYSTORE_INTERNAL_MOUNT_DIR,
                STACKABLE_TLS_KEYSTORE_INTERNAL_DIR,
            );
            args.append(&mut ks);
            let mut ts = Self::import_truststore(
                STACKABLE_TLS_KEYSTORE_INTERNAL_MOUNT_DIR,
                STACKABLE_TLS_KEYSTORE_INTERNAL_DIR,
            );
            args.append(&mut ts);
        }
        proof {
            assert(args.deep_view() =~= self.spec_prepare_container_command_args());
        }
        args
    }

    /// The command that records the node port of the client service in the
    /// scratch directory.
    pub open spec fn spec_svc_container_commands(&self) -> Seq<char> {
        "kubectl get service \"$POD_NAME\" -o jsonpath='{.spec.ports[?(@.name==\""@
            + self.spec_client_port_name() + "\")].nodePort}' | tee "@ + STACKABLE_TMP_DIR@ + "/"@
            + self.spec_client_port_name() + "_nodeport"@
    }

    /// The command the service container runs to retrieve the node port of
    /// the client service.
    pub fn svc_container_commands(&self) -> (r: String)
        ensures
            r@ == self.spec_svc_container_commands(),
    {
        let port_name = self.client_port_name();
        let mut cmd = String::from_str(
            "kubectl get service \"$POD_NAME\" -o jsonpath='{.spec.ports[?(@.name==\"",
        );
        cmd.append(port_name);
        cmd.append("\")].nodePort}' | tee ");
        cmd.append(STACKABLE_TMP_DIR);
        cmd.append("/");
        cmd.append(port_name);
        cmd.append("_nodeport");
        cmd
    }

    /// The kcat readiness-probe command line: TLS options match the active
    /// client-facing security.
    pub open spec fn spec_kcat_prober_container_commands(&self) -> Seq<Seq<char>> {
        seq!["/stackable/kcat"@, "-b"@, "localhost:"@ + spec_dec_digits(
            self.spec_client_port() as int,
        )] + (if self.spec_tls_auth_class() is Some {
            spec_kcat_client_auth_ssl(STACKABLE_TLS_CERT_SERVER_MOUNT_DIR@)
        } else if self.server_secret_class is Some {
            spec_kcat_client_ssl(STACKABLE_TLS_CERT_SERVER_MOUNT_DIR@)
        } else {
            Seq::empty()
        }) + seq!["-L"@]
    }

    /// The commands for the kcat readiness probe.
    pub fn kcat_prober_container_commands(&self) -> (r: Vec<String>)
        ensures
            r.deep_view() == self.spec_kcat_prober_container_commands(),
    {
        let mut args: Vec<String> = Vec::new();
        args.push(String::from_str("/stackable/kcat"));
        let port = self.client_port();
        args.push(String::from_str("-b"));
        args.push(String::from_str("localhost:").concat(u16_dec(port).as_str()));
        if self.tls_client_authentication_class().is_some() {
            let mut ssl = Self::kcat_client_auth_ssl(STACKABLE_TLS_CERT_SERVER_MOUNT_DIR);
            args.append(&mut ssl);
        } else if self.tls_server_secret_class().is_some() {
            let mut ssl = Self::kcat_client_ssl(STACKABLE_TLS_CERT_SERVER_MOUNT_DIR);
            args.append(&mut ssl);
        }
        args.push(String::from_str("-L"));
        proof {
            assert(args.deep_view() =~= self.spec_kcat_prober_container_commands());
        }
        args
    }

    /// The command line that starts the broker, with listener and
    /// authorizer overrides interpolated.
    pub open spec fn spec_kafka_container_commands(
        &self,
        kafka_listeners: KafkaListenerConfig,
        opa_connect_string: Option<Seq<char>>,
    ) -> Seq<Seq<char>> {
        seq![
            "bin/kafka-server-start.sh"@,
            STACKABLE_CONFIG_DIR@ + "/"@ + SERVER_PROPERTIES_FILE@,
            "--override \"zookeeper.connect=$ZOOKEEPER\""@,
            "--override \"listeners="@ + kafka_listeners.listeners@ + "\""@,
            "--override \"advertised.listeners="@ + kafka_listeners.advertised_listeners@ + "\""@,
            "--override \"listener.security.protocol.map="@
                + kafka_listeners.listener_security_protocol_map@ + "\""@,
            match opa_connect_string {
                Some(opa) => "--override \"opa.authorizer.url="@ + opa + "\""@,
                None => Seq::empty(),
            },
        ]
    }

    /// The commands to start the main broker container.
    pub fn kafka_container_commands(
        &self,
        kafka_listeners: &KafkaListenerConfig,
        opa_connect_string: Option<&str>,
    ) -> (r: Vec<String>)
        ensures
            r.deep_view() == self.spec_kafka_container_commands(
                *kafka_listeners,
                opa_connect_string.deep_view(),
            ),
    {
        let mut args: Vec<String> = Vec::new();
        args.push(String::from_str("bin/kafka-server-start.sh"));
        let mut conf = String::from_str(STACKABLE_CONFIG_DIR);
        conf.append("/");
        conf.append(SERVER_PROPERTIES_FILE);
        args.push(conf);
        args.push(String::from_str("--override \"zookeeper.connect=$ZOOKEEPER\""));
        let mut listeners = String::from_str("--override \"listeners=");
        listeners.append(kafka_listeners.listeners().as_str());
        listeners.append("\"");
        args.push(listeners);
        let mut advertised = String::from_str("--override \"advertised.listeners=");
        advertised.append(kafka_listeners.advertised_listeners().as_str());
        advertised.append("\"");
        args.push(advertised);
        let mut protocol_map = String::from_str("--override \"listener.security.protocol.map=");
        protocol_map.append(kafka_listeners.listener_security_protocol_map().as_str());
        protocol_map.append("\"");
        args.push(protocol_map);
        match opa_connect_string {
            Some(opa) => {
                let mut opa_arg = String::from_str("--override \"opa.authorizer.url=");
                opa_arg.append(opa);
                opa_arg.append("\"");
                args.push(opa_arg);
            },
            None => {
                args.push(String::new());
            },
        }
        proof {
            assert(args.deep_view() =~= self.spec_kafka_container_commands(
                *kafka_listeners,
                opa_connect_string.deep_view(),
            ));
        }
        args
    }

    /// The properties emitted for the authenticating client listener.
    pub open spec fn spec_client_auth_settings() -> Seq<(Seq<char>, Seq<char>)> {
        seq![
            (
                CLIENT_AUTH_SSL_KEYSTORE_LOCATION@,
                spec_keystore_path(STACKABLE_TLS_KEYSTORE_SERVER_DIR@),
            ),
            (CLIENT_AUTH_SSL_KEYSTORE_PASSWORD@, SSL_STORE_PASSWORD@),
            (CLIENT_AUTH_SSL_KEYSTORE_TYPE@, "PKCS12"@),
            (
                CLIENT_AUTH_SSL_TRUSTSTORE_LOCATION@,
                spec_truststore_path(STACKABLE_TLS_KEYSTORE_SERVER_DIR@),
            ),
            (CLIENT_AUTH_SSL_TRUSTSTORE_PASSWORD@, SSL_STORE_PASSWORD@),
            (CLIENT_AUTH_SSL_TRUSTSTORE_TYPE@, "PKCS12"@),
            (CLIENT_AUTH_SSL_CLIENT_AUTH@, "required"@),
        ]
    }

    /// The properties emitted for the plain TLS client listener.
    pub open spec fn spec_client_settings() -> Seq<(Seq<char>, Seq<char>)> {
        seq![
            (CLIENT_SSL_KEYSTORE_LOCATION@, spec_keystore_path(STACKABLE_TLS_KEYSTORE_SERVER_DIR@)),
            (CLIENT_SSL_KEYSTORE_PASSWORD@, SSL_STORE_PASSWORD@),
            (CLIENT_SSL_KEYSTORE_TYPE@, "PKCS12"@),
            (
                CLIENT_SSL_TRUSTSTORE_LOCATION@,
                spec_truststore_path(STACKABLE_TLS_KEYSTORE_SERVER_DIR@),
            ),
            (CLIENT_SSL_TRUSTSTORE_PASSWORD@, SSL_STORE_PASSWORD@),
            (CLIENT_SSL_TRUSTSTORE_TYPE@, "PKCS12"@),
        ]
    }

    /// The properties emitted for the internal listener.
    pub open spec fn spec_internal_settings() -> Seq<(Seq<char>, Seq<char>)> {
        seq![
            (INTER_SSL_KEYSTORE_LOCATION@, spec_keystore_path(STACKABLE_TLS_KEYSTORE_INTERNAL_DIR@)),
            (INTER_SSL_KEYSTORE_PASSWORD@, SSL_STORE_PASSWORD@),
            (INTER_SSL_KEYSTORE_TYPE@, "PKCS12"@),
            (
                INTER_SSL_TRUSTSTORE_LOCATION@,
                spec_truststore_path(STACKABLE_TLS_KEYSTORE_INTERNAL_DIR@),
            ),
            (INTER_SSL_TRUSTSTORE_PASSWORD@, SSL_STORE_PASSWORD@),
            (INTER_SSL_TRUSTSTORE_TYPE@, "PKCS12"@),
            (INTER_SSL_CLIENT_AUTH@, "required"@),
        ]
    }

    /// The broker configuration properties derived from the TLS state:
    /// client-authentication and plain client TLS are mutually exclusive,
    /// internal TLS is independent, and the inter-broker listener name is
    /// always present.
    pub open spec fn spec_config_settings(&self) -> Seq<(Seq<char>, Seq<char>)> {
        (if self.spec_tls_auth_class() is Some {
            Self::spec_client_auth_settings()
        } else if self.server_secret_class is Some {
            Self::spec_client_settings()
        } else {
            Seq::empty()
        }) + (if self.spec_internal_tls_enabled() {
            Self::spec_internal_settings()
        } else {
            Seq::empty()
        }) + seq![(INTER_BROKER_LISTENER_NAME@, spec_listener_name(KafkaListenerName::Internal))]
    }

    /// The broker configuration properties for the main configuration file,
    /// as key/value pairs with distinct keys.
    pub fn config_settings(&self) -> (r: Vec<(String, String)>)
        ensures
            r.deep_view() == self.spec_config_settings(),
    {
        let mut config: Vec<(String, String)> = Vec::new();
        // Client TLS with authentication and without it are mutually
        // exclusive: when authentication is required no other authority may
        // be trusted on the same listener.
        if self.tls_client_authentication_class().is_some() {
            push_property(
                &mut config,
                CLIENT_AUTH_SSL_KEYSTORE_LOCATION,
                String::from_str(STACKABLE_TLS_KEYSTORE_SERVER_DIR).concat("/keystore.p12"),
            );
            push_property(
                &mut config,
                CLIENT_AUTH_SSL_KEYSTORE_PASSWORD,
                String::from_str(SSL_STORE_PASSWORD),
            );
            push_property(&mut config, CLIENT_AUTH_SSL_KEYSTORE_TYPE, String::from_str("PKCS12"));
            push_property(
                &mut config,
                CLIENT_AUTH_SSL_TRUSTSTORE_LOCATION,
                String::from_str(STACKABLE_TLS_KEYSTORE_SERVER_DIR).concat("/truststore.p12"),
            );
            push_property(
                &mut config,
                CLIENT_AUTH_SSL_TRUSTSTORE_PASSWORD,
                String::from_str(SSL_STORE_PASSWORD),
            );
            push_property(&mut config, CLIENT_AUTH_SSL_TRUSTSTORE_TYPE, String::from_str("PKCS12"));
            push_property(&mut config, CLIENT_AUTH_SSL_CLIENT_AUTH, String::from_str("required"));
        } else if self.tls_server_secret_class().is_some() {
            push_property(
                &mut config,
                CLIENT_SSL_KEYSTORE_LOCATION,
                String::from_str(STACKABLE_TLS_KEYSTORE_SERVER_DIR).concat("/keystore.p12"),
            );
            push_property(
                &mut config,
                CLIENT_SSL_KEYSTORE_PASSWORD,
                String::from_str(SSL_STORE_PASSWORD),
            );
            push_property(&mut config, CLIENT_SSL_KEYSTORE_TYPE, String::from_str("PKCS12"));
            push_property(
                &mut config,
                CLIENT_SSL_TRUSTSTORE_LOCATION,
                String::from_str(STACKABLE_TLS_KEYSTORE_SERVER_DIR).concat("/truststore.p12"),
            );
            push_property(
                &mut config,
                CLIENT_SSL_TRUSTSTORE_PASSWORD,
                String::from_str(SSL_STORE_PASSWORD),
            );
            push_property(&mut config, CLIENT_SSL_TRUSTSTORE_TYPE, String::from_str("PKCS12"));
        }
        // Internal TLS is independent of the client listeners.
        if self.tls_internal_secret_class().is_some() {
            push_property(
                &mut config,
                INTER_SSL_KEYSTORE_LOCATION,
                String::from_str(STACKABLE_TLS_KEYSTORE_INTERNAL_DIR).concat("/keystore.p12"),
            );
            push_property(
                &mut config,
                INTER_SSL_KEYSTORE_PASSWORD,
                String::from_str(SSL_STORE_PASSWORD),
            );
            push_property(&mut config, INTER_SSL_KEYSTORE_TYPE, String::from_str("PKCS12"));
            push_property(
                &mut config,
                INTER_SSL_TRUSTSTORE_LOCATION,
                String::from_str(STACKABLE_TLS_KEYSTORE_INTERNAL_DIR).concat("/truststore.p12"),
            );
            push_property(
                &mut config,
                INTER_SSL_TRUSTSTORE_PASSWORD,
                String::from_str(SSL_STORE_PASSWORD),
            );
            push_property(&mut config, INTER_SSL_TRUSTSTORE_TYPE, String::from_str("PKCS12"));
            push_property(&mut config, INTER_SSL_CLIENT_AUTH, String::from_str("required"));
        }
        push_property(
            &mut config,
            INTER_BROKER_LISTENER_NAME,
            String::from_str(KafkaListenerName::Internal.name()),
        );
        proof {
            assert(config.deep_view() =~= self.spec_config_settings());
        }
        config
    }

    /// The commands that import a password-less keystore from a
    /// secret-provider mount into a password-protected keystore in a
    /// writable directory. The source is never written to.
    pub fn import_keystore(source_directory: &str, destination_directory: &str) -> (r: Vec<String>)
        ensures
            r.deep_view() == spec_import_keystore_cmds(source_directory@, destination_directory@),
    {
        let mut echo = String::from_str("echo Importing ");
        echo.append(source_directory);
        echo.append("/keystore.p12 to ");
        echo.append(destination_directory);
        echo.append("/keystore.p12");
        let mut cmd = String::from_str("keytool -importkeystore -srckeystore ");
        cmd.append(source_directory);
        cmd.append("/keystore.p12 -srcstoretype PKCS12 -srcstorepass \"\" -destkeystore ");
        cmd.append(destination_directory);
        cmd.append("/keystore.p12 -deststoretype PKCS12 -deststorepass ");
        cmd.append(SSL_STORE_PASSWORD);
        cmd.append(" -noprompt");
        let mut r: Vec<String> = Vec::new();
        r.push(echo);
        r.push(cmd);
        proof {
            assert(r.deep_view() =~= spec_import_keystore_cmds(
                source_directory@,
                destination_directory@,
            ));
        }
        r
    }

    /// The commands that import a password-less truststore from a
    /// secret-provider mount into a password-protected truststore in a
    /// writable directory, under a fresh alias.
    pub fn import_truststore(source_directory: &str, destination_directory: &str) -> (r: Vec<
        String,
    >)
        ensures
            r.deep_view() == spec_import_truststore_cmds(source_directory@, destination_directory@),
    {
        let mut echo = String::from_str("echo Importing ");
        echo.append(source_directory);
        echo.append("/truststore.p12 to ");
        echo.append(destination_directory);
        echo.append("/truststore.p12");
        let mut cmd = String::from_str("keytool -importkeystore -srckeystore ");
        cmd.append(source_directory);
        cmd.append("/truststore.p12 -srcstoretype PKCS12 -srcstorepass \"\" -srcalias 1 -destkeystore ");
        cmd.append(destination_directory);
        cmd.append("/truststore.p12 -deststoretype PKCS12 -deststorepass ");
        cmd.append(SSL_STORE_PASSWORD);
        cmd.append(" -destalias $(cat /proc/sys/kernel/random/uuid) -noprompt");
        let mut r: Vec<String> = Vec::new();
        r.push(echo);
        r.push(cmd);
        proof {
            assert(r.deep_view() =~= spec_import_truststore_cmds(
                source_directory@,
                destination_directory@,
            ));
        }
        r
    }

    /// The commands that copy the system truststore into a
    /// password-protected truststore in a writable directory.
    pub fn import_system_truststore(destination_directory: &str) -> (r: Vec<String>)
        ensures
            r.deep_view() == spec_import_system_truststore_cmds(destination_directory@),
    {
        let mut echo = String::from_str("echo Importing ");
        echo.append(SYSTEM_TRUST_STORE_DIR);
        echo.append(" to ");
        echo.append(destination_directory);
        echo.append("/truststore.p12");
        let mut cmd = String::from_str("keytool -importkeystore -srckeystore ");
        cmd.append(SYSTEM_TRUST_STORE_DIR);
        cmd.append(" -srcstoretype jks -srcstorepass ");
        cmd.append(SSL_STORE_PASSWORD);
        cmd.append(" -destkeystore ");
        cmd.append(destination_directory);
        cmd.append("/truststore.p12 -deststoretype pkcs12 -deststorepass ");
        cmd.append(SSL_STORE_PASSWORD);
        cmd.append(" -noprompt");
        let mut r: Vec<String> = Vec::new();
        r.push(echo);
        r.push(cmd);
        proof {
            assert(r.deep_view() =~= spec_import_system_truststore_cmds(destination_directory@));
        }
        r
    }

    /// The kcat options probing the authenticating client listener with the
    /// mounted client certificate.
    pub fn kcat_client_auth_ssl(cert_directory: &str) -> (r: Vec<String>)
        ensures
            r.deep_view() == spec_kcat_client_auth_ssl(cert_directory@),
    {
        let mut r: Vec<String> = Vec::new();
        r.push(String::from_str("-X"));
        r.push(String::from_str("security.protocol=SSL"));
        r.push(String::from_str("-X"));
        let mut key = String::from_str("ssl.key.location=");
        key.append(cert_directory);
        key.append("/tls.key");
        r.push(key);
        r.push(String::from_str("-X"));
        let mut cert = String::from_str("ssl.certificate.location=");
        cert.append(cert_directory);
        cert.append("/tls.crt");
        r.push(cert);
        r.push(String::from_str("-X"));
        let mut ca = String::from_str("ssl.ca.location=");
        ca.append(cert_directory);
        ca.append("/ca.crt");
        r.push(ca);
        proof {
            assert(r.deep_view() =~= spec_kcat_client_auth_ssl(cert_directory@));
        }
        r
    }

    /// The volumes and mounts the pod needs for its active TLS scopes:
    /// for the external scope a certificate mount for the prober, a
    /// secret-provider keystore mount (read-only) and a writable empty
    /// directory shared by the prepare and broker containers; for the
    /// internal scope the latter two.
    pub open spec fn spec_volumes_needed(&self) -> Seq<KafkaVolumeSpecView> {
        (match self.spec_effective_client_secret_class() {
            Some(sc) => seq![
                KafkaVolumeSpecView {
                    name: STACKABLE_TLS_CERT_SERVER_MOUNT_DIR_NAME@,
                    content: VolumeContentView::EphemeralSecret { secret_class: sc, pkcs12: false },
                    mount_path: STACKABLE_TLS_CERT_SERVER_MOUNT_DIR@,
                    owning_container: Container::KcatProber,
                },
                KafkaVolumeSpecView {
                    name: STACKABLE_TLS_KEYSTORE_SERVER_MOUNT_DIR_NAME@,
                    content: VolumeContentView::EphemeralSecret { secret_class: sc, pkcs12: true },
                    mount_path: STACKABLE_TLS_KEYSTORE_SERVER_MOUNT_DIR@,
                    owning_container: Container::Prepare,
                },
                KafkaVolumeSpecView {
                    name: STACKABLE_TLS_KEYSTORE_SERVER_DIR_NAME@,
                    content: VolumeContentView::EmptyDir,
                    mount_path: STACKABLE_TLS_KEYSTORE_SERVER_DIR@,
                    owning_container: Container::Prepare,
                },
                KafkaVolumeSpecView {
                    name: STACKABLE_TLS_KEYSTORE_SERVER_DIR_NAME@,
                    content: VolumeContentView::EmptyDir,
                    mount_path: STACKABLE_TLS_KEYSTORE_SERVER_DIR@,
                    owning_container: Container::Kafka,
                },
            ],
            None => Seq::empty(),
        }) + (if self.spec_internal_tls_enabled() {
            seq![
                KafkaVolumeSpecView {
                    name: STACKABLE_TLS_KEYSTORE_INTERNAL_MOUNT_DIR_NAME@,
                    content: VolumeContentView::EphemeralSecret {
                        secret_class: self.internal_secret_class@,
                        pkcs12: true,
                    },
                    mount_path: STACKABLE_TLS_KEYSTORE_INTERNAL_MOUNT_DIR@,
                    owning_container: Container::Prepare,
                },
                KafkaVolumeSpecView {
                    name: STACKABLE_TLS_KEYSTORE_INTERNAL_DIR_NAME@,
                    content: VolumeContentView::EmptyDir,
                    mount_path: STACKABLE_TLS_KEYSTORE_INTERNAL_DIR@,
                    owning_container: Container::Prepare,
                },
                KafkaVolumeSpecView {
                    name: STACKABLE_TLS_KEYSTORE_INTERNAL_DIR_NAME@,
                    content: VolumeContentView::EmptyDir,
                    mount_path: STACKABLE_TLS_KEYSTORE_INTERNAL_DIR@,
                    owning_container: Container::Kafka,
                },
            ]
        } else {
            Seq::empty()
        })
    }

    /// The volumes and mounts the pod needs for its active TLS scopes,
    /// consumed by the pod builder.
    pub fn volumes_needed(&self) -> (r: Vec<KafkaVolumeSpec>)
        ensures
            r.deep_view() == self.spec_volumes_needed(),
    {
        let mut r: Vec<KafkaVolumeSpec> = Vec::new();
        match self.get_tls_secret_class() {
            Some(sc) => {
                r.push(
                    KafkaVolumeSpec {
                        name: String::from_str(STACKABLE_TLS_CERT_SERVER_MOUNT_DIR_NAME),
                        content: VolumeContent::EphemeralSecret {
                            secret_class: sc.clone(),
                            pkcs12: false,
                        },
                        mount_path: String::from_str(STACKABLE_TLS_CERT_SERVER_MOUNT_DIR),
                        owning_container: Container::KcatProber,
                    },
                );
                r.push(
                    KafkaVolumeSpec {
                        name: String::from_str(STACKABLE_TLS_KEYSTORE_SERVER_MOUNT_DIR_NAME),
                        content: VolumeContent::EphemeralSecret {
                            secret_class: sc.clone(),
                            pkcs12: true,
                        },
                        mount_path: String::from_str(STACKABLE_TLS_KEYSTORE_SERVER_MOUNT_DIR),
                        owning_container: Container::Prepare,
                    },
                );
                r.push(
                    KafkaVolumeSpec {
                        name: String::from_str(STACKABLE_TLS_KEYSTORE_SERVER_DIR_NAME),
                        content: VolumeContent::EmptyDir,
                        mount_path: String::from_str(STACKABLE_TLS_KEYSTORE_SERVER_DIR),
                        owning_container: Container::Prepare,
                    },
                );
                r.push(
                    KafkaVolumeSpec {
                        name: String::from_str(STACKABLE_TLS_KEYSTORE_SERVER_DIR_NAME),
                        content: VolumeContent::EmptyDir,
                        mount_path: String::from_str(STACKABLE_TLS_KEYSTORE_SERVER_DIR),
                        owning_container: Container::Kafka,
                    },
                );
            },
            None => {},
        }
        match self.tls_internal_secret_class() {
            Some(sc) => {
                r.push(
                    KafkaVolumeSpec {
                        name: String::from_str(STACKABLE_TLS_KEYSTORE_INTERNAL_MOUNT_DIR_NAME),
                        content: VolumeContent::EphemeralSecret {
                            secret_class: String::from_str(sc),
                            pkcs12: true,
                        },
                        mount_path: String::from_str(STACKABLE_TLS_KEYSTORE_INTERNAL_MOUNT_DIR),
                        owning_container: Container::Prepare,
                    },
                );
                r.push(
                    KafkaVolumeSpec {
                        name: String::from_str(STACKABLE_TLS_KEYSTORE_INTERNAL_DIR_NAME),
                        content: VolumeContent::EmptyDir,
                        mount_path: String::from_str(STACKABLE_TLS_KEYSTORE_INTERNAL_DIR),
                        owning_container: Container::Prepare,
                    },
                );
                r.push(
                    KafkaVolumeSpec {
                        name: String::from_str(STACKABLE_TLS_KEYSTORE_INTERNAL_DIR_NAME),
                        content: VolumeContent::EmptyDir,
                        mount_path: String::from_str(STACKABLE_TLS_KEYSTORE_INTERNAL_DIR),
                        owning_container: Container::Kafka,
                    },
                );
            },
            None => {},
        }
        proof {
            assert(r.deep_view() =~~= self.spec_volumes_needed());
        }
        r
    }

    /// The kcat options probing the plain TLS client listener with the
    /// mounted certificate authority.
    pub fn kcat_client_ssl(cert_directory: &str) -> (r: Vec<String>)
        ensures
            r.deep_view() == spec_kcat_client_ssl(cert_directory@),
    {
        let mut r: Vec<String> = Vec::new();
        r.push(String::from_str("-X"));
        r.push(String::from_str("security.protocol=SSL"));
        r.push(String::from_str("-X"));
        let mut ca = String::from_str("ssl.ca.location=");
        ca.append(cert_directory);
        ca.append("/ca.crt");
        r.push(ca);
        proof {
            assert(r.deep_view() =~= spec_kcat_client_ssl(cert_directory@));
        }
        r
    }
}

/// The broker property keys of the two client listener scopes.
pub open spec fn spec_is_client_scope_key(k: Seq<char>) -> bool {
    ||| k == CLIENT_SSL_KEYSTORE_LOCATION@
    ||| k == CLIENT_SSL_KEYSTORE_PASSWORD@
    ||| k == CLIENT_SSL_KEYSTORE_TYPE@
    ||| k == CLIENT_SSL_TRUSTSTORE_LOCATION@
    ||| k == CLIENT_SSL_TRUSTSTORE_PASSWORD@
    ||| k == CLIENT_SSL_TRUSTSTORE_TYPE@
    ||| k == CLIENT_AUTH_SSL_KEYSTORE_LOCATION@
    ||| k == CLIENT_AUTH_SSL_KEYSTORE_PASSWORD@
    ||| k == CLIENT_AUTH_SSL_KEYSTORE_TYPE@
    ||| k == CLIENT_AUTH_SSL_TRUSTSTORE_LOCATION@
    ||| k == CLIENT_AUTH_SSL_TRUSTSTORE_PASSWORD@
    ||| k == CLIENT_AUTH_SSL_TRUSTSTORE_TYPE@
    ||| k == CLIENT_AUTH_SSL_CLIENT_AUTH@
}

/// Reveals every property-key literal the disjointness arguments rely on.
proof fn lemma_reveal_property_keys()
    ensures
        CLIENT_SSL_KEYSTORE_LOCATION@[14] == 'c',
        CLIENT_SSL_KEYSTORE_PASSWORD@[14] == 'c',
        CLIENT_SSL_KEYSTORE_TYPE@[14] == 'c',
        CLIENT_SSL_TRUSTSTORE_LOCATION@[14] == 'c',
        CLIENT_SSL_TRUSTSTORE_PASSWORD@[14] == 'c',
        CLIENT_SSL_TRUSTSTORE_TYPE@[14] == 'c',
        CLIENT_AUTH_SSL_KEYSTORE_LOCATION@[14] == 'c',
        CLIENT_AUTH_SSL_KEYSTORE_PASSWORD@[14] == 'c',
        CLIENT_AUTH_SSL_KEYSTORE_TYPE@[14] == 'c',
        CLIENT_AUTH_SSL_TRUSTSTORE_LOCATION@[14] == 'c',
        CLIENT_AUTH_SSL_TRUSTSTORE_PASSWORD@[14] == 'c',
        CLIENT_AUTH_SSL_TRUSTSTORE_TYPE@[14] == 'c',
        CLIENT_AUTH_SSL_CLIENT_AUTH@[14] == 'c',
        INTER_SSL_KEYSTORE_LOCATION@[14] == 'i',
        INTER_SSL_KEYSTORE_PASSWORD@[14] == 'i',
        INTER_SSL_KEYSTORE_TYPE@[14] == 'i',
        INTER_SSL_TRUSTSTORE_LOCATION@[14] == 'i',
        INTER_SSL_TRUSTSTORE_PASSWORD@[14] == 'i',
        INTER_SSL_TRUSTSTORE_TYPE@[14] == 'i',
        INTER_SSL_CLIENT_AUTH@[14] == 'i',
        INTER_BROKER_LISTENER_NAME@[0] == 'i',
        CLIENT_SSL_KEYSTORE_LOCATION@[0] == 'l',
        CLIENT_SSL_KEYSTORE_PASSWORD@[0] == 'l',
        CLIENT_SSL_KEYSTORE_TYPE@[0] == 'l',
        CLIENT_SSL_TRUSTSTORE_LOCATION@[0] == 'l',
        CLIENT_SSL_TRUSTSTORE_PASSWORD@[0] == 'l',
        CLIENT_SSL_TRUSTSTORE_TYPE@[0] == 'l',
        CLIENT_AUTH_SSL_KEYSTORE_LOCATION@[0] == 'l',
        CLIENT_AUTH_SSL_KEYSTORE_PASSWORD@[0] == 'l',
        CLIENT_AUTH_SSL_KEYSTORE_TYPE@[0] == 'l',
        CLIENT_AUTH_SSL_TRUSTSTORE_LOCATION@[0] == 'l',
        CLIENT_AUTH_SSL_TRUSTSTORE_PASSWORD@[0] == 'l',
        CLIENT_AUTH_SSL_TRUSTSTORE_TYPE@[0] == 'l',
        CLIENT_AUTH_SSL_CLIENT_AUTH@[0] == 'l',
{
    reveal_strlit("listener.name.client.ssl.keystore.location");
    reveal_strlit("listener.name.client.ssl.keystore.password");
    reveal_strlit("listener.name.client.ssl.keystore.type");
    reveal_strlit("listener.name.client.ssl.truststore.location");
    reveal_strlit("listener.name.client.ssl.truststore.password");
    reveal_strlit("listener.name.client.ssl.truststore.type");
    reveal_strlit("listener.name.client_auth.ssl.keystore.location");
    reveal_strlit("listener.name.client_auth.ssl.keystore.password");
    reveal_strlit("listener.name.client_auth.ssl.keystore.type");
    reveal_strlit("listener.name.client_auth.ssl.truststore.location");
    reveal_strlit("listener.name.client_auth.ssl.truststore.password");
    reveal_strlit("listener.name.client_auth.ssl.truststore.type");
    reveal_strlit("listener.name.client_auth.ssl.client.auth");
    reveal_strlit("listener.name.internal.ssl.keystore.location");
    reveal_strlit("listener.name.internal.ssl.keystore.password");
    reveal_strlit("listener.name.internal.ssl.keystore.type");
    reveal_strlit("listener.name.internal.ssl.truststore.location");
    reveal_strlit("listener.name.internal.ssl.truststore.password");
    reveal_strlit("listener.name.internal.ssl.truststore.type");
    reveal_strlit("listener.name.internal.ssl.client.auth");
    reveal_strlit("inter.broker.listener.name");
}

/// When neither a TLS authentication class nor a server secret class is
/// present, no client-facing TLS is active: the plain port and port name
/// apply, and the emitted broker properties carry no key of either client
/// listener scope.
pub proof fn lemma_no_client_tls(s: &KafkaTlsSecurity)
    requires
        s.spec_tls_auth_class() is None,
        s.server_secret_class is None,
    ensures
        !s.spec_tls_enabled(),
        s.spec_client_port() == CLIENT_PORT,
        s.spec_client_port_name() == CLIENT_PORT_NAME@,
        forall|i: int|
            0 <= i < s.spec_config_settings().len() ==> !spec_is_client_scope_key(
                #[trigger] s.spec_config_settings()[i].0,
            ),
{
    lemma_reveal_property_keys();
    let cfg = s.spec_config_settings();
    assert forall|i: int| 0 <= i < cfg.len() implies !spec_is_client_scope_key(cfg[i].0) by {
        let k = cfg[i].0;
        assert(k == INTER_SSL_KEYSTORE_LOCATION@ || k == INTER_SSL_KEYSTORE_PASSWORD@ || k
            == INTER_SSL_KEYSTORE_TYPE@ || k == INTER_SSL_TRUSTSTORE_LOCATION@ || k
            == INTER_SSL_TRUSTSTORE_PASSWORD@ || k == INTER_SSL_TRUSTSTORE_TYPE@ || k
            == INTER_SSL_CLIENT_AUTH@ || k == INTER_BROKER_LISTENER_NAME@);
        if k == INTER_BROKER_LISTENER_NAME@ {
            assert(k[0] == 'i');
        } else {
            assert(k[14] == 'i');
        }
    }
}

/// When a TLS-provider authentication class with a client-certificate
/// override is resolved, the override is the sole secret class of the
/// external scope — the server secret class is never used there — and the
/// emitter marks client authentication as required.
pub proof fn lemma_client_auth_override(s: &KafkaTlsSecurity, o: Seq<char>)
    requires
        s.spec_tls_auth_class() matches Some(c) && c.provider matches
            AuthenticationClassProvider::Tls { client_cert_secret_class: Some(cs) } && cs@ == o,
    ensures
        s.spec_effective_client_secret_class() == Some(o),
        s.spec_volumes_needed().len() >= 2,
        s.spec_volumes_needed()[0].content == (VolumeContentView::EphemeralSecret {
            secret_class: o,
            pkcs12: false,
        }),
        s.spec_volumes_needed()[1].content == (VolumeContentView::EphemeralSecret {
            secret_class: o,
            pkcs12: true,
        }),
        s.spec_config_settings()[6] == (CLIENT_AUTH_SSL_CLIENT_AUTH@, "required"@),
{
}

/// Internal TLS is independent of client TLS: two states that agree on
/// the authentication classes and the server secret class expose the same
/// client port, whatever their internal secret classes are.
pub proof fn lemma_internal_independent_of_client(a: &KafkaTlsSecurity, b: &KafkaTlsSecurity)
    requires
        a.resolved_authentication_classes == b.resolved_authentication_classes,
        a.server_secret_class == b.server_secret_class,
    ensures
        a.spec_tls_enabled() == b.spec_tls_enabled(),
        a.spec_client_port() == b.spec_client_port(),
        a.spec_client_port_name() == b.spec_client_port_name(),
{
}

} // verus!
