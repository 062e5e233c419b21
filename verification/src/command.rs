//! Container command lines assembled directly from the cluster object:
//! the init-container script that prepares certificate stores and data
//! directories, and the kcat probe invocation.

use crate::security::{CLIENT_PORT, SECURE_CLIENT_PORT, SSL_STORE_PASSWORD, SYSTEM_TRUST_STORE_DIR};
use crate::strings::{join_all, spec_dec_digits, spec_join, u16_dec};
use crate::{KafkaCluster, STACKABLE_DATA_DIR, STACKABLE_TMP_DIR};
use vstd::prelude::*;

verus! {

/// Directory the certificate material is staged in.
pub const STACKABLE_TLS_CERTS_DIR: &'static str = "/stackable/tls_certs";

// kcat configuration keys.
pub const SSL_KEYSTORE_LOCATION: &'static str = "ssl.keystore.location";

pub const SSL_KEYSTORE_PASSWORD: &'static str = "ssl.keystore.password";

pub const SSL_TRUSTSTORE_LOCATION: &'static str = "ssl.truststore.location";

pub const SSL_TRUSTSTORE_PASSWORD: &'static str = "ssl.truststore.password";

impl KafkaCluster {
    /// The secret class securing client connections, when client TLS is
    /// configured.
    pub open spec fn spec_client_tls_secret_class(&self) -> Option<Seq<char>> {
        match self.spec.cluster_config.tls {
            Some(t) => t.server_secret_class.deep_view(),
            None => None,
        }
    }

    /// The secret class securing client connections, when client TLS is
    /// configured.
    pub fn client_tls_secret_class(&self) -> (r: Option<&String>)
        ensures
            r.deep_view() == self.spec_client_tls_secret_class(),
    {
        match &self.spec.cluster_config.tls {
            Some(t) => t.server_secret_class.as_ref(),
            None => None,
        }
    }
}

/// The commands that derive a password-protected truststore and keystore
/// from the certificates the secret provider mounted.
pub open spec fn spec_create_key_and_trust_store(
    directory: Seq<char>,
    alias_name: Seq<char>,
) -> Seq<Seq<char>> {
    seq![
        "echo ["@ + directory + "] Creating truststore"@,
        "keytool -importcert -file "@ + directory + "/ca.crt -keystore "@ + directory
            + "/truststore.p12 -storetype pkcs12 -noprompt -alias "@ + alias_name + " -storepass "@
            + SSL_STORE_PASSWORD@,
        "echo ["@ + directory + "] Creating certificate chain"@,
        "cat "@ + directory + "/ca.crt "@ + directory + "/tls.crt > "@ + directory + "/chain.crt"@,
        "echo ["@ + directory + "] Creating keystore"@,
        "openssl pkcs12 -export -in "@ + directory + "/chain.crt -inkey "@ + directory
            + "/tls.key -out "@ + directory + "/keystore.p12 --passout pass:"@
            + SSL_STORE_PASSWORD@,
    ]
}

/// The commands that hand a directory to the product user and close it to
/// everyone else.
pub open spec fn spec_chown_and_chmod(directory: Seq<char>) -> Seq<Seq<char>> {
    seq![
        "echo chown and chmod "@ + directory,
        "chown -R stackable:stackable "@ + directory,
        "chmod -R a=,u=rwX "@ + directory,
    ]
}

/// The command that copies the system truststore into the staging
/// directory.
pub open spec fn spec_system_truststore_cmd() -> Seq<char> {
    "keytool -importkeystore -srckeystore "@ + SYSTEM_TRUST_STORE_DIR@
        + " -srcstoretype jks -srcstorepass "@ + SSL_STORE_PASSWORD@ + " -destkeystore "@
        + STACKABLE_TLS_CERTS_DIR@ + "/truststore.p12 -deststoretype pkcs12 -deststorepass "@
        + SSL_STORE_PASSWORD@ + " -noprompt"@
}

/// The full init-container script: system trust import, then — when
/// client TLS is configured — key and trust store creation with ownership
/// fixes, then ownership fixes for the data and scratch directories, all
/// joined into one shell command line.
pub open spec fn spec_prepare_container_cmd_args(kafka: &KafkaCluster) -> Seq<char> {
    spec_join(
        seq![spec_system_truststore_cmd()] + (if kafka.spec_client_tls_secret_class() is Some {
            spec_create_key_and_trust_store(STACKABLE_TLS_CERTS_DIR@, "stackable-ca-cert"@)
                + spec_chown_and_chmod(STACKABLE_TLS_CERTS_DIR@)
        } else {
            Seq::empty()
        }) + spec_chown_and_chmod(STACKABLE_DATA_DIR@) + spec_chown_and_chmod(STACKABLE_TMP_DIR@),
        " && "@,
    )
}

/// The commands that derive a password-protected truststore and keystore
/// from the certificates the secret provider mounted.
pub fn create_key_and_trust_store(directory: &str, alias_name: &str) -> (r: Vec<String>)
    ensures
        r.deep_view() == spec_create_key_and_trust_store(directory@, alias_name@),
{
    let mut r: Vec<String> = Vec::new();
    let mut echo_trust = String::from_str("echo [");
    echo_trust.append(directory);
    echo_trust.append("] Creating truststore");
    r.push(echo_trust);
    let mut trust = String::from_str("keytool -importcert -file ");
    trust.append(directory);
    trust.append("/ca.crt -keystore ");
    trust.append(directory);
    trust.append("/truststore.p12 -storetype pkcs12 -noprompt -alias ");
    trust.append(alias_name);
    trust.append(" -storepass ");
    trust.append(SSL_STORE_PASSWORD);
    r.push(trust);
    let mut echo_chain = String::from_str("echo [");
    echo_chain.append(directory);
    echo_chain.append("] Creating certificate chain");
    r.push(echo_chain);
    let mut chain = String::from_str("cat ");
    chain.append(directory);
    chain.append("/ca.crt ");
    chain.append(directory);
    chain.append("/tls.crt > ");
    chain.append(directory);
    chain.append("/chain.crt");
    r.push(chain);
    let mut echo_key = String::from_str("echo [");
    echo_key.append(directory);
    echo_key.append("] Creating keystore");
    r.push(echo_key);
    let mut key = String::from_str("openssl pkcs12 -export -in ");
    key.append(directory);
    key.append("/chain.crt -inkey ");
    key.append(directory);
    key.append("/tls.key -out ");
    key.append(directory);
    key.append("/keystore.p12 --passout pass:");
    key.append(SSL_STORE_PASSWORD);
    r.push(key);
    proof {
        assert(r.deep_view() =~= spec_create_key_and_trust_store(directory@, alias_name@));
    }
    r
}

/// The commands that hand a directory to the product user and close it to
/// everyone else.
pub fn chown_and_chmod(directory: &str) -> (r: Vec<String>)
    ensures
        r.deep_view() == spec_chown_and_chmod(directory@),
{
    let mut r: Vec<String> = Vec::new();
    let mut echo = String::from_str("echo chown and chmod ");
    echo.append(directory);
    r.push(echo);
    let mut chown = String::from_str("chown -R stackable:stackable ");
    chown.append(directory);
    r.push(chown);
    let mut chmod = String::from_str("chmod -R a=,u=rwX ");
    chmod.append(directory);
    r.push(chmod);
    proof {
        assert(r.deep_view() =~= spec_chown_and_chmod(directory@));
    }
    r
}

/// The init-container script preparing stores and directories, as one
/// shell command line.
pub fn prepare_container_cmd_args(kafka: &KafkaCluster) -> (r: String)
    ensures
        r@ == spec_prepare_container_cmd_args(kafka),
{
    let mut args: Vec<String> = Vec::new();
    let mut sys = String::from_str("keytool -importkeystore -srckeystore ");
    sys.append(SYSTEM_TRUST_STORE_DIR);
    sys.append(" -srcstoretype jks -srcstorepass ");
    sys.append(SSL_STORE_PASSWORD);
    sys.append(" -destkeystore ");
    sys.append(STACKABLE_TLS_CERTS_DIR);
    sys.append("/truststore.p12 -deststoretype pkcs12 -deststorepass ");
    sys.append(SSL_STORE_PASSWORD);
    sys.append(" -noprompt");
    args.push(sys);
    if kafka.client_tls_secret_class().is_some() {
        let mut stores = create_key_and_trust_store(STACKABLE_TLS_CERTS_DIR, "stackable-ca-cert");
        args.append(&mut stores);
        let mut own = chown_and_chmod(STACKABLE_TLS_CERTS_DIR);
        args.append(&mut own);
    }
    let mut own_data = chown_and_chmod(STACKABLE_DATA_DIR);
    args.append(&mut own_data);
    let mut own_tmp = chown_and_chmod(STACKABLE_TMP_DIR);
    args.append(&mut own_tmp);
    proof {
        assert(args.deep_view() =~= seq![spec_system_truststore_cmd()] + (
        if kafka.spec_client_tls_secret_class() is Some {
            spec_create_key_and_trust_store(STACKABLE_TLS_CERTS_DIR@, "stackable-ca-cert"@)
                + spec_chown_and_chmod(STACKABLE_TLS_CERTS_DIR@)
        } else {
            Seq::empty()
        }) + spec_chown_and_chmod(STACKABLE_DATA_DIR@) + spec_chown_and_chmod(STACKABLE_TMP_DIR@));
    }
    join_all(&args, " && ")
}

/// The kcat invocation probing the client listener of the cluster, with
/// TLS options when client TLS is configured.
pub open spec fn spec_kcat_container_cmd_args(kafka: &KafkaCluster) -> Seq<Seq<char>> {
    seq!["kcat"@] + (if kafka.spec_client_tls_secret_class() is Some {
        seq![
            "-b"@,
            "localhost:"@ + spec_dec_digits(SECURE_CLIENT_PORT as int),
            "-X"@,
            "security.protocol=SSL"@,
            "-X"@,
            SSL_KEYSTORE_LOCATION@ + "="@ + STACKABLE_TLS_CERTS_DIR@ + "/keystore.p12"@,
            "-X"@,
            SSL_KEYSTORE_PASSWORD@ + "="@ + SSL_STORE_PASSWORD@,
            "-X"@,
            SSL_TRUSTSTORE_LOCATION@ + "="@ + STACKABLE_TLS_CERTS_DIR@ + "/truststore.p12"@,
            "-X"@,
            SSL_TRUSTSTORE_PASSWORD@ + "="@ + SSL_STORE_PASSWORD@,
        ]
    } else {
        seq!["-b"@, "localhost:"@ + spec_dec_digits(CLIENT_PORT as int)]
    }) + seq!["-L"@]
}

/// The kcat invocation probing the client listener of the cluster.
pub fn kcat_container_cmd_args(kafka: &KafkaCluster) -> (r: Vec<String>)
    ensures
        r.deep_view() == spec_kcat_container_cmd_args(kafka),
{
    let mut args: Vec<String> = Vec::new();
    args.push(String::from_str("kcat"));
    if kafka.client_tls_secret_class().is_some() {
        args.push(String::from_str("-b"));
        args.push(String::from_str("localhost:").concat(u16_dec(SECURE_CLIENT_PORT).as_str()));
        args.push(String::from_str("-X"));
        args.push(String::from_str("security.protocol=SSL"));
        args.push(String::from_str("-X"));
        let mut ks = String::from_str(SSL_KEYSTORE_LOCATION);
        ks.append("=");
        ks.append(STACKABLE_TLS_CERTS_DIR);
        ks.append("/keystore.p12");
        args.push(ks);
        args.push(String::from_str("-X"));
        let mut kp = String::from_str(SSL_KEYSTORE_PASSWORD);
        kp.append("=");
        kp.append(SSL_STORE_PASSWORD);
        args.push(kp);
        args.push(String::from_str("-X"));
        let mut ts = String::from_str(SSL_TRUSTSTORE_LOCATION);
        ts.append("=");
        ts.append(STACKABLE_TLS_CERTS_DIR);
        ts.append("/truststore.p12");
        args.push(ts);
        args.push(String::from_str("-X"));
        let mut tp = String::from_str(SSL_TRUSTSTORE_PASSWORD);
        tp.append("=");
        tp.append(SSL_STORE_PASSWORD);
        args.push(tp);
    } else {
        args.push(String::from_str("-b"));
        args.push(String::from_str("localhost:").concat(u16_dec(CLIENT_PORT).as_str()));
    }
    args.push(String::from_str("-L"));
    proof {
        assert(args.deep_view() =~= spec_kcat_container_cmd_args(kafka));
    }
    args
}

} // verus!
