//! A verified model of a Kafka broker cluster's declarative configuration:
//! transport-security resolution, certificate materialization planning,
//! broker configuration emission, hierarchical configuration merging and
//! pod topology prediction.

pub mod affinity;
pub mod authentication;
pub mod authorization;
pub mod command;
pub mod config;
pub mod listener;
pub mod security;
pub mod strings;
pub mod tls;
pub mod topology;

use crate::affinity::{LabelSelector, LabelSelectorView};
use crate::authentication::KafkaAuthentication;
use crate::authorization::KafkaAuthorization;
use crate::config::{KafkaConfig, KafkaConfigFragment, KafkaConfigFragmentView};
use crate::strings::spec_dec_digits;
use crate::tls::KafkaTls;
use vstd::prelude::*;

verus! {

/// Product name, used as a label value and in service names.
pub const APP_NAME: &'static str = "kafka";

/// Base name of the product image.
pub const DOCKER_IMAGE_BASE_NAME: &'static str = "kafka";

/// Name of the operator that owns the cluster objects.
pub const OPERATOR_NAME: &'static str = "kafka.stackable.tech";

/// Name of the metrics port.
pub const METRICS_PORT_NAME: &'static str = "metrics";

/// Port the metrics exporter listens on.
pub const METRICS_PORT: u16 = 9606;

/// File the broker configuration properties are written to.
pub const SERVER_PROPERTIES_FILE: &'static str = "server.properties";

/// Environment variable holding the broker heap settings.
pub const KAFKA_HEAP_OPTS: &'static str = "KAFKA_HEAP_OPTS";

/// Name of the volume holding the broker's log directories.
pub const LOG_DIRS_VOLUME_NAME: &'static str = "log-dirs";

/// Scratch directory writable by the containers.
pub const STACKABLE_TMP_DIR: &'static str = "/stackable/tmp";

/// Data directory of the broker.
pub const STACKABLE_DATA_DIR: &'static str = "/stackable/data";

/// Directory the broker configuration is mounted at.
pub const STACKABLE_CONFIG_DIR: &'static str = "/stackable/config";

/// Directory the logging configuration is mounted at.
pub const STACKABLE_LOG_CONFIG_DIR: &'static str = "/stackable/log_config";

/// Errors surfaced by the cluster model. None is retried internally; the
/// caller translates them into status conditions.
#[derive(Debug, PartialEq)]
pub enum Error {
    /// The cluster object has no namespace, so no pod can be addressed.
    NoNamespace,
    /// The role is not defined in the cluster specification.
    CannotRetrieveKafkaRole { role: String },
    /// A rolegroup reference names a role this product does not have.
    UnknownKafkaRole { role: String, roles: Vec<String> },
    /// The rolegroup is not defined under its role.
    CannotRetrieveKafkaRoleGroup { role_group: String },
    /// After merging defaults, role and rolegroup configuration, a required
    /// field is still unset; a missing default, not a user error.
    FragmentValidationFailure { field: String },
}

/// The containers that make up a broker pod.
#[derive(Clone, Copy, Debug, PartialEq, Eq, Structural)]
pub enum Container {
    /// Init container converting certificate material.
    Prepare,
    /// Log aggregation agent.
    Vector,
    /// Readiness probe.
    KcatProber,
    /// Retrieves the node port of the client service.
    GetService,
    /// The broker itself.
    Kafka,
}

impl DeepView for Container {
    type V = Container;

    open spec fn deep_view(&self) -> Container {
        *self
    }
}

impl Container {
    /// The container's name inside the pod.
    pub fn name(&self) -> (r: &'static str)
        ensures
            r@ == self.spec_name(),
    {
        match self {
            Container::Prepare => "prepare",
            Container::Vector => "vector",
            Container::KcatProber => "kcat-prober",
            Container::GetService => "get-service",
            Container::Kafka => "kafka",
        }
    }

    /// The container's name inside the pod.
    pub open spec fn spec_name(&self) -> Seq<char> {
        match self {
            Container::Prepare => "prepare"@,
            Container::Vector => "vector"@,
            Container::KcatProber => "kcat-prober"@,
            Container::GetService => "get-service"@,
            Container::Kafka => "kafka"@,
        }
    }
}

/// The roles a cluster node can take; brokers are the only one.
#[derive(Clone, Copy, Debug, PartialEq, Eq, Structural)]
pub enum KafkaRole {
    /// A message broker.
    Broker,
}

impl KafkaRole {
    /// The role's name, as written in rolegroup references and labels.
    pub fn name(&self) -> (r: &'static str)
        ensures
            r@ == self.spec_name(),
    {
        match self {
            KafkaRole::Broker => "broker",
        }
    }

    /// The role's name, as written in rolegroup references and labels.
    pub open spec fn spec_name(&self) -> Seq<char> {
        match self {
            KafkaRole::Broker => "broker"@,
        }
    }

    /// The role a name refers to, if any.
    pub fn from_name(name: &str) -> (r: Option<KafkaRole>)
        ensures
            r == if name@ == "broker"@ {
                Some(KafkaRole::Broker)
            } else {
                None::<KafkaRole>
            },
    {
        if crate::strings::str_eq(name, "broker") {
            Some(KafkaRole::Broker)
        } else {
            None
        }
    }

    /// The names of every role, in declaration order.
    pub fn roles() -> (r: Vec<String>)
        ensures
            r.deep_view() == seq!["broker"@],
    {
        let mut roles: Vec<String> = Vec::new();
        roles.push(String::from_str("broker"));
        proof {
            assert(roles.deep_view() =~= seq!["broker"@]);
        }
        roles
    }

    /// A reference to a rolegroup of this role in the given cluster.
    pub fn rolegroup_ref(&self, kafka: &KafkaCluster, group_name: &str) -> (r: RoleGroupRef)
        ensures
            r@ == (RoleGroupRefView {
                cluster: kafka.spec_cluster_name(),
                role: self.spec_name(),
                role_group: group_name@,
            }),
    {
        RoleGroupRef {
            cluster: kafka.name_any(),
            role: String::from_str(self.name()),
            role_group: String::from_str(group_name),
        }
    }
}

/// The stable name of the object a rolegroup's resources are named after:
/// cluster, role and group joined by dashes.
pub open spec fn spec_object_name(
    cluster: Seq<char>,
    role: Seq<char>,
    role_group: Seq<char>,
) -> Seq<char> {
    cluster + "-"@ + role + "-"@ + role_group
}

/// Identifies one rolegroup of one cluster.
#[derive(Debug, PartialEq)]
pub struct RoleGroupRef {
    /// Name of the cluster object.
    pub cluster: String,
    /// Name of the role.
    pub role: String,
    /// Name of the group within the role.
    pub role_group: String,
}

/// Spec-level form of a rolegroup reference.
#[verifier::ext_equal]
pub struct RoleGroupRefView {
    pub cluster: Seq<char>,
    pub role: Seq<char>,
    pub role_group: Seq<char>,
}

impl View for RoleGroupRef {
    type V = RoleGroupRefView;

    open spec fn view(&self) -> RoleGroupRefView {
        RoleGroupRefView { cluster: self.cluster@, role: self.role@, role_group: self.role_group@ }
    }
}

impl RoleGroupRefView {
    /// The name of the object that carries this rolegroup's resources.
    pub open spec fn spec_object_name(self) -> Seq<char> {
        spec_object_name(self.cluster, self.role, self.role_group)
    }
}

impl RoleGroupRef {
    /// The name of the object that carries this rolegroup's resources.
    pub fn object_name(&self) -> (r: String)
        ensures
            r@ == self@.spec_object_name(),
    {
        let mut name = self.cluster.clone();
        name.append("-");
        name.append(self.role.as_str());
        name.append("-");
        name.append(self.role_group.as_str());
        name
    }
}

/// One rolegroup: an independently scaled subset of a role's instances.
#[derive(Debug, PartialEq)]
pub struct RoleGroup {
    /// Configuration overrides of this group; highest precedence.
    pub config: KafkaConfigFragment,
    /// How many instances the group runs.
    pub replicas: Option<u16>,
    /// Deprecated pod selector, migrated into affinity terms.
    pub selector: Option<LabelSelector>,
}

/// Spec-level form of a rolegroup.
#[verifier::ext_equal]
pub struct RoleGroupView {
    pub config: KafkaConfigFragmentView,
    pub replicas: Option<u16>,
    pub selector: Option<LabelSelectorView>,
}

impl View for RoleGroup {
    type V = RoleGroupView;

    open spec fn view(&self) -> RoleGroupView {
        RoleGroupView {
            config: self.config@,
            replicas: self.replicas,
            selector: self.selector.deep_view(),
        }
    }
}

impl DeepView for RoleGroup {
    type V = RoleGroupView;

    open spec fn deep_view(&self) -> RoleGroupView {
        self.view()
    }
}

/// A named rolegroup of a role. Groups are keyed by name: within one role
/// no two entries share a name, and their order carries no meaning.
#[derive(Debug, PartialEq)]
pub struct RoleGroupEntry {
    /// The group's name.
    pub name: String,
    /// The group itself.
    pub group: RoleGroup,
}

/// Spec-level form of a named rolegroup.
#[verifier::ext_equal]
pub struct RoleGroupEntryView {
    pub name: Seq<char>,
    pub group: RoleGroupView,
}

impl View for RoleGroupEntry {
    type V = RoleGroupEntryView;

    open spec fn view(&self) -> RoleGroupEntryView {
        RoleGroupEntryView { name: self.name@, group: self.group@ }
    }
}

impl DeepView for RoleGroupEntry {
    type V = RoleGroupEntryView;

    open spec fn deep_view(&self) -> RoleGroupEntryView {
        self.view()
    }
}

/// A role's declaration: role-level configuration and its rolegroups.
#[derive(Debug, PartialEq)]
pub struct Role {
    /// Role-level configuration; middle precedence.
    pub config: KafkaConfigFragment,
    /// The rolegroups, keyed by name.
    pub role_groups: Vec<RoleGroupEntry>,
}

/// Spec-level form of a role declaration.
#[verifier::ext_equal]
pub struct RoleView {
    pub config: KafkaConfigFragmentView,
    pub role_groups: Seq<RoleGroupEntryView>,
}

impl View for Role {
    type V = RoleView;

    open spec fn view(&self) -> RoleView {
        RoleView { config: self.config@, role_groups: self.role_groups.deep_view() }
    }
}

/// The product image the cluster runs.
#[derive(Debug, PartialEq)]
pub struct ProductImage {
    /// Version of the product.
    pub product_version: String,
    /// Version of the packaging around it, when pinned.
    pub stackable_version: Option<String>,
}

/// Cluster-wide operational flags.
#[derive(Debug, PartialEq)]
pub struct ClusterOperation {
    /// Pause reconciliation while keeping the cluster running.
    pub reconciliation_paused: bool,
    /// Stop the cluster: keep the objects, scale everything to zero.
    pub stopped: bool,
}

/// Cluster-wide configuration: authentication, authorization, TLS and the
/// discovery config maps.
#[derive(Debug, PartialEq)]
pub struct KafkaClusterConfig {
    /// Authentication class references, e.g. for mutual TLS.
    pub authentication: Vec<KafkaAuthentication>,
    /// Authorization settings, e.g. an Open Policy Agent backend.
    pub authorization: KafkaAuthorization,
    /// TLS settings for the server and internal scopes; absent means the
    /// defaults, not "no TLS".
    pub tls: Option<KafkaTls>,
    /// Discovery config map of the log aggregator, when logs are shipped.
    pub vector_aggregator_config_map_name: Option<String>,
    /// Discovery config map of the coordination service.
    pub zookeeper_config_map_name: String,
}

/// The declarative specification of a cluster.
#[derive(Debug, PartialEq)]
pub struct KafkaClusterSpec {
    /// The product image to run.
    pub image: ProductImage,
    /// The broker role, when declared.
    pub brokers: Option<Role>,
    /// Cluster-wide configuration.
    pub cluster_config: KafkaClusterConfig,
    /// Operational flags.
    pub cluster_operation: ClusterOperation,
}

/// One observed condition of the cluster.
#[derive(Debug, PartialEq)]
pub struct ClusterCondition {
    /// What the condition is about.
    pub condition_type: String,
    /// Whether it holds.
    pub status: String,
    /// Human-readable detail, when present.
    pub message: Option<String>,
}

impl Clone for ClusterCondition {
    fn clone(&self) -> (r: Self)
        ensures
            r == *self,
    {
        ClusterCondition {
            condition_type: self.condition_type.clone(),
            status: self.status.clone(),
            message: match &self.message {
                Some(m) => Some(m.clone()),
                None => None,
            },
        }
    }
}

/// The observed status of a cluster.
#[derive(Debug, PartialEq)]
pub struct KafkaClusterStatus {
    /// The conditions last reported.
    pub conditions: Vec<ClusterCondition>,
}

/// Object identity as the cluster store keeps it.
#[derive(Debug, PartialEq)]
pub struct ObjectMeta {
    /// The object's name.
    pub name: Option<String>,
    /// The namespace it lives in.
    pub namespace: Option<String>,
}

/// A cluster object: identity, declarative specification and observed
/// status.
#[derive(Debug, PartialEq)]
pub struct KafkaCluster {
    /// Identity of the object.
    pub metadata: ObjectMeta,
    /// The declared state.
    pub spec: KafkaClusterSpec,
    /// The last observed state, when any was recorded.
    pub status: Option<KafkaClusterStatus>,
}

/// Reference to a single pod of a cluster, used for service discovery.
/// A pure projection of the specification: computed fresh on every call,
/// never persisted.
#[derive(Debug, PartialEq)]
pub struct KafkaPodRef {
    pub namespace: String,
    pub role_group_service_name: String,
    pub pod_name: String,
}

/// Spec-level form of a pod reference.
#[verifier::ext_equal]
pub struct KafkaPodRefView {
    pub namespace: Seq<char>,
    pub role_group_service_name: Seq<char>,
    pub pod_name: Seq<char>,
}

impl View for KafkaPodRef {
    type V = KafkaPodRefView;

    open spec fn view(&self) -> KafkaPodRefView {
        KafkaPodRefView {
            namespace: self.namespace@,
            role_group_service_name: self.role_group_service_name@,
            pod_name: self.pod_name@,
        }
    }
}

impl DeepView for KafkaPodRef {
    type V = KafkaPodRefView;

    open spec fn deep_view(&self) -> KafkaPodRefView {
        self.view()
    }
}

impl KafkaPodRefView {
    /// The pod's stable in-cluster DNS name.
    pub open spec fn spec_fqdn(self) -> Seq<char> {
        self.pod_name + "."@ + self.role_group_service_name + "."@ + self.namespace
            + ".svc.cluster.local"@
    }
}

impl KafkaPodRef {
    /// The pod's stable in-cluster DNS name.
    pub fn fqdn(&self) -> (r: String)
        ensures
            r@ == self@.spec_fqdn(),
    {
        let mut name = self.pod_name.clone();
        name.append(".");
        name.append(self.role_group_service_name.as_str());
        name.append(".");
        name.append(self.namespace.as_str());
        name.append(".svc.cluster.local");
        name
    }
}

impl KafkaCluster {
    /// The cluster's name; empty when the object carries none.
    pub open spec fn spec_cluster_name(&self) -> Seq<char> {
        match self.metadata.name {
            Some(n) => n@,
            None => ""@,
        }
    }

    /// The cluster's name; empty when the object carries none.
    pub fn name_any(&self) -> (r: String)
        ensures
            r@ == self.spec_cluster_name(),
    {
        proof {
            reveal_strlit("");
            assert(""@ =~= Seq::<char>::empty());
        }
        match &self.metadata.name {
            Some(n) => n.clone(),
            None => String::new(),
        }
    }

    /// The name of the role-level load-balanced service: the cluster's own
    /// name.
    pub fn broker_role_service_name(&self) -> (r: Option<String>)
        ensures
            r.deep_view() == self.metadata.name.deep_view(),
    {
        match &self.metadata.name {
            Some(n) => Some(n.clone()),
            None => None,
        }
    }

    /// A reference to a broker rolegroup of this cluster.
    pub fn broker_rolegroup_ref(&self, group_name: &str) -> (r: RoleGroupRef)
        ensures
            r@ == (RoleGroupRefView {
                cluster: self.spec_cluster_name(),
                role: "broker"@,
                role_group: group_name@,
            }),
    {
        KafkaRole::Broker.rolegroup_ref(self, group_name)
    }

    /// The last reported conditions; empty when no status was recorded.
    pub fn conditions(&self) -> (r: Vec<ClusterCondition>)
        ensures
            match &self.status {
                Some(status) => r@ =~= status.conditions@,
                None => r@.len() == 0,
            },
    {
        match &self.status {
            Some(status) => {
                let mut out: Vec<ClusterCondition> = Vec::new();
                let n = status.conditions.len();
                let mut i: usize = 0;
                while i < n
                    invariant
                        i <= n,
                        n == status.conditions@.len(),
                        out@ =~= status.conditions@.take(i as int),
                    decreases n - i,
                {
                    out.push(status.conditions[i].clone());
                    proof {
                        assert(out@ =~= status.conditions@.take(i as int + 1));
                    }
                    i = i + 1;
                }
                proof {
                    assert(status.conditions@.take(n as int) =~= status.conditions@);
                }
                out
            },
            None => Vec::new(),
        }
    }

    /// The first rolegroup of the sequence carrying the given name.
    pub open spec fn spec_find_group(
        entries: Seq<RoleGroupEntryView>,
        name: Seq<char>,
    ) -> Option<RoleGroupEntryView>
        decreases entries.len(),
    {
        if entries.len() == 0 {
            None
        } else if entries[0].name == name {
            Some(entries[0])
        } else {
            Self::spec_find_group(entries.drop_first(), name)
        }
    }

    /// The declaration of a role; an error when the specification leaves
    /// it out.
    pub fn role(&self, role_variant: &KafkaRole) -> (r: Result<&Role, Error>)
        ensures
            match r {
                Ok(ro) => self.spec.brokers == Some(*ro),
                Err(e) => {
                    &&& self.spec.brokers is None
                    &&& e matches Error::CannotRetrieveKafkaRole { role } && role@
                        == role_variant.spec_name()
                },
            },
    {
        match role_variant {
            KafkaRole::Broker => match &self.spec.brokers {
                Some(role) => Ok(role),
                None => Err(
                    Error::CannotRetrieveKafkaRole { role: String::from_str(role_variant.name()) },
                ),
            },
        }
    }

    /// The rolegroup a reference points at; an error when its role name is
    /// unknown, the role is not declared, or the group is missing.
    pub fn rolegroup(&self, rolegroup_ref: &RoleGroupRef) -> (r: Result<&RoleGroup, Error>)
        ensures
            match r {
                Ok(g) => {
                    &&& rolegroup_ref.role@ == "broker"@
                    &&& self.spec.brokers matches Some(b) && Self::spec_find_group(
                        b.role_groups.deep_view(),
                        rolegroup_ref.role_group@,
                    ) matches Some(e) && g@ == e.group
                },
                Err(e) => match e {
                    Error::UnknownKafkaRole { role: ro, roles: rs } => {
                        &&& rolegroup_ref.role@ != "broker"@
                        &&& ro@ == rolegroup_ref.role@
                        &&& rs.deep_view() == seq!["broker"@]
                    },
                    Error::CannotRetrieveKafkaRole { role: ro } => {
                        &&& rolegroup_ref.role@ == "broker"@
                        &&& self.spec.brokers is None
                        &&& ro@ == "broker"@
                    },
                    Error::CannotRetrieveKafkaRoleGroup { role_group } => {
                        &&& rolegroup_ref.role@ == "broker"@
                        &&& self.spec.brokers matches Some(b) && Self::spec_find_group(
                            b.role_groups.deep_view(),
                            rolegroup_ref.role_group@,
                        ) is None
                        &&& role_group@ == rolegroup_ref.role_group@
                    },
                    _ => false,
                },
            },
    {
        let role_variant = match KafkaRole::from_name(rolegroup_ref.role.as_str()) {
            Some(v) => v,
            None => {
                return Err(
                    Error::UnknownKafkaRole {
                        role: rolegroup_ref.role.clone(),
                        roles: KafkaRole::roles(),
                    },
                );
            },
        };
        let role = match self.role(&role_variant) {
            Ok(ro) => ro,
            Err(e) => {
                return Err(e);
            },
        };
        let n = role.role_groups.len();
        let mut i: usize = 0;
        proof {
            assert(role.role_groups.deep_view().skip(0) =~= role.role_groups.deep_view());
        }
        while i < n
            invariant
                i <= n,
                n == role.role_groups@.len(),
                self.spec.brokers == Some(*role),
                rolegroup_ref.role@ == "broker"@,
                Self::spec_find_group(role.role_groups.deep_view(), rolegroup_ref.role_group@)
                    == Self::spec_find_group(
                    role.role_groups.deep_view().skip(i as int),
                    rolegroup_ref.role_group@,
                ),
            decreases n - i,
        {
            proof {
                assert(role.role_groups.deep_view().skip(i as int)[0] == role.role_groups.deep_view()[i as int]);
                assert(role.role_groups.deep_view().skip(i as int).drop_first()
                    =~= role.role_groups.deep_view().skip(i as int + 1));
            }
            if crate::strings::str_eq(
                role.role_groups[i].name.as_str(),
                rolegroup_ref.role_group.as_str(),
            ) {
                proof {
                    let dv = role.role_groups.deep_view();
                    assert(dv[i as int] == role.role_groups@[i as int].deep_view());
                    assert(dv.skip(i as int)[0].name == rolegroup_ref.role_group@);
                    assert(Self::spec_find_group(dv, rolegroup_ref.role_group@) == Some(
                        dv[i as int],
                    ));
                }
                return Ok(&role.role_groups[i].group);
            }
            i = i + 1;
        }
        proof {
            assert(role.role_groups.deep_view().skip(n as int)
                =~= Seq::<RoleGroupEntryView>::empty());
        }
        Err(Error::CannotRetrieveKafkaRoleGroup { role_group: rolegroup_ref.role_group.clone() })
    }
}

/// The replica count a group runs: its declared count, or none.
pub open spec fn spec_replicas_or_zero(r: Option<u16>) -> u16 {
    match r {
        Some(n) => n,
        None => 0,
    }
}

/// The (name, replicas) pairs of a role's groups, in declaration order.
pub open spec fn spec_group_pairs(entries: Seq<RoleGroupEntryView>) -> Seq<(Seq<char>, u16)> {
    entries.map_values(|e: RoleGroupEntryView| (e.name, spec_replicas_or_zero(e.group.replicas)))
}

/// The pods one group contributes: ordinals `0..replicas`, each with the
/// group's stable service name.
pub open spec fn spec_group_pod_seq(
    ns: Seq<char>,
    cluster: Seq<char>,
    pair: (Seq<char>, u16),
) -> Seq<KafkaPodRefView> {
    Seq::new(
        pair.1 as nat,
        |i: int|
            KafkaPodRefView {
                namespace: ns,
                role_group_service_name: spec_object_name(cluster, "broker"@, pair.0),
                pod_name: spec_object_name(cluster, "broker"@, pair.0) + "-"@ + spec_dec_digits(i),
            },
    )
}

/// The pods a sequence of groups contributes, group by group.
pub open spec fn spec_pods_of(
    ns: Seq<char>,
    cluster: Seq<char>,
    pairs: Seq<(Seq<char>, u16)>,
) -> Seq<KafkaPodRefView>
    decreases pairs.len(),
{
    if pairs.len() == 0 {
        Seq::empty()
    } else {
        spec_group_pod_seq(ns, cluster, pairs[0]) + spec_pods_of(ns, cluster, pairs.drop_first())
    }
}

/// Appending a group appends its pods.
pub proof fn lemma_pods_of_snoc(
    ns: Seq<char>,
    cluster: Seq<char>,
    pairs: Seq<(Seq<char>, u16)>,
    p: (Seq<char>, u16),
)
    ensures
        spec_pods_of(ns, cluster, pairs.push(p)) == spec_pods_of(ns, cluster, pairs)
            + spec_group_pod_seq(ns, cluster, p),
    decreases pairs.len(),
{
    let e = pairs.push(p);
    if pairs.len() == 0 {
        assert(e[0] == p);
        assert(e.drop_first() =~= Seq::<(Seq<char>, u16)>::empty());
        assert(spec_pods_of(ns, cluster, e) == spec_group_pod_seq(ns, cluster, p) + spec_pods_of(
            ns,
            cluster,
            e.drop_first(),
        ));
        assert(spec_pods_of(ns, cluster, e.drop_first()).len() == 0);
        assert(spec_pods_of(ns, cluster, pairs).len() == 0);
        assert(spec_pods_of(ns, cluster, e) =~= spec_pods_of(ns, cluster, pairs)
            + spec_group_pod_seq(ns, cluster, p));
    } else {
        assert(e[0] == pairs[0]);
        assert(e.drop_first() =~= pairs.drop_first().push(p));
        assert(spec_pods_of(ns, cluster, e) == spec_group_pod_seq(ns, cluster, pairs[0])
            + spec_pods_of(ns, cluster, pairs.drop_first().push(p)));
        lemma_pods_of_snoc(ns, cluster, pairs.drop_first(), p);
        assert(spec_pods_of(ns, cluster, pairs) == spec_group_pod_seq(ns, cluster, pairs[0])
            + spec_pods_of(ns, cluster, pairs.drop_first()));
        assert(spec_pods_of(ns, cluster, e) =~= spec_pods_of(ns, cluster, pairs)
            + spec_group_pod_seq(ns, cluster, p));
    }
}

impl KafkaCluster {
    /// The (name, replicas) pairs of the broker groups, in declaration
    /// order; empty when no broker role is declared.
    pub open spec fn spec_broker_group_pairs(&self) -> Seq<(Seq<char>, u16)> {
        match self.spec.brokers {
            Some(b) => spec_group_pairs(b.role_groups.deep_view()),
            None => Seq::empty(),
        }
    }

    /// The pods the cluster is expected to consist of: groups in
    /// lexicographic name order, ordinals `0..replicas` within each.
    pub open spec fn spec_pods(&self) -> Seq<KafkaPodRefView> {
        spec_pods_of(
            match self.metadata.namespace {
                Some(n) => n@,
                None => Seq::empty(),
            },
            self.spec_cluster_name(),
            crate::topology::spec_sort_pairs(self.spec_broker_group_pairs()),
        )
    }

    /// All pods expected to form the cluster, predicted from the
    /// specification rather than read from live state, to avoid churn.
    /// Groups are enumerated in lexicographic name order — not declaration
    /// order — so that reordering unrelated groups reassigns no ordinal.
    pub fn pods(&self) -> (r: Result<Vec<KafkaPodRef>, Error>)
        ensures
            match r {
                Ok(v) => self.metadata.namespace is Some && v.deep_view() == self.spec_pods(),
                Err(e) => self.metadata.namespace is None && e matches Error::NoNamespace,
            },
    {
        let ns: &String = match &self.metadata.namespace {
            Some(n) => n,
            None => {
                return Err(Error::NoNamespace);
            },
        };
        let mut pairs: Vec<(String, u16)> = Vec::new();
        match &self.spec.brokers {
            Some(role) => {
                let n = role.role_groups.len();
                let mut j: usize = 0;
                proof {
                    assert(pairs.deep_view() =~= spec_group_pairs(
                        role.role_groups.deep_view().take(0),
                    ));
                }
                while j < n
                    invariant
                        j <= n,
                        n == role.role_groups@.len(),
                        pairs.deep_view() == spec_group_pairs(
                            role.role_groups.deep_view().take(j as int),
                        ),
                    decreases n - j,
                {
                    let name = role.role_groups[j].name.clone();
                    let replicas = match role.role_groups[j].group.replicas {
                        Some(x) => x,
                        None => 0,
                    };
                    let ghost nv = name@;
                    let ghost pre = pairs.deep_view();
                    pairs.push((name, replicas));
                    proof {
                        let dv = role.role_groups.deep_view();
                        assert(pairs.deep_view() =~= pre.push((nv, replicas)));
                        assert(dv[j as int] == role.role_groups@[j as int].deep_view());
                        assert(spec_group_pairs(dv.take(j as int + 1)) =~= pre.push((nv, replicas)));
                    }
                    j = j + 1;
                }
                proof {
                    assert(role.role_groups.deep_view().take(n as int) =~= role.role_groups.deep_view());
                }
            },
            None => {},
        }
        let sorted = crate::topology::sort_group_pairs(&pairs);
        let cluster_name = self.name_any();
        let ghost nsv = ns@;
        let ghost cl = self.spec_cluster_name();
        let ghost sorted_dv = sorted.deep_view();
        let mut out: Vec<KafkaPodRef> = Vec::new();
        let m = sorted.len();
        let mut k: usize = 0;
        proof {
            assert(out.deep_view() =~= spec_pods_of(nsv, cl, sorted_dv.take(0)));
        }
        while k < m
            invariant
                k <= m,
                m == sorted@.len(),
                sorted_dv == sorted.deep_view(),
                nsv == ns@,
                cl == self.spec_cluster_name(),
                cluster_name@ == cl,
                out.deep_view() == spec_pods_of(nsv, cl, sorted_dv.take(k as int)),
            decreases m - k,
        {
            let replicas = sorted[k].1;
            let mut svc = cluster_name.clone();
            svc.append("-");
            svc.append("broker");
            svc.append("-");
            svc.append(sorted[k].0.as_str());
            proof {
                assert(svc@ == spec_object_name(cl, "broker"@, sorted_dv[k as int].0));
            }
            let ghost pair = sorted_dv[k as int];
            let mut i: u16 = 0;
            proof {
                assert(spec_group_pod_seq(nsv, cl, pair).take(0) =~= Seq::<KafkaPodRefView>::empty());
                assert(out.deep_view() =~= spec_pods_of(nsv, cl, sorted_dv.take(k as int))
                    + spec_group_pod_seq(nsv, cl, pair).take(0));
            }
            while i < replicas
                invariant
                    i <= replicas,
                    replicas == pair.1,
                    nsv == ns@,
                    svc@ == spec_object_name(cl, "broker"@, pair.0),
                    out.deep_view() == spec_pods_of(nsv, cl, sorted_dv.take(k as int))
                        + spec_group_pod_seq(nsv, cl, pair).take(i as int),
                decreases replicas - i,
            {
                let mut pod_name = svc.clone();
                pod_name.append("-");
                let ordinal = crate::strings::u16_dec(i);
                pod_name.append(ordinal.as_str());
                let pod = KafkaPodRef {
                    namespace: ns.clone(),
                    role_group_service_name: svc.clone(),
                    pod_name,
                };
                proof {
                    assert(pod@ == spec_group_pod_seq(nsv, cl, pair)[i as int]);
                }
                let ghost pre_out = out.deep_view();
                out.push(pod);
                proof {
                    assert(out.deep_view() =~= pre_out.push(
                        spec_group_pod_seq(nsv, cl, pair)[i as int],
                    ));
                    assert(spec_group_pod_seq(nsv, cl, pair).take(i as int + 1)
                        =~= spec_group_pod_seq(nsv, cl, pair).take(i as int).push(
                        spec_group_pod_seq(nsv, cl, pair)[i as int],
                    ));
                    assert(out.deep_view() =~= spec_pods_of(nsv, cl, sorted_dv.take(k as int))
                        + spec_group_pod_seq(nsv, cl, pair).take(i as int + 1));
                }
                i = i + 1;
            }
            proof {
                assert(spec_group_pod_seq(nsv, cl, pair).take(replicas as int) =~= spec_group_pod_seq(
                    nsv,
                    cl,
                    pair,
                ));
                assert(sorted_dv.take(k as int + 1) =~= sorted_dv.take(k as int).push(pair));
                lemma_pods_of_snoc(nsv, cl, sorted_dv.take(k as int), pair);
                assert(out.deep_view() =~= spec_pods_of(nsv, cl, sorted_dv.take(k as int + 1)));
            }
            k = k + 1;
        }
        proof {
            assert(sorted_dv.take(m as int) =~= sorted_dv);
        }
        Ok(out)
    }

    /// Topology prediction is stable under reordering of unrelated groups:
    /// two clusters with the same identity whose broker groups hold the
    /// same (name, replicas) pairs — in any order, no name repeated —
    /// expect exactly the same pods with the same ordinals.
    pub proof fn lemma_pods_stable_under_reordering(a: &KafkaCluster, b: &KafkaCluster)
        requires
            a.metadata.namespace.deep_view() == b.metadata.namespace.deep_view(),
            a.metadata.name.deep_view() == b.metadata.name.deep_view(),
            a.spec_broker_group_pairs().to_multiset() == b.spec_broker_group_pairs().to_multiset(),
            crate::topology::spec_seq_keys_distinct(a.spec_broker_group_pairs()),
        ensures
            a.spec_pods() == b.spec_pods(),
    {
        let pa = a.spec_broker_group_pairs();
        let pb = b.spec_broker_group_pairs();
        crate::topology::lemma_seq_keys_distinct_to_ms(pa);
        crate::topology::lemma_sort_pairs_ensures(pa);
        crate::topology::lemma_sort_pairs_ensures(pb);
        crate::topology::lemma_sorted_pairs_unique(
            crate::topology::spec_sort_pairs(pa),
            crate::topology::spec_sort_pairs(pb),
        );
        assert(a.spec_cluster_name() == b.spec_cluster_name());
        assert(match a.metadata.namespace {
            Some(n) => n@,
            None => Seq::<char>::empty(),
        } == match b.metadata.namespace {
            Some(n) => n@,
            None => Seq::<char>::empty(),
        });
    }

    /// The fragment a rolegroup contributes: its own configuration, with a
    /// deprecated selector migrated into the affinity terms.
    pub open spec fn spec_rolegroup_fragment(g: RoleGroupView) -> KafkaConfigFragmentView {
        match g.selector {
            Some(sel) => KafkaConfigFragmentView {
                logging: g.config.logging,
                resources: g.config.resources,
                affinity: crate::affinity::spec_add_legacy_selector(g.config.affinity, sel),
            },
            None => g.config,
        }
    }

    /// The fully merged fragment of one rolegroup: rolegroup over role
    /// over the built-in defaults.
    pub open spec fn spec_merged_fragment(
        &self,
        role_config: KafkaConfigFragmentView,
        g: RoleGroupView,
    ) -> KafkaConfigFragmentView {
        crate::config::spec_merge_fragment(
            Self::spec_rolegroup_fragment(g),
            crate::config::spec_merge_fragment(
                role_config,
                crate::config::spec_default_config(self.spec_cluster_name(), "broker"@),
            ),
        )
    }

    /// The resolved configuration of one rolegroup: defaults, role and
    /// rolegroup fragments merged in precedence order and validated.
    /// Independent of any TLS state; deterministic and side-effect free.
    /// The defaults populate every required field, so when the role and
    /// the group exist the result is always a configuration, never a
    /// validation failure.
    pub fn merged_config(&self, role: &KafkaRole, rolegroup_ref: &RoleGroupRef) -> (r: Result<
        KafkaConfig,
        Error,
    >)
        ensures
            match r {
                Ok(c) => {
                    &&& rolegroup_ref.role@ == "broker"@
                    &&& self.spec.brokers matches Some(b) && Self::spec_find_group(
                        b.role_groups.deep_view(),
                        rolegroup_ref.role_group@,
                    ) matches Some(e) && c@ == KafkaConfigFragment::spec_validated(
                        self.spec_merged_fragment(b.config@, e.group),
                    )
                },
                Err(e) => match e {
                    Error::CannotRetrieveKafkaRole { role: ro } => {
                        &&& self.spec.brokers is None
                        &&& ro@ == role.spec_name()
                    },
                    Error::UnknownKafkaRole { role: ro, roles: rs } => {
                        &&& self.spec.brokers is Some
                        &&& rolegroup_ref.role@ != "broker"@
                        &&& ro@ == rolegroup_ref.role@
                        &&& rs.deep_view() == seq!["broker"@]
                    },
                    Error::CannotRetrieveKafkaRoleGroup { role_group } => {
                        &&& self.spec.brokers matches Some(b) && Self::spec_find_group(
                            b.role_groups.deep_view(),
                            rolegroup_ref.role_group@,
                        ) is None
                        &&& rolegroup_ref.role@ == "broker"@
                        &&& role_group@ == rolegroup_ref.role_group@
                    },
                    _ => false,
                },
            },
    {
        let name = self.name_any();
        let conf_defaults = KafkaConfig::default_config(name.as_str(), role);
        let role_obj = match self.role(role) {
            Ok(ro) => ro,
            Err(e) => {
                return Err(e);
            },
        };
        let rolegroup = match self.rolegroup(rolegroup_ref) {
            Ok(g) => g,
            Err(e) => {
                return Err(e);
            },
        };
        let mut conf_role = role_obj.config.clone();
        let mut conf_role_group = rolegroup.config.clone();
        match &rolegroup.selector {
            Some(selector) => {
                conf_role_group.affinity.add_legacy_selector(selector);
            },
            None => {},
        }
        // Precedence, highest first: rolegroup, role, defaults.
        conf_role.merge(&conf_defaults);
        conf_role_group.merge(&conf_role);
        proof {
            assert(conf_role_group@ =~~= self.spec_merged_fragment(
                role_obj.config@,
                rolegroup@,
            ));
        }
        match conf_role_group.validate() {
            Ok(c) => Ok(c),
            Err(e) => {
                proof {
                    assert(false);
                }
                Err(e)
            },
        }
    }
}

impl KafkaConfigFragment {
    /// Environment variables this configuration contributes: none.
    pub fn compute_env(&self, _resource: &KafkaCluster, _role_name: &str) -> (r: Vec<
        (String, Option<String>),
    >)
        ensures
            r@.len() == 0,
    {
        Vec::new()
    }

    /// Command-line arguments this configuration contributes: none.
    pub fn compute_cli(&self, _resource: &KafkaCluster, _role_name: &str) -> (r: Vec<
        (String, Option<String>),
    >)
        ensures
            r@.len() == 0,
    {
        Vec::new()
    }

    /// The per-file properties this configuration contributes: the
    /// authorizer settings in the broker's main configuration file, when
    /// an agent-backed authorization is configured.
    pub open spec fn spec_compute_files(
        resource: &KafkaCluster,
        file: Seq<char>,
    ) -> Seq<(Seq<char>, Option<Seq<char>>)> {
        if file == SERVER_PROPERTIES_FILE@ && resource.spec.cluster_config.authorization.opa
            is Some {
            seq![
                ("authorizer.class.name"@, Some("org.openpolicyagent.kafka.OpaAuthorizer"@)),
                ("opa.authorizer.metrics.enabled"@, Some("true"@)),
            ]
        } else {
            Seq::empty()
        }
    }

    /// The properties this configuration contributes to one configuration
    /// file of the broker.
    pub fn compute_files(&self, resource: &KafkaCluster, _role_name: &str, file: &str) -> (r: Vec<
        (String, Option<String>),
    >)
        ensures
            r.deep_view() == Self::spec_compute_files(resource, file@),
    {
        let mut config: Vec<(String, Option<String>)> = Vec::new();
        if crate::strings::str_eq(file, SERVER_PROPERTIES_FILE)
            && resource.spec.cluster_config.authorization.opa.is_some() {
            config.push(
                (
                    String::from_str("authorizer.class.name"),
                    Some(String::from_str("org.openpolicyagent.kafka.OpaAuthorizer")),
                ),
            );
            config.push(
                (
                    String::from_str("opa.authorizer.metrics.enabled"),
                    Some(String::from_str("true")),
                ),
            );
        }
        proof {
            assert(config.deep_view() =~~= Self::spec_compute_files(resource, file@));
        }
        config
    }
}

} // verus!
