//! Per-role configuration: concrete values, partial fragments, the
//! precedence merge (default < role < rolegroup) and validation of the
//! fully merged result.
//!
//! Every fragment field is independently set or unset. Merging is
//! field-wise: a set field of the higher-precedence fragment always wins
//! and an unset one falls through to the lower layer.

use crate::affinity::{StackableAffinity, StackableAffinityView};
use crate::{Container, Error, KafkaRole};
use vstd::prelude::*;

verus! {

/// A resource quantity, kept in its textual form ("250m", "2Gi").
#[derive(Debug, PartialEq)]
pub struct Quantity(pub String);

impl View for Quantity {
    type V = Seq<char>;

    open spec fn view(&self) -> Seq<char> {
        self.0@
    }
}

impl DeepView for Quantity {
    type V = Seq<char>;

    open spec fn deep_view(&self) -> Seq<char> {
        self.view()
    }
}

impl Clone for Quantity {
    fn clone(&self) -> (r: Self)
        ensures
            r == *self,
    {
        Quantity(self.0.clone())
    }
}

/// Sizing of one persistent volume claim.
#[derive(Debug, PartialEq)]
pub struct PvcConfig {
    pub capacity: Option<Quantity>,
    pub storage_class: Option<String>,
    pub selectors: Option<crate::affinity::LabelSelector>,
}

/// Spec-level form of a volume-claim configuration.
#[verifier::ext_equal]
pub struct PvcConfigView {
    pub capacity: Option<Seq<char>>,
    pub storage_class: Option<Seq<char>>,
    pub selectors: Option<crate::affinity::LabelSelectorView>,
}

impl View for PvcConfig {
    type V = PvcConfigView;

    open spec fn view(&self) -> PvcConfigView {
        PvcConfigView {
            capacity: self.capacity.deep_view(),
            storage_class: self.storage_class.deep_view(),
            selectors: self.selectors.deep_view(),
        }
    }
}

impl DeepView for PvcConfig {
    type V = PvcConfigView;

    open spec fn deep_view(&self) -> PvcConfigView {
        self.view()
    }
}

impl Clone for PvcConfig {
    fn clone(&self) -> (r: Self)
        ensures
            r@ == self@,
    {
        PvcConfig {
            capacity: match &self.capacity {
                Some(q) => Some(q.clone()),
                None => None,
            },
            storage_class: match &self.storage_class {
                Some(s) => Some(s.clone()),
                None => None,
            },
            selectors: match &self.selectors {
                Some(s) => Some(s.clone()),
                None => None,
            },
        }
    }
}

/// The broker's storage: its log directories.
#[derive(Debug, PartialEq)]
pub struct Storage {
    pub log_dirs: PvcConfig,
}

/// Spec-level form of the storage section.
#[verifier::ext_equal]
pub struct StorageView {
    pub log_dirs: PvcConfigView,
}

impl View for Storage {
    type V = StorageView;

    open spec fn view(&self) -> StorageView {
        StorageView { log_dirs: self.log_dirs@ }
    }
}

impl DeepView for Storage {
    type V = StorageView;

    open spec fn deep_view(&self) -> StorageView {
        self.view()
    }
}

impl Clone for Storage {
    fn clone(&self) -> (r: Self)
        ensures
            r@ == self@,
    {
        Storage { log_dirs: self.log_dirs.clone() }
    }
}

/// What a persistent volume claim asks for; the caller turns it into the
/// cluster store's claim object.
#[derive(Debug, PartialEq)]
pub struct PersistentVolumeClaimSpec {
    /// Name of the claim.
    pub name: String,
    /// Requested access modes.
    pub access_modes: Vec<String>,
    /// The claim's sizing.
    pub config: PvcConfig,
}

/// Spec-level form of a volume claim.
#[verifier::ext_equal]
pub struct PersistentVolumeClaimSpecView {
    pub name: Seq<char>,
    pub access_modes: Seq<Seq<char>>,
    pub config: PvcConfigView,
}

impl View for PersistentVolumeClaimSpec {
    type V = PersistentVolumeClaimSpecView;

    open spec fn view(&self) -> PersistentVolumeClaimSpecView {
        PersistentVolumeClaimSpecView {
            name: self.name@,
            access_modes: self.access_modes.deep_view(),
            config: self.config@,
        }
    }
}

impl DeepView for PersistentVolumeClaimSpec {
    type V = PersistentVolumeClaimSpecView;

    open spec fn deep_view(&self) -> PersistentVolumeClaimSpecView {
        self.view()
    }
}

impl Storage {
    /// The volume claims the broker's storage needs: one claim for the
    /// log directories, writable by a single node at a time.
    pub fn build_pvcs(&self) -> (r: Vec<PersistentVolumeClaimSpec>)
        ensures
            r.deep_view() == seq![
                PersistentVolumeClaimSpecView {
                    name: crate::LOG_DIRS_VOLUME_NAME@,
                    access_modes: seq!["ReadWriteOnce"@],
                    config: self.log_dirs@,
                },
            ],
    {
        let mut access_modes: Vec<String> = Vec::new();
        access_modes.push(String::from_str("ReadWriteOnce"));
        let data_pvc = PersistentVolumeClaimSpec {
            name: String::from_str(crate::LOG_DIRS_VOLUME_NAME),
            access_modes,
            config: self.log_dirs.clone(),
        };
        let mut r: Vec<PersistentVolumeClaimSpec> = Vec::new();
        r.push(data_pvc);
        proof {
            assert(r.deep_view() =~~= seq![
                PersistentVolumeClaimSpecView {
                    name: crate::LOG_DIRS_VOLUME_NAME@,
                    access_modes: seq!["ReadWriteOnce"@],
                    config: self.log_dirs@,
                },
            ]);
        }
        r
    }
}

/// CPU limits of a container.
#[derive(Debug, PartialEq)]
pub struct CpuLimits {
    pub min: Option<Quantity>,
    pub max: Option<Quantity>,
}

/// Spec-level form of the CPU limits.
#[verifier::ext_equal]
pub struct CpuLimitsView {
    pub min: Option<Seq<char>>,
    pub max: Option<Seq<char>>,
}

impl View for CpuLimits {
    type V = CpuLimitsView;

    open spec fn view(&self) -> CpuLimitsView {
        CpuLimitsView { min: self.min.deep_view(), max: self.max.deep_view() }
    }
}

impl DeepView for CpuLimits {
    type V = CpuLimitsView;

    open spec fn deep_view(&self) -> CpuLimitsView {
        self.view()
    }
}

impl Clone for CpuLimits {
    fn clone(&self) -> (r: Self)
        ensures
            r@ == self@,
    {
        CpuLimits {
            min: match &self.min {
                Some(q) => Some(q.clone()),
                None => None,
            },
            max: match &self.max {
                Some(q) => Some(q.clone()),
                None => None,
            },
        }
    }
}

/// Memory limits of a container.
#[derive(Debug, PartialEq)]
pub struct MemoryLimits {
    pub limit: Option<Quantity>,
}

/// Spec-level form of the memory limits.
#[verifier::ext_equal]
pub struct MemoryLimitsView {
    pub limit: Option<Seq<char>>,
}

impl View for MemoryLimits {
    type V = MemoryLimitsView;

    open spec fn view(&self) -> MemoryLimitsView {
        MemoryLimitsView { limit: self.limit.deep_view() }
    }
}

impl DeepView for MemoryLimits {
    type V = MemoryLimitsView;

    open spec fn deep_view(&self) -> MemoryLimitsView {
        self.view()
    }
}

impl Clone for MemoryLimits {
    fn clone(&self) -> (r: Self)
        ensures
            r@ == self@,
    {
        MemoryLimits {
            limit: match &self.limit {
                Some(q) => Some(q.clone()),
                None => None,
            },
        }
    }
}

/// Resource requirements of the broker: CPU, memory and storage.
#[derive(Debug, PartialEq)]
pub struct Resources {
    pub cpu: CpuLimits,
    pub memory: MemoryLimits,
    pub storage: Storage,
}

/// Spec-level form of the resources section.
#[verifier::ext_equal]
pub struct ResourcesView {
    pub cpu: CpuLimitsView,
    pub memory: MemoryLimitsView,
    pub storage: StorageView,
}

impl View for Resources {
    type V = ResourcesView;

    open spec fn view(&self) -> ResourcesView {
        ResourcesView { cpu: self.cpu@, memory: self.memory@, storage: self.storage@ }
    }
}

impl DeepView for Resources {
    type V = ResourcesView;

    open spec fn deep_view(&self) -> ResourcesView {
        self.view()
    }
}

impl Clone for Resources {
    fn clone(&self) -> (r: Self)
        ensures
            r@ == self@,
    {
        Resources { cpu: self.cpu.clone(), memory: self.memory.clone(), storage: self.storage.clone() }
    }
}

/// Log levels a container's logging can be set to.
#[derive(Clone, Copy, Debug, PartialEq, Eq, Structural)]
pub enum LogLevel {
    Trace,
    Debug,
    Info,
    Warn,
    Error,
}

impl DeepView for LogLevel {
    type V = LogLevel;

    open spec fn deep_view(&self) -> LogLevel {
        *self
    }
}

/// Logging configuration of one container.
#[derive(Clone, Copy, Debug, PartialEq, Eq, Structural)]
pub struct ContainerLogConfig {
    pub level: LogLevel,
}

impl DeepView for ContainerLogConfig {
    type V = ContainerLogConfig;

    open spec fn deep_view(&self) -> ContainerLogConfig {
        *self
    }
}

/// The logging configuration of one named container of the pod.
#[derive(Clone, Copy, Debug, PartialEq, Eq, Structural)]
pub struct ContainerLogConfigEntry {
    pub container: Container,
    pub log_config: ContainerLogConfig,
}

impl DeepView for ContainerLogConfigEntry {
    type V = ContainerLogConfigEntry;

    open spec fn deep_view(&self) -> ContainerLogConfigEntry {
        *self
    }
}

/// Fully resolved logging configuration of a rolegroup.
#[derive(Debug, PartialEq)]
pub struct Logging {
    pub enable_vector_agent: bool,
    pub containers: Vec<ContainerLogConfigEntry>,
}

/// Spec-level form of the logging section.
#[verifier::ext_equal]
pub struct LoggingView {
    pub enable_vector_agent: bool,
    pub containers: Seq<ContainerLogConfigEntry>,
}

impl View for Logging {
    type V = LoggingView;

    open spec fn view(&self) -> LoggingView {
        LoggingView {
            enable_vector_agent: self.enable_vector_agent,
            containers: self.containers.deep_view(),
        }
    }
}

/// Partial logging configuration; unset fields defer to a lower layer.
#[derive(Debug, PartialEq)]
pub struct LoggingFragment {
    pub enable_vector_agent: Option<bool>,
    pub containers: Option<Vec<ContainerLogConfigEntry>>,
}

/// Spec-level form of the logging fragment.
#[verifier::ext_equal]
pub struct LoggingFragmentView {
    pub enable_vector_agent: Option<bool>,
    pub containers: Option<Seq<ContainerLogConfigEntry>>,
}

impl View for LoggingFragment {
    type V = LoggingFragmentView;

    open spec fn view(&self) -> LoggingFragmentView {
        LoggingFragmentView {
            enable_vector_agent: self.enable_vector_agent,
            containers: self.containers.deep_view(),
        }
    }
}

impl DeepView for LoggingFragment {
    type V = LoggingFragmentView;

    open spec fn deep_view(&self) -> LoggingFragmentView {
        self.view()
    }
}

impl Clone for LoggingFragment {
    fn clone(&self) -> (r: Self)
        ensures
            r@ == self@,
    {
        let containers = match &self.containers {
            Some(v) => Some(v.clone()),
            None => None,
        };
        proof {
            assert(containers.deep_view() =~~= self.containers.deep_view());
        }
        LoggingFragment { enable_vector_agent: self.enable_vector_agent, containers }
    }
}

/// Fully resolved configuration of a rolegroup.
#[derive(Debug, PartialEq)]
pub struct KafkaConfig {
    pub logging: Logging,
    pub resources: Resources,
    pub affinity: StackableAffinity,
}

/// Spec-level form of the resolved configuration.
#[verifier::ext_equal]
pub struct KafkaConfigView {
    pub logging: LoggingView,
    pub resources: ResourcesView,
    pub affinity: StackableAffinityView,
}

impl View for KafkaConfig {
    type V = KafkaConfigView;

    open spec fn view(&self) -> KafkaConfigView {
        KafkaConfigView { logging: self.logging@, resources: self.resources@, affinity: self.affinity@ }
    }
}

/// Partial configuration of a role or rolegroup; unset fields defer to a
/// lower precedence layer.
#[derive(Debug, PartialEq)]
pub struct KafkaConfigFragment {
    pub logging: LoggingFragment,
    pub resources: Resources,
    pub affinity: StackableAffinity,
}

/// Spec-level form of a configuration fragment.
#[verifier::ext_equal]
pub struct KafkaConfigFragmentView {
    pub logging: LoggingFragmentView,
    pub resources: ResourcesView,
    pub affinity: StackableAffinityView,
}

impl View for KafkaConfigFragment {
    type V = KafkaConfigFragmentView;

    open spec fn view(&self) -> KafkaConfigFragmentView {
        KafkaConfigFragmentView {
            logging: self.logging@,
            resources: self.resources@,
            affinity: self.affinity@,
        }
    }
}

impl DeepView for KafkaConfigFragment {
    type V = KafkaConfigFragmentView;

    open spec fn deep_view(&self) -> KafkaConfigFragmentView {
        self.view()
    }
}

impl Clone for KafkaConfigFragment {
    fn clone(&self) -> (r: Self)
        ensures
            r@ == self@,
    {
        KafkaConfigFragment {
            logging: self.logging.clone(),
            resources: self.resources.clone(),
            affinity: self.affinity.clone(),
        }
    }
}

/// Field-wise choice: a set field of the higher layer wins, an unset one
/// falls through to the lower layer.
pub open spec fn spec_merge_opt<T>(higher: Option<T>, lower: Option<T>) -> Option<T> {
    if higher is Some {
        higher
    } else {
        lower
    }
}

/// The merge of two volume-claim configurations.
pub open spec fn spec_merge_pvc(higher: PvcConfigView, lower: PvcConfigView) -> PvcConfigView {
    PvcConfigView {
        capacity: spec_merge_opt(higher.capacity, lower.capacity),
        storage_class: spec_merge_opt(higher.storage_class, lower.storage_class),
        selectors: spec_merge_opt(higher.selectors, lower.selectors),
    }
}

/// The merge of two resources sections.
pub open spec fn spec_merge_resources(higher: ResourcesView, lower: ResourcesView) -> ResourcesView {
    ResourcesView {
        cpu: CpuLimitsView {
            min: spec_merge_opt(higher.cpu.min, lower.cpu.min),
            max: spec_merge_opt(higher.cpu.max, lower.cpu.max),
        },
        memory: MemoryLimitsView { limit: spec_merge_opt(higher.memory.limit, lower.memory.limit) },
        storage: StorageView { log_dirs: spec_merge_pvc(higher.storage.log_dirs, lower.storage.log_dirs) },
    }
}

/// The merge of two logging fragments.
pub open spec fn spec_merge_logging(
    higher: LoggingFragmentView,
    lower: LoggingFragmentView,
) -> LoggingFragmentView {
    LoggingFragmentView {
        enable_vector_agent: spec_merge_opt(higher.enable_vector_agent, lower.enable_vector_agent),
        containers: spec_merge_opt(higher.containers, lower.containers),
    }
}

/// The merge of two affinity sections.
pub open spec fn spec_merge_affinity(
    higher: StackableAffinityView,
    lower: StackableAffinityView,
) -> StackableAffinityView {
    StackableAffinityView {
        pod_affinity: spec_merge_opt(higher.pod_affinity, lower.pod_affinity),
        pod_anti_affinity: spec_merge_opt(higher.pod_anti_affinity, lower.pod_anti_affinity),
        node_affinity: spec_merge_opt(higher.node_affinity, lower.node_affinity),
        node_selector: spec_merge_opt(higher.node_selector, lower.node_selector),
    }
}

/// The merge of two configuration fragments: field-wise, the higher layer
/// winning on every field it sets.
pub open spec fn spec_merge_fragment(
    higher: KafkaConfigFragmentView,
    lower: KafkaConfigFragmentView,
) -> KafkaConfigFragmentView {
    KafkaConfigFragmentView {
        logging: spec_merge_logging(higher.logging, lower.logging),
        resources: spec_merge_resources(higher.resources, lower.resources),
        affinity: spec_merge_affinity(higher.affinity, lower.affinity),
    }
}

impl LoggingFragment {
    /// Merges a lower-precedence logging fragment into this one.
    pub fn merge(&mut self, lower: &LoggingFragment)
        ensures
            final(self)@ == spec_merge_logging(old(self)@, lower@),
    {
        if self.enable_vector_agent.is_none() {
            self.enable_vector_agent = lower.enable_vector_agent;
        }
        if self.containers.is_none() {
            self.containers = match &lower.containers {
                Some(v) => Some(v.clone()),
                None => None,
            };
        }
        proof {
            assert(self@ =~~= spec_merge_logging(old(self)@, lower@));
        }
    }
}

impl Resources {
    /// Merges a lower-precedence resources section into this one.
    pub fn merge(&mut self, lower: &Resources)
        ensures
            final(self)@ == spec_merge_resources(old(self)@, lower@),
    {
        if self.cpu.min.is_none() {
            self.cpu.min = match &lower.cpu.min {
                Some(q) => Some(q.clone()),
                None => None,
            };
        }
        if self.cpu.max.is_none() {
            self.cpu.max = match &lower.cpu.max {
                Some(q) => Some(q.clone()),
                None => None,
            };
        }
        if self.memory.limit.is_none() {
            self.memory.limit = match &lower.memory.limit {
                Some(q) => Some(q.clone()),
                None => None,
            };
        }
        if self.storage.log_dirs.capacity.is_none() {
            self.storage.log_dirs.capacity = match &lower.storage.log_dirs.capacity {
                Some(q) => Some(q.clone()),
                None => None,
            };
        }
        if self.storage.log_dirs.storage_class.is_none() {
            self.storage.log_dirs.storage_class = match &lower.storage.log_dirs.storage_class {
                Some(s) => Some(s.clone()),
                None => None,
            };
        }
        if self.storage.log_dirs.selectors.is_none() {
            self.storage.log_dirs.selectors = match &lower.storage.log_dirs.selectors {
                Some(s) => Some(s.clone()),
                None => None,
            };
        }
        proof {
            assert(self@ =~~= spec_merge_resources(old(self)@, lower@));
        }
    }
}

impl StackableAffinity {
    /// Merges a lower-precedence affinity section into this one.
    pub fn merge(&mut self, lower: &StackableAffinity)
        ensures
            final(self)@ == spec_merge_affinity(old(self)@, lower@),
    {
        if self.pod_affinity.is_none() {
            self.pod_affinity = match &lower.pod_affinity {
                Some(v) => Some(v.clone()),
                None => None,
            };
        }
        if self.pod_anti_affinity.is_none() {
            self.pod_anti_affinity = match &lower.pod_anti_affinity {
                Some(v) => Some(v.clone()),
                None => None,
            };
        }
        if self.node_affinity.is_none() {
            self.node_affinity = match &lower.node_affinity {
                Some(v) => Some(v.clone()),
                None => None,
            };
        }
        if self.node_selector.is_none() {
            self.node_selector = match &lower.node_selector {
                Some(v) => Some(v.clone()),
                None => None,
            };
        }
        proof {
            assert(self@ =~~= spec_merge_affinity(old(self)@, lower@));
        }
    }
}

impl KafkaConfigFragment {
    /// Merges a lower-precedence fragment into this one: every field this
    /// fragment leaves unset is taken from `lower`.
    pub fn merge(&mut self, lower: &KafkaConfigFragment)
        ensures
            final(self)@ == spec_merge_fragment(old(self)@, lower@),
    {
        self.logging.merge(&lower.logging);
        self.resources.merge(&lower.resources);
        self.affinity.merge(&lower.affinity);
        proof {
            assert(self@ =~~= spec_merge_fragment(old(self)@, lower@));
        }
    }

    /// A fragment is complete when every required field is set after all
    /// layers were merged. Resource and affinity fields are optional in the
    /// resolved configuration too, so only logging has required fields.
    pub open spec fn spec_complete(f: KafkaConfigFragmentView) -> bool {
        f.logging.enable_vector_agent is Some && f.logging.containers is Some
    }

    /// The resolved configuration a complete fragment validates into.
    pub open spec fn spec_validated(f: KafkaConfigFragmentView) -> KafkaConfigView {
        KafkaConfigView {
            logging: LoggingView {
                enable_vector_agent: match f.logging.enable_vector_agent {
                    Some(b) => b,
                    None => false,
                },
                containers: match f.logging.containers {
                    Some(c) => c,
                    None => Seq::empty(),
                },
            },
            resources: f.resources,
            affinity: f.affinity,
        }
    }

    /// Validates the merged fragment into a fully populated configuration.
    /// Fails exactly when a required field is still unset after all
    /// precedence layers, naming the first such field.
    pub fn validate(self) -> (r: Result<KafkaConfig, Error>)
        ensures
            match r {
                Ok(c) => Self::spec_complete(self@) && c@ == Self::spec_validated(self@),
                Err(e) => {
                    &&& !Self::spec_complete(self@)
                    &&& e matches Error::FragmentValidationFailure { field: f } && f@ == (
                    if self@.logging.enable_vector_agent is None {
                        "logging.enableVectorAgent"@
                    } else {
                        "logging.containers"@
                    })
                },
            },
    {
        let KafkaConfigFragment { logging, resources, affinity } = self;
        let enable_vector_agent = match logging.enable_vector_agent {
            Some(b) => b,
            None => {
                return Err(
                    Error::FragmentValidationFailure {
                        field: String::from_str("logging.enableVectorAgent"),
                    },
                );
            },
        };
        let containers = match logging.containers {
            Some(c) => c,
            None => {
                return Err(
                    Error::FragmentValidationFailure { field: String::from_str("logging.containers") },
                );
            },
        };
        Ok(
            KafkaConfig {
                logging: Logging { enable_vector_agent, containers },
                resources,
                affinity,
            },
        )
    }
}

/// The default logging fragment: the vector agent off and every container
/// of the pod logging at the informational level.
pub open spec fn spec_default_logging() -> LoggingFragmentView {
    LoggingFragmentView {
        enable_vector_agent: Some(false),
        containers: Some(
            seq![
                ContainerLogConfigEntry {
                    container: Container::Prepare,
                    log_config: ContainerLogConfig { level: LogLevel::Info },
                },
                ContainerLogConfigEntry {
                    container: Container::Vector,
                    log_config: ContainerLogConfig { level: LogLevel::Info },
                },
                ContainerLogConfigEntry {
                    container: Container::KcatProber,
                    log_config: ContainerLogConfig { level: LogLevel::Info },
                },
                ContainerLogConfigEntry {
                    container: Container::GetService,
                    log_config: ContainerLogConfig { level: LogLevel::Info },
                },
                ContainerLogConfigEntry {
                    container: Container::Kafka,
                    log_config: ContainerLogConfig { level: LogLevel::Info },
                },
            ],
        ),
    }
}

/// The built-in defaults for a role of a cluster: baseline resources,
/// informational logging and the spread-over-nodes affinity.
pub open spec fn spec_default_config(
    cluster_name: Seq<char>,
    role_name: Seq<char>,
) -> KafkaConfigFragmentView {
    KafkaConfigFragmentView {
        logging: spec_default_logging(),
        resources: ResourcesView {
            cpu: CpuLimitsView { min: Some("250m"@), max: Some("1000m"@) },
            memory: MemoryLimitsView { limit: Some("1Gi"@) },
            storage: StorageView {
                log_dirs: PvcConfigView {
                    capacity: Some("2Gi"@),
                    storage_class: None,
                    selectors: None,
                },
            },
        },
        affinity: crate::affinity::spec_get_affinity(cluster_name, role_name),
    }
}

impl KafkaConfig {
    /// The built-in defaults every merge starts from: they set every
    /// required field, so a merged configuration always validates.
    pub fn default_config(cluster_name: &str, role: &KafkaRole) -> (r: KafkaConfigFragment)
        ensures
            r@ == spec_default_config(cluster_name@, role.spec_name()),
    {
        let mut containers: Vec<ContainerLogConfigEntry> = Vec::new();
        containers.push(
            ContainerLogConfigEntry {
                container: Container::Prepare,
                log_config: ContainerLogConfig { level: LogLevel::Info },
            },
        );
        containers.push(
            ContainerLogConfigEntry {
                container: Container::Vector,
                log_config: ContainerLogConfig { level: LogLevel::Info },
            },
        );
        containers.push(
            ContainerLogConfigEntry {
                container: Container::KcatProber,
                log_config: ContainerLogConfig { level: LogLevel::Info },
            },
        );
        containers.push(
            ContainerLogConfigEntry {
                container: Container::GetService,
                log_config: ContainerLogConfig { level: LogLevel::Info },
            },
        );
        containers.push(
            ContainerLogConfigEntry {
                container: Container::Kafka,
                log_config: ContainerLogConfig { level: LogLevel::Info },
            },
        );
        let r = KafkaConfigFragment {
            logging: LoggingFragment { enable_vector_agent: Some(false), containers: Some(containers) },
            resources: Resources {
                cpu: CpuLimits {
                    min: Some(Quantity(String::from_str("250m"))),
                    max: Some(Quantity(String::from_str("1000m"))),
                },
                memory: MemoryLimits { limit: Some(Quantity(String::from_str("1Gi"))) },
                storage: Storage {
                    log_dirs: PvcConfig {
                        capacity: Some(Quantity(String::from_str("2Gi"))),
                        storage_class: None,
                        selectors: None,
                    },
                },
            },
            affinity: crate::affinity::get_affinity(cluster_name, role),
        };
        proof {
            assert(r@ =~~= spec_default_config(cluster_name@, role.spec_name()));
        }
        r
    }
}

/// The three-layer choice a field resolves to: the rolegroup's value when
/// set, else the role's, else the default.
pub open spec fn spec_pick3<T>(
    rolegroup: Option<T>,
    role: Option<T>,
    defaults: Option<T>,
) -> Option<T> {
    if rolegroup is Some {
        rolegroup
    } else if role is Some {
        role
    } else {
        defaults
    }
}

/// Merging is idempotent: merging a fragment with itself changes nothing.
pub proof fn lemma_merge_idempotent(a: KafkaConfigFragmentView)
    ensures
        spec_merge_fragment(a, a) == a,
{
    assert(spec_merge_fragment(a, a) =~~= a);
}

/// Merging is associative: folding the precedence chain in either
/// grouping yields the same fragment.
pub proof fn lemma_merge_associative(
    a: KafkaConfigFragmentView,
    b: KafkaConfigFragmentView,
    c: KafkaConfigFragmentView,
)
    ensures
        spec_merge_fragment(a, spec_merge_fragment(b, c)) == spec_merge_fragment(
            spec_merge_fragment(a, b),
            c,
        ),
{
    assert(spec_merge_fragment(a, spec_merge_fragment(b, c)) =~~= spec_merge_fragment(
        spec_merge_fragment(a, b),
        c,
    ));
}

/// Merging the merged result with its lower layer again is a no-op: the
/// precedence chain does not drift under repeated reconciliation.
pub proof fn lemma_merge_absorbing(a: KafkaConfigFragmentView, b: KafkaConfigFragmentView)
    ensures
        spec_merge_fragment(spec_merge_fragment(a, b), b) == spec_merge_fragment(a, b),
{
    assert(spec_merge_fragment(spec_merge_fragment(a, b), b) =~~= spec_merge_fragment(a, b));
}

/// After the full precedence merge, every field holds the rolegroup's
/// value when the rolegroup set it, else the role's value when the role
/// set it, else the default.
pub proof fn lemma_merge_precedence(
    defaults: KafkaConfigFragmentView,
    role: KafkaConfigFragmentView,
    rolegroup: KafkaConfigFragmentView,
)
    ensures
        ({
            let m = spec_merge_fragment(rolegroup, spec_merge_fragment(role, defaults));
            &&& m.logging.enable_vector_agent == spec_pick3(
                rolegroup.logging.enable_vector_agent,
                role.logging.enable_vector_agent,
                defaults.logging.enable_vector_agent,
            )
            &&& m.logging.containers == spec_pick3(
                rolegroup.logging.containers,
                role.logging.containers,
                defaults.logging.containers,
            )
            &&& m.resources.cpu.min == spec_pick3(
                rolegroup.resources.cpu.min,
                role.resources.cpu.min,
                defaults.resources.cpu.min,
            )
            &&& m.resources.cpu.max == spec_pick3(
                rolegroup.resources.cpu.max,
                role.resources.cpu.max,
                defaults.resources.cpu.max,
            )
            &&& m.resources.memory.limit == spec_pick3(
                rolegroup.resources.memory.limit,
                role.resources.memory.limit,
                defaults.resources.memory.limit,
            )
            &&& m.resources.storage.log_dirs.capacity == spec_pick3(
                rolegroup.resources.storage.log_dirs.capacity,
                role.resources.storage.log_dirs.capacity,
                defaults.resources.storage.log_dirs.capacity,
            )
            &&& m.resources.storage.log_dirs.storage_class == spec_pick3(
                rolegroup.resources.storage.log_dirs.storage_class,
                role.resources.storage.log_dirs.storage_class,
                defaults.resources.storage.log_dirs.storage_class,
            )
            &&& m.resources.storage.log_dirs.selectors == spec_pick3(
                rolegroup.resources.storage.log_dirs.selectors,
                role.resources.storage.log_dirs.selectors,
                defaults.resources.storage.log_dirs.selectors,
            )
            &&& m.affinity.pod_affinity == spec_pick3(
                rolegroup.affinity.pod_affinity,
                role.affinity.pod_affinity,
                defaults.affinity.pod_affinity,
            )
            &&& m.affinity.pod_anti_affinity == spec_pick3(
                rolegroup.affinity.pod_anti_affinity,
                role.affinity.pod_anti_affinity,
                defaults.affinity.pod_anti_affinity,
            )
            &&& m.affinity.node_affinity == spec_pick3(
                rolegroup.affinity.node_affinity,
                role.affinity.node_affinity,
                defaults.affinity.node_affinity,
            )
            &&& m.affinity.node_selector == spec_pick3(
                rolegroup.affinity.node_selector,
                role.affinity.node_selector,
                defaults.affinity.node_selector,
            )
        }),
{
}

} // verus!
