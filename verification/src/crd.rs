//! The NifiCluster resource.

use crate::contents::{Copied, SameContents};
use crate::crd::affinity::get_affinity;
use crate::crd::authorization::{NifiAuthorization, NifiAuthorizationView};
use crate::crd::sensitive_properties::{
    NifiSensitivePropertiesConfig, NifiSensitivePropertiesConfigView,
};
use crate::crd::tls::{NifiTls, NifiTlsView};
use crate::kubernetes::{
    LabelSelector, LabelSelectorView, ObjectMeta, ObjectMetaView, StackableAffinity,
    StackableAffinityView, Volume, VolumeView,
};
use crate::list::empty_list;
use crate::ordered_map::{OrderedMap, StringMap};
use crate::text::concat5;
use vstd::prelude::*;

pub mod affinity;
pub mod authentication;
pub mod authorization;
pub mod merging;
pub mod sensitive_properties;
pub mod storage;
pub mod tls;
pub mod utils;

verus! {

pub const APP_NAME: &'static str = "nifi";

pub const HTTPS_PORT_NAME: &'static str = "https";

pub const HTTPS_PORT: u16 = 8443;

pub const PROTOCOL_PORT_NAME: &'static str = "protocol";

pub const PROTOCOL_PORT: u16 = 9088;

pub const BALANCE_PORT_NAME: &'static str = "balance";

pub const BALANCE_PORT: u16 = 6243;

pub const METRICS_PORT_NAME: &'static str = "metrics";

pub const METRICS_PORT: u16 = 8081;

pub const STACKABLE_LOG_DIR: &'static str = "/stackable/log";

pub const STACKABLE_LOG_CONFIG_DIR: &'static str = "/stackable/log_config";

/// The size that the log files of NiFi may reach together, in mebibytes.
pub const MAX_NIFI_LOG_FILES_SIZE_MIB: u32 = 10;

/// The time that nodes have to shut down: five minutes.
pub const DEFAULT_NODE_GRACEFUL_SHUTDOWN_TIMEOUT_SECONDS: u64 = 300;

/// The lifetime of the certificates of nodes: one day.
pub const DEFAULT_NODE_SECRET_LIFETIME_SECONDS: u64 = 86400;

/// Why the configuration of a role group cannot be derived.
#[derive(Debug, PartialEq, Eq)]
pub enum Error {
    /// The role is missing from the spec.
    MissingNifiRole { role: String },
    /// The merged configuration lacks a mandatory setting.
    FragmentValidationFailure,
}

/// The roles of a cluster.
#[derive(Clone, Copy, Debug, PartialEq, Eq, Structural)]
pub enum NifiRole {
    Node,
}

impl DeepView for NifiRole {
    type V = NifiRole;

    open spec fn deep_view(&self) -> NifiRole {
        *self
    }
}

impl Copied for NifiRole {
    fn copied(&self) -> (copy: NifiRole) {
        *self
    }
}

impl SameContents for NifiRole {
    fn same(&self, other: &NifiRole) -> (same: bool) {
        *self == *other
    }
}

impl NifiRole {
    /// The text that stands for the value.
    pub open spec fn text(self) -> Seq<char> {
        match self {
            NifiRole::Node => "node"@,
        }
    }

    /// The text that stands for the value.
    pub fn as_str(&self) -> (text: &'static str)
        ensures
            text@ == self.text(),
    {
        match self {
            NifiRole::Node => "node",
        }
    }
}

/// The types of key stores.
#[derive(Clone, Copy, Debug, PartialEq, Eq, Structural)]
pub enum StoreType {
    Jks,
    Pkcs12,
}

impl DeepView for StoreType {
    type V = StoreType;

    open spec fn deep_view(&self) -> StoreType {
        *self
    }
}

impl Copied for StoreType {
    fn copied(&self) -> (copy: StoreType) {
        *self
    }
}

impl SameContents for StoreType {
    fn same(&self, other: &StoreType) -> (same: bool) {
        *self == *other
    }
}

impl StoreType {
    /// The text that stands for the value.
    pub open spec fn text(self) -> Seq<char> {
        match self {
            StoreType::Jks => "JKS"@,
            StoreType::Pkcs12 => "PKCS12"@,
        }
    }

    /// The text that stands for the value.
    pub fn as_str(&self) -> (text: &'static str)
        ensures
            text@ == self.text(),
    {
        match self {
            StoreType::Jks => "JKS",
            StoreType::Pkcs12 => "PKCS12",
        }
    }
}

impl Default for StoreType {
    fn default() -> (value: StoreType)
        ensures
            value == StoreType::Jks,
    {
        StoreType::Jks
    }
}

/// The containers of a NiFi pod.
#[derive(Clone, Copy, Debug, PartialEq, Eq, Structural)]
pub enum Container {
    Prepare,
    Vector,
    Nifi,
    GitSync,
}

impl DeepView for Container {
    type V = Container;

    open spec fn deep_view(&self) -> Container {
        *self
    }
}

impl Copied for Container {
    fn copied(&self) -> (copy: Container) {
        *self
    }
}

impl SameContents for Container {
    fn same(&self, other: &Container) -> (same: bool) {
        *self == *other
    }
}

impl Container {
    /// The text that stands for the value.
    pub open spec fn text(self) -> Seq<char> {
        match self {
            Container::Prepare => "prepare"@,
            Container::Vector => "vector"@,
            Container::Nifi => "nifi"@,
            Container::GitSync => "git-sync"@,
        }
    }

    /// The text that stands for the value.
    pub fn as_str(&self) -> (text: &'static str)
        ensures
            text@ == self.text(),
    {
        match self {
            Container::Prepare => "prepare",
            Container::Vector => "vector",
            Container::Nifi => "nifi",
            Container::GitSync => "git-sync",
        }
    }
}

/// Which proxies may forward requests to NiFi.
#[derive(Debug, PartialEq, Eq)]
pub struct HostHeaderCheckConfig {
    /// Allow all proxy hosts by turning off host header validation.
    pub allow_all: bool,
    /// Proxy hosts to add to the default allow list.
    pub additional_allowed_hosts: Vec<String>,
}

/// The contents of a [`HostHeaderCheckConfig`].
#[verifier::ext_equal]
pub struct HostHeaderCheckConfigView {
    pub allow_all: bool,
    pub additional_allowed_hosts: Seq<Seq<char>>,
}

impl DeepView for HostHeaderCheckConfig {
    type V = HostHeaderCheckConfigView;

    open spec fn deep_view(&self) -> HostHeaderCheckConfigView {
        HostHeaderCheckConfigView {
            allow_all: self.allow_all.deep_view(),
            additional_allowed_hosts: self.additional_allowed_hosts.deep_view(),
        }
    }
}

impl Copied for HostHeaderCheckConfig {
    fn copied(&self) -> (copy: HostHeaderCheckConfig) {
        HostHeaderCheckConfig {
            allow_all: self.allow_all,
            additional_allowed_hosts: self.additional_allowed_hosts.copied(),
        }
    }
}

/// All proxy hosts are allowed unless the user says otherwise.
pub fn default_allow_all() -> (allow_all: bool)
    ensures
        allow_all,
{
    true
}

impl Default for HostHeaderCheckConfig {
    fn default() -> (config: HostHeaderCheckConfig)
        ensures
            config.deep_view() == (HostHeaderCheckConfigView {
                allow_all: true,
                additional_allowed_hosts: Seq::empty(),
            }),
    {
        HostHeaderCheckConfig {
            allow_all: default_allow_all(),
            additional_allowed_hosts: empty_list(),
        }
    }
}

/// What manages the state that the nodes of a cluster share.
#[derive(Debug, PartialEq, Eq)]
pub enum NifiClusteringBackend {
    /// ZooKeeper.
    ZooKeeper {
        /// The discovery ConfigMap of the ZooKeeper cluster.
        zookeeper_config_map_name: String,
    },
    /// Kubernetes itself; NiFi 2.x and newer.
    Kubernetes,
}

/// The contents of a [`NifiClusteringBackend`].
#[verifier::ext_equal]
pub enum NifiClusteringBackendView {
    ZooKeeper { zookeeper_config_map_name: Seq<char> },
    Kubernetes,
}

impl DeepView for NifiClusteringBackend {
    type V = NifiClusteringBackendView;

    open spec fn deep_view(&self) -> NifiClusteringBackendView {
        match self {
            NifiClusteringBackend::ZooKeeper { zookeeper_config_map_name } =>
                NifiClusteringBackendView::ZooKeeper {
                    zookeeper_config_map_name: zookeeper_config_map_name.deep_view(),
                },
            NifiClusteringBackend::Kubernetes => NifiClusteringBackendView::Kubernetes,
        }
    }
}

impl Copied for NifiClusteringBackend {
    fn copied(&self) -> (copy: NifiClusteringBackend) {
        match self {
            NifiClusteringBackend::ZooKeeper { zookeeper_config_map_name } =>
                NifiClusteringBackend::ZooKeeper {
                    zookeeper_config_map_name: zookeeper_config_map_name.copied(),
                },
            NifiClusteringBackend::Kubernetes => NifiClusteringBackend::Kubernetes,
        }
    }
}

/// The Job that sets up the export of Prometheus metrics.
#[derive(Debug, PartialEq, Eq)]
pub struct CreateReportingTaskJob {
    /// Whether the Job is created.
    pub enabled: bool,
    /// Overrides of the pod of the Job, as written in a manifest.
    pub pod_overrides: String,
}

/// The contents of a [`CreateReportingTaskJob`].
#[verifier::ext_equal]
pub struct CreateReportingTaskJobView {
    pub enabled: bool,
    pub pod_overrides: Seq<char>,
}

impl DeepView for CreateReportingTaskJob {
    type V = CreateReportingTaskJobView;

    open spec fn deep_view(&self) -> CreateReportingTaskJobView {
        CreateReportingTaskJobView {
            enabled: self.enabled.deep_view(),
            pod_overrides: self.pod_overrides.deep_view(),
        }
    }
}

impl Copied for CreateReportingTaskJob {
    fn copied(&self) -> (copy: CreateReportingTaskJob) {
        CreateReportingTaskJob {
            enabled: self.enabled,
            pod_overrides: self.pod_overrides.copied(),
        }
    }
}

impl CreateReportingTaskJob {
    /// The Job is created unless the user says otherwise.
    pub fn default_enabled() -> (enabled: bool)
        ensures
            enabled,
    {
        true
    }
}

impl Default for CreateReportingTaskJob {
    fn default() -> (job: CreateReportingTaskJob)
        ensures
            job.deep_view() == (CreateReportingTaskJobView {
                enabled: true,
                pod_overrides: Seq::empty(),
            }),
    {
        CreateReportingTaskJob {
            enabled: CreateReportingTaskJob::default_enabled(),
            pod_overrides: String::new(),
        }
    }
}

/// A condition that is reported in the status.
#[derive(Debug, PartialEq, Eq)]
pub struct ClusterCondition {
    pub type_: String,
    pub status: String,
    pub message: Option<String>,
    pub last_transition_time: Option<String>,
    pub last_update_time: Option<String>,
}

/// The contents of a [`ClusterCondition`].
#[verifier::ext_equal]
pub struct ClusterConditionView {
    pub type_: Seq<char>,
    pub status: Seq<char>,
    pub message: Option<Seq<char>>,
    pub last_transition_time: Option<Seq<char>>,
    pub last_update_time: Option<Seq<char>>,
}

impl DeepView for ClusterCondition {
    type V = ClusterConditionView;

    open spec fn deep_view(&self) -> ClusterConditionView {
        ClusterConditionView {
            type_: self.type_.deep_view(),
            status: self.status.deep_view(),
            message: self.message.deep_view(),
            last_transition_time: self.last_transition_time.deep_view(),
            last_update_time: self.last_update_time.deep_view(),
        }
    }
}

impl Copied for ClusterCondition {
    fn copied(&self) -> (copy: ClusterCondition) {
        ClusterCondition {
            type_: self.type_.copied(),
            status: self.status.copied(),
            message: self.message.copied(),
            last_transition_time: self.last_transition_time.copied(),
            last_update_time: self.last_update_time.copied(),
        }
    }
}

/// The status of a cluster.
#[derive(Debug, PartialEq, Eq)]
pub struct NifiStatus {
    /// The product version that is deployed.
    pub deployed_version: Option<String>,
    pub conditions: Vec<ClusterCondition>,
}

/// The contents of a [`NifiStatus`].
#[verifier::ext_equal]
pub struct NifiStatusView {
    pub deployed_version: Option<Seq<char>>,
    pub conditions: Seq<ClusterConditionView>,
}

impl DeepView for NifiStatus {
    type V = NifiStatusView;

    open spec fn deep_view(&self) -> NifiStatusView {
        NifiStatusView {
            deployed_version: self.deployed_version.deep_view(),
            conditions: self.conditions.deep_view(),
        }
    }
}

impl Copied for NifiStatus {
    fn copied(&self) -> (copy: NifiStatus) {
        NifiStatus {
            deployed_version: self.deployed_version.copied(),
            conditions: self.conditions.copied(),
        }
    }
}

/// The storage of one repository.
#[derive(Debug, PartialEq, Eq)]
pub struct PvcConfig {
    pub capacity: Option<String>,
    pub storage_class: Option<String>,
    pub selectors: Option<LabelSelector>,
}

/// The contents of a [`PvcConfig`].
#[verifier::ext_equal]
pub struct PvcConfigView {
    pub capacity: Option<Seq<char>>,
    pub storage_class: Option<Seq<char>>,
    pub selectors: Option<LabelSelectorView>,
}

impl DeepView for PvcConfig {
    type V = PvcConfigView;

    open spec fn deep_view(&self) -> PvcConfigView {
        PvcConfigView {
            capacity: self.capacity.deep_view(),
            storage_class: self.storage_class.deep_view(),
            selectors: self.selectors.deep_view(),
        }
    }
}

impl Copied for PvcConfig {
    fn copied(&self) -> (copy: PvcConfig) {
        PvcConfig {
            capacity: self.capacity.copied(),
            storage_class: self.storage_class.copied(),
            selectors: self.selectors.copied(),
        }
    }
}

/// The storage of all repositories.
#[derive(Debug, PartialEq, Eq)]
pub struct NifiStorageConfig {
    /// Where NiFi keeps track of the FlowFiles.
    pub flowfile_repo: PvcConfig,
    /// Where the history of each FlowFile is stored.
    pub provenance_repo: PvcConfig,
    pub database_repo: PvcConfig,
    /// Where the content of all FlowFiles is kept.
    pub content_repo: PvcConfig,
    pub state_repo: PvcConfig,
    /// Where file-based authorization keeps its policies.
    pub filebased_repo: PvcConfig,
}

/// The contents of a [`NifiStorageConfig`].
#[verifier::ext_equal]
pub struct NifiStorageConfigView {
    pub flowfile_repo: PvcConfigView,
    pub provenance_repo: PvcConfigView,
    pub database_repo: PvcConfigView,
    pub content_repo: PvcConfigView,
    pub state_repo: PvcConfigView,
    pub filebased_repo: PvcConfigView,
}

impl DeepView for NifiStorageConfig {
    type V = NifiStorageConfigView;

    open spec fn deep_view(&self) -> NifiStorageConfigView {
        NifiStorageConfigView {
            flowfile_repo: self.flowfile_repo.deep_view(),
            provenance_repo: self.provenance_repo.deep_view(),
            database_repo: self.database_repo.deep_view(),
            content_repo: self.content_repo.deep_view(),
            state_repo: self.state_repo.deep_view(),
            filebased_repo: self.filebased_repo.deep_view(),
        }
    }
}

impl Copied for NifiStorageConfig {
    fn copied(&self) -> (copy: NifiStorageConfig) {
        NifiStorageConfig {
            flowfile_repo: self.flowfile_repo.copied(),
            provenance_repo: self.provenance_repo.copied(),
            database_repo: self.database_repo.copied(),
            content_repo: self.content_repo.copied(),
            state_repo: self.state_repo.copied(),
            filebased_repo: self.filebased_repo.copied(),
        }
    }
}

/// The CPU, memory and storage of a node.
#[derive(Debug, PartialEq, Eq)]
pub struct Resources {
    pub cpu_min: Option<String>,
    pub cpu_max: Option<String>,
    pub memory_limit: Option<String>,
    pub storage: NifiStorageConfig,
}

/// The contents of a [`Resources`].
#[verifier::ext_equal]
pub struct ResourcesView {
    pub cpu_min: Option<Seq<char>>,
    pub cpu_max: Option<Seq<char>>,
    pub memory_limit: Option<Seq<char>>,
    pub storage: NifiStorageConfigView,
}

impl DeepView for Resources {
    type V = ResourcesView;

    open spec fn deep_view(&self) -> ResourcesView {
        ResourcesView {
            cpu_min: self.cpu_min.deep_view(),
            cpu_max: self.cpu_max.deep_view(),
            memory_limit: self.memory_limit.deep_view(),
            storage: self.storage.deep_view(),
        }
    }
}

impl Copied for Resources {
    fn copied(&self) -> (copy: Resources) {
        Resources {
            cpu_min: self.cpu_min.copied(),
            cpu_max: self.cpu_max.copied(),
            memory_limit: self.memory_limit.copied(),
            storage: self.storage.copied(),
        }
    }
}

/// Where the log configuration of a container comes from.
#[derive(Debug, PartialEq, Eq)]
pub enum ContainerLogConfigChoice {
    /// The operator writes the log configuration.
    Automatic {
        /// Log levels and appenders, as written in a manifest.
        config: String,
    },
    /// A ConfigMap of the user holds the log configuration.
    Custom {
        config_map: String,
    },
}

/// The contents of a [`ContainerLogConfigChoice`].
#[verifier::ext_equal]
pub enum ContainerLogConfigChoiceView {
    Automatic { config: Seq<char> },
    Custom { config_map: Seq<char> },
}

impl DeepView for ContainerLogConfigChoice {
    type V = ContainerLogConfigChoiceView;

    open spec fn deep_view(&self) -> ContainerLogConfigChoiceView {
        match self {
            ContainerLogConfigChoice::Automatic { config } =>
                ContainerLogConfigChoiceView::Automatic {
                    config: config.deep_view(),
                },
            ContainerLogConfigChoice::Custom { config_map } =>
                ContainerLogConfigChoiceView::Custom {
                    config_map: config_map.deep_view(),
                },
        }
    }
}

impl Copied for ContainerLogConfigChoice {
    fn copied(&self) -> (copy: ContainerLogConfigChoice) {
        match self {
            ContainerLogConfigChoice::Automatic { config } => ContainerLogConfigChoice::Automatic {
                config: config.copied(),
            },
            ContainerLogConfigChoice::Custom { config_map } => ContainerLogConfigChoice::Custom {
                config_map: config_map.copied(),
            },
        }
    }
}

/// The log configuration of a container.
#[derive(Debug, PartialEq, Eq)]
pub struct ContainerLogConfig {
    pub choice: Option<ContainerLogConfigChoice>,
}

/// The contents of a [`ContainerLogConfig`].
#[verifier::ext_equal]
pub struct ContainerLogConfigView {
    pub choice: Option<ContainerLogConfigChoiceView>,
}

impl DeepView for ContainerLogConfig {
    type V = ContainerLogConfigView;

    open spec fn deep_view(&self) -> ContainerLogConfigView {
        ContainerLogConfigView {
            choice: self.choice.deep_view(),
        }
    }
}

impl Copied for ContainerLogConfig {
    fn copied(&self) -> (copy: ContainerLogConfig) {
        ContainerLogConfig {
            choice: self.choice.copied(),
        }
    }
}

/// Logging settings that may be incomplete.
#[derive(Debug, PartialEq, Eq)]
pub struct LoggingFragment {
    pub enable_vector_agent: Option<bool>,
    /// By the name of the container.
    pub containers: OrderedMap<ContainerLogConfig>,
}

/// The contents of a [`LoggingFragment`].
#[verifier::ext_equal]
pub struct LoggingFragmentView {
    pub enable_vector_agent: Option<bool>,
    pub containers: Map<Seq<char>, ContainerLogConfigView>,
}

impl DeepView for LoggingFragment {
    type V = LoggingFragmentView;

    open spec fn deep_view(&self) -> LoggingFragmentView {
        LoggingFragmentView {
            enable_vector_agent: self.enable_vector_agent.deep_view(),
            containers: self.containers.deep_view(),
        }
    }
}

impl Copied for LoggingFragment {
    fn copied(&self) -> (copy: LoggingFragment) {
        LoggingFragment {
            enable_vector_agent: self.enable_vector_agent.copied(),
            containers: self.containers.copied(),
        }
    }
}

/// Logging settings.
#[derive(Debug, PartialEq, Eq)]
pub struct Logging {
    pub enable_vector_agent: bool,
    /// By the name of the container.
    pub containers: OrderedMap<ContainerLogConfig>,
}

/// The contents of a [`Logging`].
#[verifier::ext_equal]
pub struct LoggingView {
    pub enable_vector_agent: bool,
    pub containers: Map<Seq<char>, ContainerLogConfigView>,
}

impl DeepView for Logging {
    type V = LoggingView;

    open spec fn deep_view(&self) -> LoggingView {
        LoggingView {
            enable_vector_agent: self.enable_vector_agent.deep_view(),
            containers: self.containers.deep_view(),
        }
    }
}

impl Copied for Logging {
    fn copied(&self) -> (copy: Logging) {
        Logging {
            enable_vector_agent: self.enable_vector_agent,
            containers: self.containers.copied(),
        }
    }
}

/// Settings of a role or a role group that may be incomplete.
/// 
/// Logging settings are merged separately, as the logging framework knows how to.
#[derive(Debug, PartialEq, Eq)]
pub struct NifiConfigFragment {
    pub resources: Resources,
    pub affinity: StackableAffinity,
    pub graceful_shutdown_timeout_seconds: Option<u64>,
    pub requested_secret_lifetime_seconds: Option<u64>,
}

/// The contents of a [`NifiConfigFragment`].
#[verifier::ext_equal]
pub struct NifiConfigFragmentView {
    pub resources: ResourcesView,
    pub affinity: StackableAffinityView,
    pub graceful_shutdown_timeout_seconds: Option<u64>,
    pub requested_secret_lifetime_seconds: Option<u64>,
}

impl DeepView for NifiConfigFragment {
    type V = NifiConfigFragmentView;

    open spec fn deep_view(&self) -> NifiConfigFragmentView {
        NifiConfigFragmentView {
            resources: self.resources.deep_view(),
            affinity: self.affinity.deep_view(),
            graceful_shutdown_timeout_seconds: self.graceful_shutdown_timeout_seconds.deep_view(),
            requested_secret_lifetime_seconds: self.requested_secret_lifetime_seconds.deep_view(),
        }
    }
}

impl Copied for NifiConfigFragment {
    fn copied(&self) -> (copy: NifiConfigFragment) {
        NifiConfigFragment {
            resources: self.resources.copied(),
            affinity: self.affinity.copied(),
            graceful_shutdown_timeout_seconds: self.graceful_shutdown_timeout_seconds.copied(),
            requested_secret_lifetime_seconds: self.requested_secret_lifetime_seconds.copied(),
        }
    }
}

/// The settings of a role group.
#[derive(Debug, PartialEq, Eq)]
pub struct NifiConfig {
    pub logging: Logging,
    pub resources: Resources,
    pub affinity: StackableAffinity,
    /// The time that pods have to shut down.
    pub graceful_shutdown_timeout_seconds: Option<u64>,
    /// The lifetime of certificates.
    pub requested_secret_lifetime_seconds: Option<u64>,
}

/// The contents of a [`NifiConfig`].
#[verifier::ext_equal]
pub struct NifiConfigView {
    pub logging: LoggingView,
    pub resources: ResourcesView,
    pub affinity: StackableAffinityView,
    pub graceful_shutdown_timeout_seconds: Option<u64>,
    pub requested_secret_lifetime_seconds: Option<u64>,
}

impl DeepView for NifiConfig {
    type V = NifiConfigView;

    open spec fn deep_view(&self) -> NifiConfigView {
        NifiConfigView {
            logging: self.logging.deep_view(),
            resources: self.resources.deep_view(),
            affinity: self.affinity.deep_view(),
            graceful_shutdown_timeout_seconds: self.graceful_shutdown_timeout_seconds.deep_view(),
            requested_secret_lifetime_seconds: self.requested_secret_lifetime_seconds.deep_view(),
        }
    }
}

impl Copied for NifiConfig {
    fn copied(&self) -> (copy: NifiConfig) {
        NifiConfig {
            logging: self.logging.copied(),
            resources: self.resources.copied(),
            affinity: self.affinity.copied(),
            graceful_shutdown_timeout_seconds: self.graceful_shutdown_timeout_seconds.copied(),
            requested_secret_lifetime_seconds: self.requested_secret_lifetime_seconds.copied(),
        }
    }
}

/// Whether and how disruptions of pods are limited.
#[derive(Debug, PartialEq, Eq)]
pub struct PdbConfig {
    pub enabled: bool,
    pub max_unavailable: Option<u16>,
}

/// The contents of a [`PdbConfig`].
#[verifier::ext_equal]
pub struct PdbConfigView {
    pub enabled: bool,
    pub max_unavailable: Option<u16>,
}

impl DeepView for PdbConfig {
    type V = PdbConfigView;

    open spec fn deep_view(&self) -> PdbConfigView {
        PdbConfigView {
            enabled: self.enabled.deep_view(),
            max_unavailable: self.max_unavailable.deep_view(),
        }
    }
}

impl Copied for PdbConfig {
    fn copied(&self) -> (copy: PdbConfig) {
        PdbConfig {
            enabled: self.enabled,
            max_unavailable: self.max_unavailable.copied(),
        }
    }
}

/// The settings of the node role as a whole.
#[derive(Debug, PartialEq, Eq)]
pub struct NifiNodeRoleConfig {
    pub pod_disruption_budget: PdbConfig,
    pub listener_class: String,
}

/// The contents of a [`NifiNodeRoleConfig`].
#[verifier::ext_equal]
pub struct NifiNodeRoleConfigView {
    pub pod_disruption_budget: PdbConfigView,
    pub listener_class: Seq<char>,
}

impl DeepView for NifiNodeRoleConfig {
    type V = NifiNodeRoleConfigView;

    open spec fn deep_view(&self) -> NifiNodeRoleConfigView {
        NifiNodeRoleConfigView {
            pod_disruption_budget: self.pod_disruption_budget.deep_view(),
            listener_class: self.listener_class.deep_view(),
        }
    }
}

impl Copied for NifiNodeRoleConfig {
    fn copied(&self) -> (copy: NifiNodeRoleConfig) {
        NifiNodeRoleConfig {
            pod_disruption_budget: self.pod_disruption_budget.copied(),
            listener_class: self.listener_class.copied(),
        }
    }
}

/// The listener class that is used where none is named.
pub fn node_default_listener_class() -> (listener_class: String)
    ensures
        listener_class@ == "cluster-internal"@,
{
    "cluster-internal".to_owned()
}

impl Default for NifiNodeRoleConfig {
    fn default() -> (config: NifiNodeRoleConfig)
        ensures
            config.deep_view() == (NifiNodeRoleConfigView {
                pod_disruption_budget: PdbConfigView { enabled: true, max_unavailable: None },
                listener_class: "cluster-internal"@,
            }),
    {
        NifiNodeRoleConfig {
            pod_disruption_budget: PdbConfig { enabled: true, max_unavailable: None },
            listener_class: node_default_listener_class(),
        }
    }
}

/// A role group as the user wrote it.
#[derive(Debug, PartialEq, Eq)]
pub struct RoleGroup {
    pub replicas: Option<u16>,
    pub config: NifiConfigFragment,
    /// As written in a manifest.
    pub pod_overrides: String,
}

/// The contents of a [`RoleGroup`].
#[verifier::ext_equal]
pub struct RoleGroupView {
    pub replicas: Option<u16>,
    pub config: NifiConfigFragmentView,
    pub pod_overrides: Seq<char>,
}

impl DeepView for RoleGroup {
    type V = RoleGroupView;

    open spec fn deep_view(&self) -> RoleGroupView {
        RoleGroupView {
            replicas: self.replicas.deep_view(),
            config: self.config.deep_view(),
            pod_overrides: self.pod_overrides.deep_view(),
        }
    }
}

impl Copied for RoleGroup {
    fn copied(&self) -> (copy: RoleGroup) {
        RoleGroup {
            replicas: self.replicas.copied(),
            config: self.config.copied(),
            pod_overrides: self.pod_overrides.copied(),
        }
    }
}

/// The node role as the user wrote it.
#[derive(Debug, PartialEq, Eq)]
pub struct NodeRole {
    pub config: NifiConfigFragment,
    /// As written in a manifest.
    pub pod_overrides: String,
    pub role_config: NifiNodeRoleConfig,
    /// By name.
    pub role_groups: OrderedMap<RoleGroup>,
}

/// The contents of a [`NodeRole`].
#[verifier::ext_equal]
pub struct NodeRoleView {
    pub config: NifiConfigFragmentView,
    pub pod_overrides: Seq<char>,
    pub role_config: NifiNodeRoleConfigView,
    pub role_groups: Map<Seq<char>, RoleGroupView>,
}

impl DeepView for NodeRole {
    type V = NodeRoleView;

    open spec fn deep_view(&self) -> NodeRoleView {
        NodeRoleView {
            config: self.config.deep_view(),
            pod_overrides: self.pod_overrides.deep_view(),
            role_config: self.role_config.deep_view(),
            role_groups: self.role_groups.deep_view(),
        }
    }
}

impl Copied for NodeRole {
    fn copied(&self) -> (copy: NodeRole) {
        NodeRole {
            config: self.config.copied(),
            pod_overrides: self.pod_overrides.copied(),
            role_config: self.role_config.copied(),
            role_groups: self.role_groups.copied(),
        }
    }
}

/// A reference to an AuthenticationClass.
#[derive(Debug, PartialEq, Eq)]
pub struct ClientAuthenticationDetails {
    /// The name of the AuthenticationClass.
    pub authentication_class: String,
    /// The Secret with the OIDC client credentials, where OIDC is configured.
    pub oidc_client_credentials_secret: Option<String>,
}

/// The contents of a [`ClientAuthenticationDetails`].
#[verifier::ext_equal]
pub struct ClientAuthenticationDetailsView {
    pub authentication_class: Seq<char>,
    pub oidc_client_credentials_secret: Option<Seq<char>>,
}

impl DeepView for ClientAuthenticationDetails {
    type V = ClientAuthenticationDetailsView;

    open spec fn deep_view(&self) -> ClientAuthenticationDetailsView {
        ClientAuthenticationDetailsView {
            authentication_class: self.authentication_class.deep_view(),
            oidc_client_credentials_secret: self.oidc_client_credentials_secret.deep_view(),
        }
    }
}

impl Copied for ClientAuthenticationDetails {
    fn copied(&self) -> (copy: ClientAuthenticationDetails) {
        ClientAuthenticationDetails {
            authentication_class: self.authentication_class.copied(),
            oidc_client_credentials_secret: self.oidc_client_credentials_secret.copied(),
        }
    }
}

/// Settings that affect the whole cluster.
#[derive(Debug, PartialEq, Eq)]
pub struct NifiClusterConfig {
    pub authentication: Vec<ClientAuthenticationDetails>,
    pub authorization: NifiAuthorization,
    pub host_header_check: HostHeaderCheckConfig,
    pub tls: NifiTls,
    pub sensitive_properties: NifiSensitivePropertiesConfig,
    /// The discovery ConfigMap of the Vector aggregator.
    pub vector_aggregator_config_map_name: Option<String>,
    pub clustering_backend: NifiClusteringBackend,
    /// Extra volumes to mount into every container. This makes for example client certificates or
    /// keytabs available to processors. They are mounted at `/stackable/userdata/{volumename}`.
    pub extra_volumes: Vec<Volume>,
    pub create_reporting_task_job: CreateReportingTaskJob,
}

/// The contents of a [`NifiClusterConfig`].
#[verifier::ext_equal]
pub struct NifiClusterConfigView {
    pub authentication: Seq<ClientAuthenticationDetailsView>,
    pub authorization: NifiAuthorizationView,
    pub host_header_check: HostHeaderCheckConfigView,
    pub tls: NifiTlsView,
    pub sensitive_properties: NifiSensitivePropertiesConfigView,
    pub vector_aggregator_config_map_name: Option<Seq<char>>,
    pub clustering_backend: NifiClusteringBackendView,
    pub extra_volumes: Seq<VolumeView>,
    pub create_reporting_task_job: CreateReportingTaskJobView,
}

impl DeepView for NifiClusterConfig {
    type V = NifiClusterConfigView;

    open spec fn deep_view(&self) -> NifiClusterConfigView {
        NifiClusterConfigView {
            authentication: self.authentication.deep_view(),
            authorization: self.authorization.deep_view(),
            host_header_check: self.host_header_check.deep_view(),
            tls: self.tls.deep_view(),
            sensitive_properties: self.sensitive_properties.deep_view(),
            vector_aggregator_config_map_name: self.vector_aggregator_config_map_name.deep_view(),
            clustering_backend: self.clustering_backend.deep_view(),
            extra_volumes: self.extra_volumes.deep_view(),
            create_reporting_task_job: self.create_reporting_task_job.deep_view(),
        }
    }
}

impl Copied for NifiClusterConfig {
    fn copied(&self) -> (copy: NifiClusterConfig) {
        NifiClusterConfig {
            authentication: self.authentication.copied(),
            authorization: self.authorization.copied(),
            host_header_check: self.host_header_check.copied(),
            tls: self.tls.copied(),
            sensitive_properties: self.sensitive_properties.copied(),
            vector_aggregator_config_map_name: self.vector_aggregator_config_map_name.copied(),
            clustering_backend: self.clustering_backend.copied(),
            extra_volumes: self.extra_volumes.copied(),
            create_reporting_task_job: self.create_reporting_task_job.copied(),
        }
    }
}

/// What the user asks for.
#[derive(Debug, PartialEq, Eq)]
pub struct NifiClusterSpec {
    pub cluster_config: NifiClusterConfig,
    pub nodes: Option<NodeRole>,
}

/// The contents of a [`NifiClusterSpec`].
#[verifier::ext_equal]
pub struct NifiClusterSpecView {
    pub cluster_config: NifiClusterConfigView,
    pub nodes: Option<NodeRoleView>,
}

impl DeepView for NifiClusterSpec {
    type V = NifiClusterSpecView;

    open spec fn deep_view(&self) -> NifiClusterSpecView {
        NifiClusterSpecView {
            cluster_config: self.cluster_config.deep_view(),
            nodes: self.nodes.deep_view(),
        }
    }
}

impl Copied for NifiClusterSpec {
    fn copied(&self) -> (copy: NifiClusterSpec) {
        NifiClusterSpec {
            cluster_config: self.cluster_config.copied(),
            nodes: self.nodes.copied(),
        }
    }
}

/// A NiFi cluster.
#[derive(Debug, PartialEq, Eq)]
pub struct NifiCluster {
    pub metadata: ObjectMeta,
    pub spec: NifiClusterSpec,
    pub status: Option<NifiStatus>,
}

/// The contents of a [`NifiCluster`].
#[verifier::ext_equal]
pub struct NifiClusterView {
    pub metadata: ObjectMetaView,
    pub spec: NifiClusterSpecView,
    pub status: Option<NifiStatusView>,
}

impl DeepView for NifiCluster {
    type V = NifiClusterView;

    open spec fn deep_view(&self) -> NifiClusterView {
        NifiClusterView {
            metadata: self.metadata.deep_view(),
            spec: self.spec.deep_view(),
            status: self.status.deep_view(),
        }
    }
}

impl Copied for NifiCluster {
    fn copied(&self) -> (copy: NifiCluster) {
        NifiCluster {
            metadata: self.metadata.copied(),
            spec: self.spec.copied(),
            status: self.status.copied(),
        }
    }
}

/// A reference to a role group.
#[derive(Debug, PartialEq, Eq)]
pub struct RoleGroupRef {
    /// The name of the cluster.
    pub cluster: String,
    pub role: String,
    pub role_group: String,
}

/// The contents of a [`RoleGroupRef`].
#[verifier::ext_equal]
pub struct RoleGroupRefView {
    pub cluster: Seq<char>,
    pub role: Seq<char>,
    pub role_group: Seq<char>,
}

impl DeepView for RoleGroupRef {
    type V = RoleGroupRefView;

    open spec fn deep_view(&self) -> RoleGroupRefView {
        RoleGroupRefView {
            cluster: self.cluster.deep_view(),
            role: self.role.deep_view(),
            role_group: self.role_group.deep_view(),
        }
    }
}

impl Copied for RoleGroupRef {
    fn copied(&self) -> (copy: RoleGroupRef) {
        RoleGroupRef {
            cluster: self.cluster.copied(),
            role: self.role.copied(),
            role_group: self.role_group.copied(),
        }
    }
}

impl RoleGroupRefView {
    /// The name of the objects of the role group.
    pub open spec fn name(self) -> Seq<char> {
        self.cluster + "-"@ + self.role + "-"@ + self.role_group
    }
}

impl RoleGroupRef {
    /// The name of the objects of the role group.
    pub fn object_name(&self) -> (name: String)
        ensures
            name@ == self.deep_view().name(),
    {
        concat5(self.cluster.as_str(), "-", self.role.as_str(), "-", self.role_group.as_str())
    }
}

/// The value itself where there is one, else the fallback.
pub open spec fn first_of<V>(specific: Option<V>, fallback: Option<V>) -> Option<V> {
    if specific.is_some() {
        specific
    } else {
        fallback
    }
}

/// The value itself where there is one, else the fallback.
pub fn prefer<T: Copied>(specific: &Option<T>, fallback: &Option<T>) -> (value: Option<T>)
    ensures
        value.deep_view() == first_of(specific.deep_view(), fallback.deep_view()),
{
    match specific {
        Some(value) => Some(value.copied()),
        None => fallback.copied(),
    }
}

impl PvcConfigView {
    /// The settings, completed by the defaults.
    pub open spec fn over(self, defaults: PvcConfigView) -> PvcConfigView {
        PvcConfigView {
            capacity: first_of(self.capacity, defaults.capacity),
            storage_class: first_of(self.storage_class, defaults.storage_class),
            selectors: first_of(self.selectors, defaults.selectors),
        }
    }

    /// A claim of the given size, with nothing else settled.
    pub open spec fn sized(capacity: Seq<char>) -> PvcConfigView {
        PvcConfigView { capacity: Some(capacity), storage_class: None, selectors: None }
    }
}

impl PvcConfig {
    /// Completes the settings by defaults.
    pub fn merge(&self, defaults: &PvcConfig) -> (merged: PvcConfig)
        ensures
            merged.deep_view() == self.deep_view().over(defaults.deep_view()),
    {
        PvcConfig {
            capacity: prefer(&self.capacity, &defaults.capacity),
            storage_class: prefer(&self.storage_class, &defaults.storage_class),
            selectors: prefer(&self.selectors, &defaults.selectors),
        }
    }

    /// A claim of the given size, with nothing else settled.
    pub fn with_capacity(capacity: &str) -> (config: PvcConfig)
        ensures
            config.deep_view() == PvcConfigView::sized(capacity@),
    {
        PvcConfig { capacity: Some(capacity.to_owned()), storage_class: None, selectors: None }
    }
}

impl ResourcesView {
    /// The settings, completed by the defaults.
    pub open spec fn over(self, defaults: ResourcesView) -> ResourcesView {
        let s = self.storage;
        let d = defaults.storage;
        ResourcesView {
            cpu_min: first_of(self.cpu_min, defaults.cpu_min),
            cpu_max: first_of(self.cpu_max, defaults.cpu_max),
            memory_limit: first_of(self.memory_limit, defaults.memory_limit),
            storage: NifiStorageConfigView {
                flowfile_repo: s.flowfile_repo.over(d.flowfile_repo),
                provenance_repo: s.provenance_repo.over(d.provenance_repo),
                database_repo: s.database_repo.over(d.database_repo),
                content_repo: s.content_repo.over(d.content_repo),
                state_repo: s.state_repo.over(d.state_repo),
                filebased_repo: s.filebased_repo.over(d.filebased_repo),
            },
        }
    }
}

impl Resources {
    /// Completes the settings by defaults.
    pub fn merge(&self, defaults: &Resources) -> (merged: Resources)
        ensures
            merged.deep_view() == self.deep_view().over(defaults.deep_view()),
    {
        let s = &self.storage;
        let d = &defaults.storage;
        Resources {
            cpu_min: prefer(&self.cpu_min, &defaults.cpu_min),
            cpu_max: prefer(&self.cpu_max, &defaults.cpu_max),
            memory_limit: prefer(&self.memory_limit, &defaults.memory_limit),
            storage: NifiStorageConfig {
                flowfile_repo: s.flowfile_repo.merge(&d.flowfile_repo),
                provenance_repo: s.provenance_repo.merge(&d.provenance_repo),
                database_repo: s.database_repo.merge(&d.database_repo),
                content_repo: s.content_repo.merge(&d.content_repo),
                state_repo: s.state_repo.merge(&d.state_repo),
                filebased_repo: s.filebased_repo.merge(&d.filebased_repo),
            },
        }
    }
}

/// An affinity, completed by a default one.
pub open spec fn affinity_over(
    specific: StackableAffinityView,
    defaults: StackableAffinityView,
) -> StackableAffinityView {
    StackableAffinityView {
        pod_affinity: first_of(specific.pod_affinity, defaults.pod_affinity),
        pod_anti_affinity: first_of(specific.pod_anti_affinity, defaults.pod_anti_affinity),
        node_affinity: first_of(specific.node_affinity, defaults.node_affinity),
        node_selector: first_of(specific.node_selector, defaults.node_selector),
    }
}

/// Completes an affinity by a default one.
pub fn merge_affinity(
    specific: &StackableAffinity,
    defaults: &StackableAffinity,
) -> (merged: StackableAffinity)
    ensures
        merged.deep_view() == affinity_over(specific.deep_view(), defaults.deep_view()),
{
    StackableAffinity {
        pod_affinity: prefer(&specific.pod_affinity, &defaults.pod_affinity),
        pod_anti_affinity: prefer(&specific.pod_anti_affinity, &defaults.pod_anti_affinity),
        node_affinity: prefer(&specific.node_affinity, &defaults.node_affinity),
        node_selector: prefer(&specific.node_selector, &defaults.node_selector),
    }
}

impl NifiConfigFragmentView {
    /// The settings, completed by the defaults.
    pub open spec fn over(self, defaults: NifiConfigFragmentView) -> NifiConfigFragmentView {
        NifiConfigFragmentView {
            resources: self.resources.over(defaults.resources),
            affinity: affinity_over(self.affinity, defaults.affinity),
            graceful_shutdown_timeout_seconds: first_of(
                self.graceful_shutdown_timeout_seconds,
                defaults.graceful_shutdown_timeout_seconds,
            ),
            requested_secret_lifetime_seconds: first_of(
                self.requested_secret_lifetime_seconds,
                defaults.requested_secret_lifetime_seconds,
            ),
        }
    }

    /// Settings of which none is settled.
    pub open spec fn nothing() -> NifiConfigFragmentView {
        let unset = PvcConfigView { capacity: None, storage_class: None, selectors: None };
        NifiConfigFragmentView {
            resources: ResourcesView {
                cpu_min: None,
                cpu_max: None,
                memory_limit: None,
                storage: NifiStorageConfigView {
                    flowfile_repo: unset,
                    provenance_repo: unset,
                    database_repo: unset,
                    content_repo: unset,
                    state_repo: unset,
                    filebased_repo: unset,
                },
            },
            affinity: StackableAffinityView {
                pod_affinity: None,
                pod_anti_affinity: None,
                node_affinity: None,
                node_selector: None,
            },
            graceful_shutdown_timeout_seconds: None,
            requested_secret_lifetime_seconds: None,
        }
    }
}

impl NifiConfigFragment {
    /// Completes the settings by defaults.
    pub fn merge(&self, defaults: &NifiConfigFragment) -> (merged: NifiConfigFragment)
        ensures
            merged.deep_view() == self.deep_view().over(defaults.deep_view()),
    {
        NifiConfigFragment {
            resources: self.resources.merge(&defaults.resources),
            affinity: merge_affinity(&self.affinity, &defaults.affinity),
            graceful_shutdown_timeout_seconds: prefer(
                &self.graceful_shutdown_timeout_seconds,
                &defaults.graceful_shutdown_timeout_seconds,
            ),
            requested_secret_lifetime_seconds: prefer(
                &self.requested_secret_lifetime_seconds,
                &defaults.requested_secret_lifetime_seconds,
            ),
        }
    }

    /// The environment of a role group needs nothing beyond what the user sets.
    pub fn compute_env(&self) -> (settings: StringMap)
        ensures
            settings@ == Map::<Seq<char>, Seq<char>>::empty(),
    {
        OrderedMap::new()
    }

    /// The command line of a role group needs nothing beyond what the user sets.
    pub fn compute_cli(&self) -> (settings: StringMap)
        ensures
            settings@ == Map::<Seq<char>, Seq<char>>::empty(),
    {
        OrderedMap::new()
    }

    /// The files of a role group need no settings beyond the ones that are built for each file.
    pub fn compute_files(&self) -> (settings: StringMap)
        ensures
            settings@ == Map::<Seq<char>, Seq<char>>::empty(),
    {
        OrderedMap::new()
    }
}

impl Default for NifiConfigFragment {
    fn default() -> (fragment: NifiConfigFragment)
        ensures
            fragment.deep_view() == NifiConfigFragmentView::nothing(),
    {
        NifiConfigFragment {
            resources: Resources {
                cpu_min: None,
                cpu_max: None,
                memory_limit: None,
                storage: NifiStorageConfig {
                    flowfile_repo: PvcConfig { capacity: None, storage_class: None, selectors: None },
                    provenance_repo: PvcConfig {
                        capacity: None,
                        storage_class: None,
                        selectors: None,
                    },
                    database_repo: PvcConfig { capacity: None, storage_class: None, selectors: None },
                    content_repo: PvcConfig { capacity: None, storage_class: None, selectors: None },
                    state_repo: PvcConfig { capacity: None, storage_class: None, selectors: None },
                    filebased_repo: PvcConfig {
                        capacity: None,
                        storage_class: None,
                        selectors: None,
                    },
                },
            },
            affinity: StackableAffinity {
                pod_affinity: None,
                pod_anti_affinity: None,
                node_affinity: None,
                node_selector: None,
            },
            graceful_shutdown_timeout_seconds: None,
            requested_secret_lifetime_seconds: None,
        }
    }
}

/// The settings that hold where the user does not decide otherwise.
pub open spec fn default_settings(
    cluster_name: Seq<char>,
    role: NifiRole,
) -> NifiConfigFragmentView {
    NifiConfigFragmentView {
        resources: ResourcesView {
            cpu_min: Some("500m"@),
            cpu_max: Some("2000m"@),
            memory_limit: Some("4096Mi"@),
            storage: NifiStorageConfigView {
                flowfile_repo: PvcConfigView::sized("1024Mi"@),
                provenance_repo: PvcConfigView::sized("2048Mi"@),
                database_repo: PvcConfigView::sized("1024Mi"@),
                content_repo: PvcConfigView::sized("4096Mi"@),
                state_repo: PvcConfigView::sized("1024Mi"@),
                filebased_repo: PvcConfigView {
                    capacity: None,
                    storage_class: None,
                    selectors: None,
                },
            },
        },
        affinity: affinity::default_affinity(APP_NAME@, cluster_name, role.text()),
        graceful_shutdown_timeout_seconds: Some(DEFAULT_NODE_GRACEFUL_SHUTDOWN_TIMEOUT_SECONDS),
        requested_secret_lifetime_seconds: Some(DEFAULT_NODE_SECRET_LIFETIME_SECONDS),
    }
}

impl NifiConfig {
    /// The settings that hold where the user does not decide otherwise.
    pub fn default_config(cluster_name: &str, role: &NifiRole) -> (config: NifiConfigFragment)
        ensures
            config.deep_view() == default_settings(cluster_name@, *role),
    {
        NifiConfigFragment {
            resources: Resources {
                cpu_min: Some("500m".to_owned()),
                cpu_max: Some("2000m".to_owned()),
                memory_limit: Some("4096Mi".to_owned()),
                storage: NifiStorageConfig {
                    flowfile_repo: PvcConfig::with_capacity("1024Mi"),
                    provenance_repo: PvcConfig::with_capacity("2048Mi"),
                    database_repo: PvcConfig::with_capacity("1024Mi"),
                    content_repo: PvcConfig::with_capacity("4096Mi"),
                    state_repo: PvcConfig::with_capacity("1024Mi"),
                    filebased_repo: PvcConfig {
                        capacity: None,
                        storage_class: None,
                        selectors: None,
                    },
                },
            },
            affinity: get_affinity(cluster_name, role),
            graceful_shutdown_timeout_seconds: Some(DEFAULT_NODE_GRACEFUL_SHUTDOWN_TIMEOUT_SECONDS),
            requested_secret_lifetime_seconds: Some(DEFAULT_NODE_SECRET_LIFETIME_SECONDS),
        }
    }
}

impl NifiClusterView {
    /// The name of the cluster, empty where it has none.
    pub open spec fn name_or_empty(self) -> Seq<char> {
        match self.metadata.name {
            Some(name) => name,
            None => Seq::empty(),
        }
    }

    /// The settings that the user gave a role group, none where it does not exist.
    pub open spec fn group_settings(self, role_group: Seq<char>) -> NifiConfigFragmentView {
        let groups = self.spec.nodes.unwrap().role_groups;
        if groups.dom().contains(role_group) {
            groups[role_group].config
        } else {
            NifiConfigFragmentView::nothing()
        }
    }

    /// The settings of a role group: its own, then those of the role, then the defaults.
    pub open spec fn merged_settings(
        self,
        role: NifiRole,
        role_group: Seq<char>,
    ) -> NifiConfigFragmentView {
        self.group_settings(role_group).over(
            self.spec.nodes.unwrap().config.over(default_settings(self.name_or_empty(), role)),
        )
    }
}

/// Complete settings, made of merged settings and merged logging settings.
pub open spec fn complete_settings(
    settings: NifiConfigFragmentView,
    logging: LoggingFragmentView,
) -> NifiConfigView {
    NifiConfigView {
        logging: LoggingView {
            enable_vector_agent: logging.enable_vector_agent.unwrap(),
            containers: logging.containers,
        },
        resources: settings.resources,
        affinity: settings.affinity,
        graceful_shutdown_timeout_seconds: settings.graceful_shutdown_timeout_seconds,
        requested_secret_lifetime_seconds: settings.requested_secret_lifetime_seconds,
    }
}

impl NifiCluster {
    /// The name of the cluster, empty where it has none.
    pub fn name_any(&self) -> (name: String)
        ensures
            name@ == self.deep_view().name_or_empty(),
    {
        match &self.metadata.name {
            Some(name) => name.copied(),
            None => String::new(),
        }
    }

    /// The conditions that the status reports.
    pub fn conditions(&self) -> (conditions: Vec<ClusterCondition>)
        ensures
            conditions.deep_view() == (match self.deep_view().status {
                Some(status) => status.conditions,
                None => Seq::empty(),
            }),
    {
        match &self.status {
            Some(status) => status.conditions.copied(),
            None => empty_list(),
        }
    }

    /// A reference to a role group of the node role.
    pub fn node_rolegroup_ref(&self, group_name: &str) -> (reference: RoleGroupRef)
        ensures
            reference.deep_view() == (RoleGroupRefView {
                cluster: self.deep_view().name_or_empty(),
                role: NifiRole::Node.text(),
                role_group: group_name@,
            }),
    {
        RoleGroupRef {
            cluster: self.name_any(),
            role: NifiRole::Node.as_str().to_owned(),
            role_group: group_name.to_owned(),
        }
    }

    /// The settings of a role as a whole.
    pub fn role_config(&self, role: &NifiRole) -> (config: Option<NifiNodeRoleConfig>)
        ensures
            config.deep_view() == (match self.deep_view().spec.nodes {
                Some(nodes) => Some(nodes.role_config),
                None => None,
            }),
    {
        match role {
            NifiRole::Node => match &self.spec.nodes {
                Some(nodes) => Some(nodes.role_config.copied()),
                None => None,
            },
        }
    }

    /// The SecretClass of the certificates of the servers.
    pub fn server_tls_secret_class(&self) -> (secret_class: &str)
        ensures
            secret_class@ == self.deep_view().spec.cluster_config.tls.server_secret_class,
    {
        self.spec.cluster_config.tls.server_secret_class.as_str()
    }

    /// Merges the settings of a role group, its role and the defaults, in this order of precedence.
    ///
    /// `logging` holds the logging settings, merged in the same order.
    pub fn merged_config(
        &self,
        role: &NifiRole,
        role_group: &str,
        logging: &LoggingFragment,
    ) -> (result: Result<NifiConfig, Error>)
        ensures
            match result {
                Ok(config) => self.spec.nodes.is_some() && logging.enable_vector_agent.is_some()
                    && config.deep_view() == complete_settings(
                    self.deep_view().merged_settings(*role, role_group@),
                    logging.deep_view(),
                ),
                Err(Error::MissingNifiRole { role: missing }) => self.spec.nodes.is_none()
                    && missing@ == role.text(),
                Err(Error::FragmentValidationFailure) => self.spec.nodes.is_some()
                    && logging.enable_vector_agent.is_none(),
            },
    {
        let name = self.name_any();
        let conf_defaults = NifiConfig::default_config(name.as_str(), role);
        let nodes = match &self.spec.nodes {
            Some(nodes) => nodes,
            None => {
                return Err(Error::MissingNifiRole { role: role.as_str().to_owned() });
            },
        };
        let conf_role = nodes.config.merge(&conf_defaults);
        let conf_rolegroup = match nodes.role_groups.get(role_group) {
            Some(group) => group.config.copied(),
            None => NifiConfigFragment::default(),
        };
        let merged = conf_rolegroup.merge(&conf_role);
        match logging.enable_vector_agent {
            Some(enable_vector_agent) => Ok(
                NifiConfig {
                    logging: Logging {
                        enable_vector_agent,
                        containers: logging.containers.copied(),
                    },
                    resources: merged.resources,
                    affinity: merged.affinity,
                    graceful_shutdown_timeout_seconds: merged.graceful_shutdown_timeout_seconds,
                    requested_secret_lifetime_seconds: merged.requested_secret_lifetime_seconds,
                },
            ),
            None => Err(Error::FragmentValidationFailure),
        }
    }
}

/// Merging the settings of a volume is associative.
proof fn lemma_pvc_merging(a: PvcConfigView, b: PvcConfigView, c: PvcConfigView)
    ensures
        a.over(b).over(c) == a.over(b.over(c)),
        a.over(a) == a,
{
    let left = a.over(b).over(c);
    let right = a.over(b.over(c));
    assert(left.capacity == right.capacity);
    assert(left.storage_class == right.storage_class);
    assert(left.selectors == right.selectors);
    assert(left == right);
}

/// Merging resources is associative.
proof fn lemma_resources_merging(a: ResourcesView, b: ResourcesView, c: ResourcesView)
    ensures
        a.over(b).over(c) == a.over(b.over(c)),
        a.over(a) == a,
{
    let (x, y, z) = (a.storage, b.storage, c.storage);
    lemma_pvc_merging(x.flowfile_repo, y.flowfile_repo, z.flowfile_repo);
    lemma_pvc_merging(x.provenance_repo, y.provenance_repo, z.provenance_repo);
    lemma_pvc_merging(x.database_repo, y.database_repo, z.database_repo);
    lemma_pvc_merging(x.content_repo, y.content_repo, z.content_repo);
    lemma_pvc_merging(x.state_repo, y.state_repo, z.state_repo);
    lemma_pvc_merging(x.filebased_repo, y.filebased_repo, z.filebased_repo);
}

/// Merging affinities is associative.
proof fn lemma_affinity_merging(
    a: StackableAffinityView,
    b: StackableAffinityView,
    c: StackableAffinityView,
)
    ensures
        affinity_over(affinity_over(a, b), c) == affinity_over(a, affinity_over(b, c)),
        affinity_over(a, a) == a,
{
    let left = affinity_over(affinity_over(a, b), c);
    let right = affinity_over(a, affinity_over(b, c));
    assert(left.pod_affinity == right.pod_affinity);
    assert(left.pod_anti_affinity == right.pod_anti_affinity);
    assert(left.node_affinity == right.node_affinity);
    assert(left.node_selector == right.node_selector);
}

/// It does not matter in which order settings are merged, as long as the more specific ones stay in
/// front.
pub proof fn law_merging_is_associative(
    role_group: NifiConfigFragmentView,
    role: NifiConfigFragmentView,
    defaults: NifiConfigFragmentView,
)
    ensures
        role_group.over(role).over(defaults) == role_group.over(role.over(defaults)),
{
    lemma_resources_merging(role_group.resources, role.resources, defaults.resources);
    lemma_affinity_merging(role_group.affinity, role.affinity, defaults.affinity);
}

/// Merging settings over the same settings changes nothing.
pub proof fn law_merging_is_idempotent(settings: NifiConfigFragmentView)
    ensures
        settings.over(settings) == settings,
{
    lemma_resources_merging(settings.resources, settings.resources, settings.resources);
    lemma_affinity_merging(settings.affinity, settings.affinity, settings.affinity);
}

} // verus!
