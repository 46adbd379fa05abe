//! Clusters that ZooKeeper manages and whose role is reached through one Service.

use crate::contents::{Copied, SameContents};
use crate::crd;
use crate::crd::affinity;
use crate::crd::affinity::get_affinity;
use crate::crd::{
    ClientAuthenticationDetails, ClientAuthenticationDetailsView, LoggingFragment, Logging,
    NifiConfig, NifiConfigFragment, NifiConfigFragmentView, NifiRole, NifiStorageConfig,
    NifiStorageConfigView, PvcConfig, PvcConfigView, Resources, ResourcesView, RoleGroupRef,
    RoleGroupRefView, APP_NAME,
};
use crate::kubernetes::{
    LabelSelector, LabelSelectorView, NodeAffinity, NodeAffinityView, ObjectMeta, ObjectMetaView,
    StackableAffinity, StackableAffinityView, Volume, VolumeView,
};
use crate::list::{add_item, add_items, empty_list};
use crate::ordered_map;
use crate::ordered_map::{OrderedMap, StringMap};
use crate::text;
use crate::text::{concat3, concat4, number_text};
use vstd::prelude::*;

pub mod contents;
pub mod files;

verus! {

/// The SecretClass of the HTTP servers, unless another one is named.
pub const TLS_DEFAULT_SECRET_CLASS: &'static str = "tls";

/// Why something cannot be told of a cluster.
#[derive(Debug, PartialEq, Eq)]
pub enum Error {
    /// The cluster has no namespace.
    NoNamespace,
    /// The role is missing.
    MissingNifiRole {
        role: String,
    },
    /// The merged settings are incomplete.
    FragmentValidationFailure,
}

/// The contents of a [`Error`].
#[verifier::ext_equal]
pub enum ErrorView {
    NoNamespace,
    MissingNifiRole { role: Seq<char> },
    FragmentValidationFailure,
}

impl DeepView for Error {
    type V = ErrorView;

    open spec fn deep_view(&self) -> ErrorView {
        match self {
            Error::NoNamespace => ErrorView::NoNamespace,
            Error::MissingNifiRole { role } => ErrorView::MissingNifiRole {
                role: role.deep_view(),
            },
            Error::FragmentValidationFailure => ErrorView::FragmentValidationFailure,
        }
    }
}

/// How the Service of a cluster is reached.
#[derive(Clone, Copy, Debug, PartialEq, Eq, Structural)]
pub enum CurrentlySupportedListenerClasses {
    /// Reached from inside of the Kubernetes cluster.
    ClusterInternal,
    /// Reached from outside, at addresses that may change.
    ExternalUnstable,
    /// Reached from outside, at an address that stays.
    ExternalStable,
}

impl DeepView for CurrentlySupportedListenerClasses {
    type V = CurrentlySupportedListenerClasses;

    open spec fn deep_view(&self) -> CurrentlySupportedListenerClasses {
        *self
    }
}

impl Copied for CurrentlySupportedListenerClasses {
    fn copied(&self) -> (copy: CurrentlySupportedListenerClasses) {
        *self
    }
}

impl SameContents for CurrentlySupportedListenerClasses {
    fn same(&self, other: &CurrentlySupportedListenerClasses) -> (same: bool) {
        *self == *other
    }
}

impl CurrentlySupportedListenerClasses {
    /// The type of the Service.
    pub open spec fn service_type(self) -> Seq<char> {
        match self {
            CurrentlySupportedListenerClasses::ClusterInternal => "ClusterIP"@,
            CurrentlySupportedListenerClasses::ExternalUnstable => "NodePort"@,
            CurrentlySupportedListenerClasses::ExternalStable => "LoadBalancer"@,
        }
    }

    /// The type of the Service.
    pub fn k8s_service_type(&self) -> (service_type: String)
        ensures
            service_type@ == self.service_type(),
    {
        match self {
            CurrentlySupportedListenerClasses::ClusterInternal => "ClusterIP".to_owned(),
            CurrentlySupportedListenerClasses::ExternalUnstable => "NodePort".to_owned(),
            CurrentlySupportedListenerClasses::ExternalStable => "LoadBalancer".to_owned(),
        }
    }
}

impl Default for CurrentlySupportedListenerClasses {
    fn default() -> (value: CurrentlySupportedListenerClasses)
        ensures
            value == CurrentlySupportedListenerClasses::ClusterInternal,
    {
        CurrentlySupportedListenerClasses::ClusterInternal
    }
}

/// How NiFi encrypts sensitive properties.
#[derive(Clone, Copy, Debug, PartialEq, Eq, Structural)]
pub enum NifiSensitiveKeyAlgorithm {
    NifiArgon2AesGcm128,
    NifiArgon2AesGcm256,
    NifiBcryptAesGcm128,
    NifiBcryptAesGcm256,
    NifiPbkdf2AesGcm128,
    NifiPbkdf2AesGcm256,
    NifiScryptAesGcm128,
    NifiScryptAesGcm256,
}

impl DeepView for NifiSensitiveKeyAlgorithm {
    type V = NifiSensitiveKeyAlgorithm;

    open spec fn deep_view(&self) -> NifiSensitiveKeyAlgorithm {
        *self
    }
}

impl Copied for NifiSensitiveKeyAlgorithm {
    fn copied(&self) -> (copy: NifiSensitiveKeyAlgorithm) {
        *self
    }
}

impl SameContents for NifiSensitiveKeyAlgorithm {
    fn same(&self, other: &NifiSensitiveKeyAlgorithm) -> (same: bool) {
        *self == *other
    }
}

impl NifiSensitiveKeyAlgorithm {
    /// The text that stands for the value.
    pub open spec fn text(self) -> Seq<char> {
        match self {
            NifiSensitiveKeyAlgorithm::NifiArgon2AesGcm128 => "NIFI_ARGON2_AES_GCM_128"@,
            NifiSensitiveKeyAlgorithm::NifiArgon2AesGcm256 => "NIFI_ARGON2_AES_GCM_256"@,
            NifiSensitiveKeyAlgorithm::NifiBcryptAesGcm128 => "NIFI_BCRYPT_AES_GCM_128"@,
            NifiSensitiveKeyAlgorithm::NifiBcryptAesGcm256 => "NIFI_BCRYPT_AES_GCM_256"@,
            NifiSensitiveKeyAlgorithm::NifiPbkdf2AesGcm128 => "NIFI_PBKDF2_AES_GCM_128"@,
            NifiSensitiveKeyAlgorithm::NifiPbkdf2AesGcm256 => "NIFI_PBKDF2_AES_GCM_256"@,
            NifiSensitiveKeyAlgorithm::NifiScryptAesGcm128 => "NIFI_SCRYPT_AES_GCM_128"@,
            NifiSensitiveKeyAlgorithm::NifiScryptAesGcm256 => "NIFI_SCRYPT_AES_GCM_256"@,
        }
    }

    /// The text that stands for the value.
    pub fn as_str(&self) -> (text: &'static str)
        ensures
            text@ == self.text(),
    {
        match self {
            NifiSensitiveKeyAlgorithm::NifiArgon2AesGcm128 => "NIFI_ARGON2_AES_GCM_128",
            NifiSensitiveKeyAlgorithm::NifiArgon2AesGcm256 => "NIFI_ARGON2_AES_GCM_256",
            NifiSensitiveKeyAlgorithm::NifiBcryptAesGcm128 => "NIFI_BCRYPT_AES_GCM_128",
            NifiSensitiveKeyAlgorithm::NifiBcryptAesGcm256 => "NIFI_BCRYPT_AES_GCM_256",
            NifiSensitiveKeyAlgorithm::NifiPbkdf2AesGcm128 => "NIFI_PBKDF2_AES_GCM_128",
            NifiSensitiveKeyAlgorithm::NifiPbkdf2AesGcm256 => "NIFI_PBKDF2_AES_GCM_256",
            NifiSensitiveKeyAlgorithm::NifiScryptAesGcm128 => "NIFI_SCRYPT_AES_GCM_128",
            NifiSensitiveKeyAlgorithm::NifiScryptAesGcm256 => "NIFI_SCRYPT_AES_GCM_256",
        }
    }
}

impl Default for NifiSensitiveKeyAlgorithm {
    fn default() -> (value: NifiSensitiveKeyAlgorithm)
        ensures
            value == NifiSensitiveKeyAlgorithm::NifiArgon2AesGcm256,
    {
        NifiSensitiveKeyAlgorithm::NifiArgon2AesGcm256
    }
}

/// The format of key and trust stores.
#[derive(Clone, Copy, Debug, PartialEq, Eq, Structural)]
pub enum StoreType {
    JKS,
    PKCS12,
}

impl DeepView for StoreType {
    type V = StoreType;

    open spec fn deep_view(&self) -> StoreType {
        *self
    }
}

impl Copied for StoreType {
    fn copied(&self) -> (copy: StoreType) {
        *self
    }
}

impl SameContents for StoreType {
    fn same(&self, other: &StoreType) -> (same: bool) {
        *self == *other
    }
}

impl StoreType {
    /// The text that stands for the value.
    pub open spec fn text(self) -> Seq<char> {
        match self {
            StoreType::JKS => "JKS"@,
            StoreType::PKCS12 => "PKCS12"@,
        }
    }

    /// The text that stands for the value.
    pub fn as_str(&self) -> (text: &'static str)
        ensures
            text@ == self.text(),
    {
        match self {
            StoreType::JKS => "JKS",
            StoreType::PKCS12 => "PKCS12",
        }
    }
}

impl Default for StoreType {
    fn default() -> (value: StoreType)
        ensures
            value == StoreType::JKS,
    {
        StoreType::JKS
    }
}

/// The containers of a pod.
#[derive(Clone, Copy, Debug, PartialEq, Eq, Structural)]
pub enum Container {
    Prepare,
    Vector,
    Nifi,
}

impl DeepView for Container {
    type V = Container;

    open spec fn deep_view(&self) -> Container {
        *self
    }
}

impl Copied for Container {
    fn copied(&self) -> (copy: Container) {
        *self
    }
}

impl SameContents for Container {
    fn same(&self, other: &Container) -> (same: bool) {
        *self == *other
    }
}

impl Container {
    /// The text that stands for the value.
    pub open spec fn text(self) -> Seq<char> {
        match self {
            Container::Prepare => "prepare"@,
            Container::Vector => "vector"@,
            Container::Nifi => "nifi"@,
        }
    }

    /// The text that stands for the value.
    pub fn as_str(&self) -> (text: &'static str)
        ensures
            text@ == self.text(),
    {
        match self {
            Container::Prepare => "prepare",
            Container::Vector => "vector",
            Container::Nifi => "nifi",
        }
    }
}

/// The TLS settings of a cluster.
#[derive(Debug, PartialEq, Eq)]
pub struct NifiTls {
    /// The SecretClass of the certificate with which the HTTP servers authenticate themselves.
    pub http_secret_class: String,
}

/// The contents of a [`NifiTls`].
#[verifier::ext_equal]
pub struct NifiTlsView {
    pub http_secret_class: Seq<char>,
}

impl DeepView for NifiTls {
    type V = NifiTlsView;

    open spec fn deep_view(&self) -> NifiTlsView {
        NifiTlsView {
            http_secret_class: self.http_secret_class.deep_view(),
        }
    }
}

impl Copied for NifiTls {
    fn copied(&self) -> (copy: NifiTls) {
        NifiTls {
            http_secret_class: self.http_secret_class.copied(),
        }
    }
}

/// The SecretClass of the HTTP servers that is used where none is named.
pub fn http_tls_default() -> (secret_class: String)
    ensures
        secret_class@ == TLS_DEFAULT_SECRET_CLASS@,
{
    TLS_DEFAULT_SECRET_CLASS.to_owned()
}

/// The TLS settings that are used where none are given.
pub fn default_nifi_tls() -> (tls: NifiTls)
    ensures
        tls.deep_view() == (NifiTlsView { http_secret_class: TLS_DEFAULT_SECRET_CLASS@ }),
{
    NifiTls { http_secret_class: http_tls_default() }
}

/// How sensitive properties are encrypted.
#[derive(Debug, PartialEq, Eq)]
pub struct NifiSensitivePropertiesConfig {
    pub key_secret: String,
    pub algorithm: Option<NifiSensitiveKeyAlgorithm>,
    pub auto_generate: bool,
}

/// The contents of a [`NifiSensitivePropertiesConfig`].
#[verifier::ext_equal]
pub struct NifiSensitivePropertiesConfigView {
    pub key_secret: Seq<char>,
    pub algorithm: Option<NifiSensitiveKeyAlgorithm>,
    pub auto_generate: bool,
}

impl DeepView for NifiSensitivePropertiesConfig {
    type V = NifiSensitivePropertiesConfigView;

    open spec fn deep_view(&self) -> NifiSensitivePropertiesConfigView {
        NifiSensitivePropertiesConfigView {
            key_secret: self.key_secret.deep_view(),
            algorithm: self.algorithm.deep_view(),
            auto_generate: self.auto_generate.deep_view(),
        }
    }
}

impl Copied for NifiSensitivePropertiesConfig {
    fn copied(&self) -> (copy: NifiSensitivePropertiesConfig) {
        NifiSensitivePropertiesConfig {
            key_secret: self.key_secret.copied(),
            algorithm: self.algorithm.copied(),
            auto_generate: self.auto_generate,
        }
    }
}

/// The settings of the whole cluster.
#[derive(Debug, PartialEq, Eq)]
pub struct NifiClusterConfig {
    pub authentication: Vec<ClientAuthenticationDetails>,
    pub sensitive_properties: NifiSensitivePropertiesConfig,
    pub vector_aggregator_config_map_name: Option<String>,
    pub zookeeper_config_map_name: String,
    /// Extra volumes to mount into every container. This makes for example client certificates or
    /// keytabs available to processors. They are mounted below `/stackable/userdata/{volumename}`.
    pub extra_volumes: Vec<Volume>,
    pub listener_class: CurrentlySupportedListenerClasses,
}

/// The contents of a [`NifiClusterConfig`].
#[verifier::ext_equal]
pub struct NifiClusterConfigView {
    pub authentication: Seq<ClientAuthenticationDetailsView>,
    pub sensitive_properties: NifiSensitivePropertiesConfigView,
    pub vector_aggregator_config_map_name: Option<Seq<char>>,
    pub zookeeper_config_map_name: Seq<char>,
    pub extra_volumes: Seq<VolumeView>,
    pub listener_class: CurrentlySupportedListenerClasses,
}

impl DeepView for NifiClusterConfig {
    type V = NifiClusterConfigView;

    open spec fn deep_view(&self) -> NifiClusterConfigView {
        NifiClusterConfigView {
            authentication: self.authentication.deep_view(),
            sensitive_properties: self.sensitive_properties.deep_view(),
            vector_aggregator_config_map_name: self.vector_aggregator_config_map_name.deep_view(),
            zookeeper_config_map_name: self.zookeeper_config_map_name.deep_view(),
            extra_volumes: self.extra_volumes.deep_view(),
            listener_class: self.listener_class.deep_view(),
        }
    }
}

impl Copied for NifiClusterConfig {
    fn copied(&self) -> (copy: NifiClusterConfig) {
        NifiClusterConfig {
            authentication: self.authentication.copied(),
            sensitive_properties: self.sensitive_properties.copied(),
            vector_aggregator_config_map_name: self.vector_aggregator_config_map_name.copied(),
            zookeeper_config_map_name: self.zookeeper_config_map_name.copied(),
            extra_volumes: self.extra_volumes.copied(),
            listener_class: self.listener_class.copied(),
        }
    }
}

/// A role group.
#[derive(Debug, PartialEq, Eq)]
pub struct RoleGroup {
    pub replicas: Option<u16>,
    pub config: NifiConfigFragment,
    /// The nodes of Kubernetes to run on, in an outdated form.
    pub selector: Option<LabelSelector>,
}

/// The contents of a [`RoleGroup`].
#[verifier::ext_equal]
pub struct RoleGroupView {
    pub replicas: Option<u16>,
    pub config: NifiConfigFragmentView,
    pub selector: Option<LabelSelectorView>,
}

impl DeepView for RoleGroup {
    type V = RoleGroupView;

    open spec fn deep_view(&self) -> RoleGroupView {
        RoleGroupView {
            replicas: self.replicas.deep_view(),
            config: self.config.deep_view(),
            selector: self.selector.deep_view(),
        }
    }
}

impl Copied for RoleGroup {
    fn copied(&self) -> (copy: RoleGroup) {
        RoleGroup {
            replicas: self.replicas.copied(),
            config: self.config.copied(),
            selector: self.selector.copied(),
        }
    }
}

/// The node role.
#[derive(Debug, PartialEq, Eq)]
pub struct Role {
    pub config: NifiConfigFragment,
    pub role_groups: OrderedMap<RoleGroup>,
}

/// The contents of a [`Role`].
#[verifier::ext_equal]
pub struct RoleView {
    pub config: NifiConfigFragmentView,
    pub role_groups: Map<Seq<char>, RoleGroupView>,
}

impl DeepView for Role {
    type V = RoleView;

    open spec fn deep_view(&self) -> RoleView {
        RoleView {
            config: self.config.deep_view(),
            role_groups: self.role_groups.deep_view(),
        }
    }
}

impl Copied for Role {
    fn copied(&self) -> (copy: Role) {
        Role {
            config: self.config.copied(),
            role_groups: self.role_groups.copied(),
        }
    }
}

/// What the user wants of a cluster.
#[derive(Debug, PartialEq, Eq)]
pub struct NifiSpec {
    pub cluster_config: NifiClusterConfig,
    pub nodes: Option<Role>,
}

/// The contents of a [`NifiSpec`].
#[verifier::ext_equal]
pub struct NifiSpecView {
    pub cluster_config: NifiClusterConfigView,
    pub nodes: Option<RoleView>,
}

impl DeepView for NifiSpec {
    type V = NifiSpecView;

    open spec fn deep_view(&self) -> NifiSpecView {
        NifiSpecView {
            cluster_config: self.cluster_config.deep_view(),
            nodes: self.nodes.deep_view(),
        }
    }
}

impl Copied for NifiSpec {
    fn copied(&self) -> (copy: NifiSpec) {
        NifiSpec {
            cluster_config: self.cluster_config.copied(),
            nodes: self.nodes.copied(),
        }
    }
}

/// A cluster.
#[derive(Debug, PartialEq, Eq)]
pub struct NifiCluster {
    pub metadata: ObjectMeta,
    pub spec: NifiSpec,
}

/// The contents of a [`NifiCluster`].
#[verifier::ext_equal]
pub struct NifiClusterView {
    pub metadata: ObjectMetaView,
    pub spec: NifiSpecView,
}

impl DeepView for NifiCluster {
    type V = NifiClusterView;

    open spec fn deep_view(&self) -> NifiClusterView {
        NifiClusterView {
            metadata: self.metadata.deep_view(),
            spec: self.spec.deep_view(),
        }
    }
}

impl Copied for NifiCluster {
    fn copied(&self) -> (copy: NifiCluster) {
        NifiCluster {
            metadata: self.metadata.copied(),
            spec: self.spec.copied(),
        }
    }
}

/// Reference to a single pod of a cluster, for service discovery.
#[derive(Debug, PartialEq, Eq)]
pub struct PodRef {
    pub namespace: String,
    pub role_group_service_name: String,
    pub pod_name: String,
}

/// The contents of a [`PodRef`].
#[verifier::ext_equal]
pub struct PodRefView {
    pub namespace: Seq<char>,
    pub role_group_service_name: Seq<char>,
    pub pod_name: Seq<char>,
}

impl DeepView for PodRef {
    type V = PodRefView;

    open spec fn deep_view(&self) -> PodRefView {
        PodRefView {
            namespace: self.namespace.deep_view(),
            role_group_service_name: self.role_group_service_name.deep_view(),
            pod_name: self.pod_name.deep_view(),
        }
    }
}

impl Copied for PodRef {
    fn copied(&self) -> (copy: PodRef) {
        PodRef {
            namespace: self.namespace.copied(),
            role_group_service_name: self.role_group_service_name.copied(),
            pod_name: self.pod_name.copied(),
        }
    }
}

impl PodRefView {
    /// The fully qualified domain name of the pod.
    pub open spec fn domain_name(self) -> Seq<char> {
        self.pod_name + "."@ + self.role_group_service_name + "."@ + self.namespace
            + ".svc.cluster.local"@
    }
}

impl PodRef {
    /// The fully qualified domain name of the pod.
    pub fn fqdn(&self) -> (fqdn: String)
        ensures
            fqdn@ == self.deep_view().domain_name(),
    {
        self.pod_name.clone().concat(".").concat(self.role_group_service_name.as_str()).concat(
            ".",
        ).concat(self.namespace.as_str()).concat(".svc.cluster.local")
    }
}

/// The settings that hold where the user gives none.
pub open spec fn default_settings(
    cluster_name: Seq<char>,
    role: NifiRole,
) -> NifiConfigFragmentView {
    NifiConfigFragmentView {
        resources: ResourcesView {
            cpu_min: Some("500m"@),
            cpu_max: Some("4"@),
            memory_limit: Some("2Gi"@),
            storage: NifiStorageConfigView {
                flowfile_repo: PvcConfigView::sized("2Gi"@),
                provenance_repo: PvcConfigView::sized("2Gi"@),
                database_repo: PvcConfigView::sized("2Gi"@),
                content_repo: PvcConfigView::sized("2Gi"@),
                state_repo: PvcConfigView::sized("2Gi"@),
                filebased_repo: PvcConfigView {
                    capacity: None,
                    storage_class: None,
                    selectors: None,
                },
            },
        },
        affinity: affinity::default_affinity(APP_NAME@, cluster_name, role.text()),
        graceful_shutdown_timeout_seconds: None,
        requested_secret_lifetime_seconds: None,
    }
}

/// The settings that hold where the user gives none.
pub fn default_config(cluster_name: &str, role: &NifiRole) -> (config: NifiConfigFragment)
    ensures
        config.deep_view() == default_settings(cluster_name@, *role),
{
    NifiConfigFragment {
        resources: Resources {
            cpu_min: Some("500m".to_owned()),
            cpu_max: Some("4".to_owned()),
            memory_limit: Some("2Gi".to_owned()),
            storage: NifiStorageConfig {
                flowfile_repo: PvcConfig::with_capacity("2Gi"),
                provenance_repo: PvcConfig::with_capacity("2Gi"),
                database_repo: PvcConfig::with_capacity("2Gi"),
                content_repo: PvcConfig::with_capacity("2Gi"),
                state_repo: PvcConfig::with_capacity("2Gi"),
                filebased_repo: PvcConfig {
                    capacity: None,
                    storage_class: None,
                    selectors: None,
                },
            },
        },
        affinity: get_affinity(cluster_name, role),
        graceful_shutdown_timeout_seconds: None,
        requested_secret_lifetime_seconds: None,
    }
}

/// The affinity once an outdated selector is taken over: its labels select nodes, and its
/// expressions are required of them.
pub open spec fn with_legacy_selector(
    affinity: StackableAffinityView,
    selector: LabelSelectorView,
) -> StackableAffinityView {
    StackableAffinityView {
        node_selector: match selector.match_labels {
            Some(labels) => Some(
                (match affinity.node_selector {
                    Some(existing) => existing,
                    None => Map::empty(),
                }).union_prefer_right(labels),
            ),
            None => affinity.node_selector,
        },
        node_affinity: match selector.match_expressions {
            Some(expressions) => Some(
                NodeAffinityView {
                    required_during_scheduling_ignored_during_execution: Some(
                        (match affinity.node_affinity {
                            Some(
                                NodeAffinityView {
                                    required_during_scheduling_ignored_during_execution: Some(
                                        existing,
                                    ),
                                },
                            ) => existing,
                            _ => Seq::empty(),
                        }) + expressions,
                    ),
                },
            ),
            None => affinity.node_affinity,
        },
        ..affinity
    }
}

/// Takes an outdated selector over into an affinity.
pub fn add_legacy_selector(affinity: &StackableAffinity, selector: &LabelSelector) -> (migrated:
    StackableAffinity)
    ensures
        migrated.deep_view() == with_legacy_selector(affinity.deep_view(), selector.deep_view()),
{
    let node_selector: Option<StringMap> = match &selector.match_labels {
        Some(labels) => {
            let mut merged: StringMap = match &affinity.node_selector {
                Some(existing) => existing.copied(),
                None => OrderedMap::new(),
            };
            merged.extend(labels);
            Some(merged)
        },
        None => affinity.node_selector.copied(),
    };
    let node_affinity: Option<NodeAffinity> = match &selector.match_expressions {
        Some(expressions) => {
            let mut required = match &affinity.node_affinity {
                Some(
                    NodeAffinity {
                        required_during_scheduling_ignored_during_execution: Some(existing),
                    },
                ) => existing.copied(),
                _ => empty_list(),
            };
            add_items(&mut required, expressions.copied());
            Some(
                NodeAffinity {
                    required_during_scheduling_ignored_during_execution: Some(required),
                },
            )
        },
        None => affinity.node_affinity.copied(),
    };
    StackableAffinity {
        pod_affinity: affinity.pod_affinity.copied(),
        pod_anti_affinity: affinity.pod_anti_affinity.copied(),
        node_affinity,
        node_selector,
    }
}

/// The references to the pods of a role group.
pub open spec fn group_pods(
    namespace: Seq<char>,
    object_name: Seq<char>,
    replicas: nat,
) -> Seq<PodRefView> {
    Seq::new(
        replicas,
        |i: int|
            PodRefView {
                namespace,
                role_group_service_name: object_name,
                pod_name: object_name + "-"@ + text::decimal(i as nat),
            },
    )
}

/// The number of pods of a role group.
pub open spec fn pod_count(group: RoleGroupView) -> nat {
    match group.replicas {
        Some(replicas) => replicas as nat,
        None => 0,
    }
}

impl NifiClusterView {
    /// The name of the cluster, empty where it has none.
    pub open spec fn name_or_empty(self) -> Seq<char> {
        match self.metadata.name {
            Some(name) => name,
            None => Seq::empty(),
        }
    }

    /// The reference to a role group.
    pub open spec fn group_ref(self, role_group: Seq<char>) -> RoleGroupRefView {
        RoleGroupRefView {
            cluster: self.name_or_empty(),
            role: NifiRole::Node.text(),
            role_group,
        }
    }

    /// The references to the pods of some role groups, in their order.
    pub open spec fn pods_of(
        self,
        namespace: Seq<char>,
        groups: Seq<(Seq<char>, RoleGroupView)>,
    ) -> Seq<PodRefView>
        decreases groups.len(),
    {
        if groups.len() == 0 {
            Seq::empty()
        } else {
            self.pods_of(namespace, groups.drop_last()) + group_pods(
                namespace,
                self.group_ref(groups.last().0).name(),
                pod_count(groups.last().1),
            )
        }
    }

    /// The role groups, in the order of their names.
    pub open spec fn groups(self) -> Seq<(Seq<char>, RoleGroupView)> {
        match self.spec.nodes {
            Some(role) => ordered_map::ordered_entries(role.role_groups),
            None => Seq::empty(),
        }
    }

    /// The settings that the user gave a role group.
    pub open spec fn group_settings(self, role_group: Seq<char>) -> NifiConfigFragmentView {
        let groups = self.spec.nodes.unwrap().role_groups;
        if groups.dom().contains(role_group) {
            let group = groups[role_group];
            match group.selector {
                Some(selector) => NifiConfigFragmentView {
                    affinity: with_legacy_selector(group.config.affinity, selector),
                    ..group.config
                },
                None => group.config,
            }
        } else {
            NifiConfigFragmentView::nothing()
        }
    }

    /// The settings of a role group: its own, then those of the role, then the defaults.
    pub open spec fn merged_settings(
        self,
        role: NifiRole,
        role_group: Seq<char>,
    ) -> NifiConfigFragmentView {
        self.group_settings(role_group).over(
            self.spec.nodes.unwrap().config.over(default_settings(self.name_or_empty(), role)),
        )
    }
}

impl NifiCluster {
    /// The name of the cluster, empty where it has none.
    pub fn name_any(&self) -> (name: String)
        ensures
            name@ == self.deep_view().name_or_empty(),
    {
        match &self.metadata.name {
            Some(name) => name.copied(),
            None => {
                let name = String::new();
                proof {
                    assert(name@ =~= Seq::empty());
                }
                name
            },
        }
    }

    /// The name of the Service of the role.
    pub fn node_role_service_name(&self) -> (name: Option<String>)
        ensures
            name.deep_view() == self.deep_view().metadata.name,
    {
        self.metadata.name.copied()
    }

    /// The fully qualified domain name of the Service of the role.
    pub fn node_role_service_fqdn(&self) -> (fqdn: Option<String>)
        ensures
            fqdn.deep_view() == (match (
                self.deep_view().metadata.name,
                self.deep_view().metadata.namespace,
            ) {
                (Some(name), Some(namespace)) => Some(
                    name + "."@ + namespace + ".svc.cluster.local"@,
                ),
                _ => None,
            }),
    {
        match (self.node_role_service_name(), &self.metadata.namespace) {
            (Some(name), Some(namespace)) => Some(
                concat4(name.as_str(), ".", namespace.as_str(), ".svc.cluster.local"),
            ),
            _ => None,
        }
    }

    /// The reference to a role group.
    pub fn node_rolegroup_ref(&self, group_name: &str) -> (reference: RoleGroupRef)
        ensures
            reference.deep_view() == self.deep_view().group_ref(group_name@),
    {
        RoleGroupRef {
            cluster: self.name_any(),
            role: NifiRole::Node.as_str().to_owned(),
            role_group: group_name.to_owned(),
        }
    }

    /// Appends the references to the pods of a role group.
    fn add_group_pods(
        pods: &mut Vec<PodRef>,
        namespace: &str,
        object_name: &str,
        replicas: u16,
    )
        ensures
            final(pods).deep_view() == old(pods).deep_view() + group_pods(
                namespace@,
                object_name@,
                replicas as nat,
            ),
    {
        let ghost before = pods.deep_view();
        let ghost all = group_pods(namespace@, object_name@, replicas as nat);
        let mut i: u16 = 0;
        proof {
            assert(before + all.take(0) =~= before);
        }
        while i < replicas
            invariant
                i <= replicas,
                all == group_pods(namespace@, object_name@, replicas as nat),
                pods.deep_view() == before + all.take(i as int),
            decreases replicas - i,
        {
            let number = number_text(i as u64);
            add_item(
                pods,
                PodRef {
                    namespace: namespace.to_owned(),
                    role_group_service_name: object_name.to_owned(),
                    pod_name: concat3(object_name, "-", number.as_str()),
                },
            );
            proof {
                assert((before + all.take(i as int)).push(all[i as int]) =~= before + all.take(
                    i + 1,
                ));
            }
            i = i + 1;
        }
        proof {
            assert(all.take(i as int) =~= all);
        }
    }

    /// All pods that are expected to form the cluster.
    ///
    /// They are predicted rather than looked up, so that they do not change as pods come and go.
    /// Role groups come in the order of their names, so that the list does not change needlessly.
    pub fn pods(&self) -> (result: Result<Vec<PodRef>, Error>)
        ensures
            match result {
                Ok(pods) => self.deep_view().metadata.namespace.is_some() && pods.deep_view()
                    == self.deep_view().pods_of(
                    self.deep_view().metadata.namespace.unwrap(),
                    self.deep_view().groups(),
                ),
                Err(error) => self.deep_view().metadata.namespace.is_none() && error.deep_view()
                    == ErrorView::NoNamespace,
            },
    {
        let namespace = match &self.metadata.namespace {
            Some(namespace) => namespace,
            None => {
                return Err(Error::NoNamespace);
            },
        };
        let ghost model = self.deep_view();
        let ghost groups = model.groups();
        let mut pods: Vec<PodRef> = empty_list();
        let role = match &self.spec.nodes {
            Some(role) => role,
            None => {
                return Ok(pods);
            },
        };
        let count: usize = role.role_groups.len();
        let mut i: usize = 0;
        proof {
            assert(groups.take(0) =~= Seq::empty());
        }
        while i < count
            invariant
                i <= count,
                count == groups.len(),
                model == self.deep_view(),
                groups == ordered_map::ordered_entries(role.role_groups@),
                pods.deep_view() == model.pods_of(namespace@, groups.take(i as int)),
            decreases count - i,
        {
            let (name, group) = role.role_groups.entry(i);
            let object_name = self.node_rolegroup_ref(name.as_str()).object_name();
            let replicas: u16 = match group.replicas {
                Some(replicas) => replicas,
                None => 0,
            };
            Self::add_group_pods(&mut pods, namespace.as_str(), object_name.as_str(), replicas);
            proof {
                let next = groups.take(i + 1);
                assert(next.drop_last() =~= groups.take(i as int));
                assert(next.last() == groups[i as int]);
            }
            i = i + 1;
        }
        proof {
            assert(groups.take(i as int) =~= groups);
        }
        Ok(pods)
    }

    /// The merged settings of a role group. More specific settings win: those of the role group,
    /// then those of the role, then the defaults.
    pub fn merged_config(
        &self,
        role: &NifiRole,
        role_group: &str,
        logging: &LoggingFragment,
    ) -> (result: Result<NifiConfig, Error>)
        ensures
            match result {
                Ok(config) => self.deep_view().spec.nodes.is_some()
                    && logging.enable_vector_agent.is_some() && config.deep_view()
                    == crd::complete_settings(
                    self.deep_view().merged_settings(*role, role_group@),
                    logging.deep_view(),
                ),
                Err(error) => if self.deep_view().spec.nodes.is_none() {
                    error.deep_view() == (ErrorView::MissingNifiRole { role: role.text() })
                } else {
                    logging.enable_vector_agent.is_none() && error.deep_view()
                        == ErrorView::FragmentValidationFailure
                },
            },
    {
        let name = self.name_any();
        let conf_defaults = default_config(name.as_str(), role);
        let nodes = match &self.spec.nodes {
            Some(nodes) => nodes,
            None => {
                return Err(Error::MissingNifiRole { role: role.as_str().to_owned() });
            },
        };
        let conf_role = nodes.config.merge(&conf_defaults);
        let conf_rolegroup = match nodes.role_groups.get(role_group) {
            Some(group) => match &group.selector {
                Some(selector) => NifiConfigFragment {
                    resources: group.config.resources.copied(),
                    affinity: add_legacy_selector(&group.config.affinity, selector),
                    graceful_shutdown_timeout_seconds:
                        group.config.graceful_shutdown_timeout_seconds,
                    requested_secret_lifetime_seconds:
                        group.config.requested_secret_lifetime_seconds,
                },
                None => group.config.copied(),
            },
            None => NifiConfigFragment::default(),
        };
        let merged = conf_rolegroup.merge(&conf_role);
        match logging.enable_vector_agent {
            Some(enable_vector_agent) => Ok(
                NifiConfig {
                    logging: Logging {
                        enable_vector_agent,
                        containers: logging.containers.copied(),
                    },
                    resources: merged.resources,
                    affinity: merged.affinity,
                    graceful_shutdown_timeout_seconds: merged.graceful_shutdown_timeout_seconds,
                    requested_secret_lifetime_seconds: merged.requested_secret_lifetime_seconds,
                },
            ),
            None => Err(Error::FragmentValidationFailure),
        }
    }
}

/// The number of pods of some role groups.
pub open spec fn total_pods(groups: Seq<(Seq<char>, RoleGroupView)>) -> nat
    decreases groups.len(),
{
    if groups.len() == 0 {
        0
    } else {
        total_pods(groups.drop_last()) + pod_count(groups.last().1)
    }
}

/// The cluster is formed by as many pods as its role groups ask for.
pub proof fn law_pod_count(
    nifi: NifiClusterView,
    namespace: Seq<char>,
    groups: Seq<(Seq<char>, RoleGroupView)>,
)
    ensures
        nifi.pods_of(namespace, groups).len() == total_pods(groups),
    decreases groups.len(),
{
    if groups.len() > 0 {
        law_pod_count(nifi, namespace, groups.drop_last());
    }
}

/// The digits of a number hold no hyphen.
proof fn lemma_decimal_has_no_hyphen(n: nat)
    ensures
        !text::decimal(n).contains('-'),
    decreases n,
{
    if n >= 10 {
        lemma_decimal_has_no_hyphen(n / 10);
    }
    assert forall|i: int| 0 <= i < text::decimal(n).len() implies text::decimal(n)[i] != '-' by {
        if n >= 10 && i < text::decimal(n).len() - 1 {
            assert(text::decimal(n)[i] == text::decimal(n / 10)[i]);
        }
    }
}

/// Different numbers have different digits.
proof fn lemma_decimal_is_injective(a: nat, b: nat)
    requires
        text::decimal(a) == text::decimal(b),
    ensures
        a == b,
    decreases a,
{
    let x = text::decimal(a);
    let y = text::decimal(b);
    if a >= 10 {
        lemma_decimal_is_not_empty(a / 10);
    }
    if b >= 10 {
        lemma_decimal_is_not_empty(b / 10);
    }
    assert(x.last() == text::digit(a % 10));
    assert(y.last() == text::digit(b % 10));
    assert(a % 10 == b % 10);
    if a >= 10 && b >= 10 {
        assert(x.drop_last() =~= text::decimal(a / 10));
        assert(y.drop_last() =~= text::decimal(b / 10));
        lemma_decimal_is_injective(a / 10, b / 10);
    }
}

/// Every number has a digit.
proof fn lemma_decimal_is_not_empty(n: nat)
    ensures
        text::decimal(n).len() > 0,
{
}

/// A name and a number without hyphens, joined by a hyphen, can be told apart again.
proof fn lemma_split_at_last_hyphen(
    name_1: Seq<char>,
    number_1: Seq<char>,
    name_2: Seq<char>,
    number_2: Seq<char>,
)
    requires
        name_1 + "-"@ + number_1 == name_2 + "-"@ + number_2,
        !number_1.contains('-'),
        !number_2.contains('-'),
    ensures
        name_1 == name_2,
        number_1 == number_2,
{
    reveal_strlit("-");
    let whole_1 = name_1 + "-"@ + number_1;
    let whole_2 = name_2 + "-"@ + number_2;
    assert("-"@.len() == 1);
    assert(whole_1.len() == name_1.len() + 1 + number_1.len());
    assert(whole_2.len() == name_2.len() + 1 + number_2.len());
    assert(whole_1[name_1.len() as int] == '-');
    assert(whole_2[name_2.len() as int] == '-');
    if name_1.len() < name_2.len() {
        let at = name_2.len() - name_1.len() - 1;
        assert(number_1[at] == whole_1[name_2.len() as int]);
        assert(number_1.contains('-'));
    }
    if name_2.len() < name_1.len() {
        let at = name_1.len() - name_2.len() - 1;
        assert(number_2[at] == whole_2[name_1.len() as int]);
        assert(number_2.contains('-'));
    }
    assert(name_1 =~= whole_1.take(name_1.len() as int));
    assert(name_2 =~= whole_2.take(name_2.len() as int));
    assert(number_1 =~= whole_1.skip(name_1.len() as int + 1));
    assert(number_2 =~= whole_2.skip(name_2.len() as int + 1));
}

/// The names of objects of different role groups differ.
proof fn lemma_group_names_differ(nifi: NifiClusterView, a: Seq<char>, b: Seq<char>)
    requires
        nifi.group_ref(a).name() == nifi.group_ref(b).name(),
    ensures
        a == b,
{
    let prefix = nifi.name_or_empty() + "-"@ + NifiRole::Node.text() + "-"@;
    assert(nifi.group_ref(a).name() =~= prefix + a);
    assert(nifi.group_ref(b).name() =~= prefix + b);
    assert(a =~= (prefix + a).skip(prefix.len() as int));
    assert(b =~= (prefix + b).skip(prefix.len() as int));
}

/// Every pod is one of a role group, with a number.
proof fn lemma_pod_of_group(
    nifi: NifiClusterView,
    namespace: Seq<char>,
    groups: Seq<(Seq<char>, RoleGroupView)>,
    at: int,
) -> (place: (int, nat))
    requires
        0 <= at < nifi.pods_of(namespace, groups).len(),
    ensures
        0 <= place.0 < groups.len(),
        place.1 < pod_count(groups[place.0].1),
        at == total_pods(groups.take(place.0)) + place.1,
        nifi.pods_of(namespace, groups)[at].pod_name == nifi.group_ref(groups[place.0].0).name()
            + "-"@ + text::decimal(place.1),
    decreases groups.len(),
{
    let front = groups.drop_last();
    let before = nifi.pods_of(namespace, front);
    law_pod_count(nifi, namespace, front);
    if at < before.len() {
        let place = lemma_pod_of_group(nifi, namespace, front, at);
        assert(front.take(place.0) =~= groups.take(place.0));
        place
    } else {
        assert(groups.take(groups.len() - 1) =~= front);
        (groups.len() - 1, (at - before.len()) as nat)
    }
}

/// No two pods of a cluster have the same name.
pub proof fn law_pods_have_distinct_names(
    nifi: NifiClusterView,
    namespace: Seq<char>,
    i: int,
    j: int,
)
    requires
        nifi.spec.nodes.is_some() ==> nifi.spec.nodes.unwrap().role_groups.dom().finite(),
        0 <= i < j < nifi.pods_of(namespace, nifi.groups()).len(),
    ensures
        nifi.pods_of(namespace, nifi.groups())[i].pod_name != nifi.pods_of(
            namespace,
            nifi.groups(),
        )[j].pod_name,
{
    let groups = nifi.groups();
    let pods = nifi.pods_of(namespace, groups);
    let (group_i, number_i) = lemma_pod_of_group(nifi, namespace, groups, i);
    let (group_j, number_j) = lemma_pod_of_group(nifi, namespace, groups, j);
    if pods[i].pod_name == pods[j].pod_name {
        lemma_decimal_has_no_hyphen(number_i);
        lemma_decimal_has_no_hyphen(number_j);
        lemma_split_at_last_hyphen(
            nifi.group_ref(groups[group_i].0).name(),
            text::decimal(number_i),
            nifi.group_ref(groups[group_j].0).name(),
            text::decimal(number_j),
        );
        lemma_decimal_is_injective(number_i, number_j);
        lemma_group_names_differ(nifi, groups[group_i].0, groups[group_j].0);
        ordered_map::lemma_entries_in_order(nifi.spec.nodes.unwrap().role_groups);
        if group_i < group_j {
            assert(text::lex_less(groups[group_i].0, groups[group_j].0));
            text::lemma_lex_irreflexive(groups[group_i].0);
        }
        if group_j < group_i {
            assert(text::lex_less(groups[group_j].0, groups[group_i].0));
            text::lemma_lex_irreflexive(groups[group_j].0);
        }
        assert(false);
    }
}

} // verus!
