//! The cluster as the operator works with it, once everything it refers to has been looked up and
//! checked.

use crate::contents::Copied;
use crate::crd::sensitive_properties::NifiSensitiveKeyAlgorithm;
use crate::crd::{
    CreateReportingTaskJob, CreateReportingTaskJobView, HostHeaderCheckConfig,
    HostHeaderCheckConfigView, NifiClusteringBackend, NifiClusteringBackendView, NifiConfig,
    NifiRole, PdbConfig, PdbConfigView, Resources, ResourcesView, APP_NAME,
};
use crate::kubernetes::{
    ConfigMap, ConfigMapView, Listener, ListenerView, ObjectMeta, ObjectMetaView, OwnerReference,
    OwnerReferenceView, PodContainer, PodContainerView, PodDisruptionBudget,
    PodDisruptionBudgetView, RoleBinding, RoleBindingView, Secret, SecretView, Service,
    ServiceAccount, ServiceAccountView, ServiceView, StackableAffinity, StackableAffinityView,
    StatefulSet, StatefulSetView, Volume, VolumeMount, VolumeMountView, VolumeView,
};
use crate::list::{empty_list, list_of};
use crate::ordered_map::{OrderedMap, StringMap};
use crate::security::authentication::{NifiAuthenticationConfig, NifiAuthenticationConfigView};
use crate::security::authorization::{
    ResolvedNifiAuthorizationConfig, ResolvedNifiAuthorizationConfigView,
};
use crate::text::{concat2, concat5};
use vstd::prelude::*;

pub mod build;
pub mod decisions;
pub mod dereference;
pub mod reconcile;
pub mod rolegroup;
pub mod rolegroup_contents;
pub mod rollout;
pub mod rollout_course;
pub mod validate;

verus! {

/// The name of the operator.
pub const OPERATOR_NAME: &'static str = "nifi.stackable.tech";

/// The name of the controller.
pub const NIFI_CONTROLLER_NAME: &'static str = "nificluster";

/// What the version label says of objects whose labels must not change after deployment.
pub const UNVERSIONED_PRODUCT_VERSION: &'static str = "none";

/// What a label says where there is no role or role group.
pub const NO_ROLE_OR_GROUP: &'static str = "none";

/// Every Kubernetes object of a cluster.
#[derive(Debug, PartialEq, Eq)]
pub struct KubernetesResources {
    pub stateful_sets: Vec<StatefulSet>,
    pub services: Vec<Service>,
    pub listeners: Vec<Listener>,
    pub config_maps: Vec<ConfigMap>,
    pub secrets: Vec<Secret>,
    pub pod_disruption_budgets: Vec<PodDisruptionBudget>,
    pub service_accounts: Vec<ServiceAccount>,
    pub role_bindings: Vec<RoleBinding>,
}

/// The contents of a [`KubernetesResources`].
#[verifier::ext_equal]
pub struct KubernetesResourcesView {
    pub stateful_sets: Seq<StatefulSetView>,
    pub services: Seq<ServiceView>,
    pub listeners: Seq<ListenerView>,
    pub config_maps: Seq<ConfigMapView>,
    pub secrets: Seq<SecretView>,
    pub pod_disruption_budgets: Seq<PodDisruptionBudgetView>,
    pub service_accounts: Seq<ServiceAccountView>,
    pub role_bindings: Seq<RoleBindingView>,
}

impl DeepView for KubernetesResources {
    type V = KubernetesResourcesView;

    open spec fn deep_view(&self) -> KubernetesResourcesView {
        KubernetesResourcesView {
            stateful_sets: self.stateful_sets.deep_view(),
            services: self.services.deep_view(),
            listeners: self.listeners.deep_view(),
            config_maps: self.config_maps.deep_view(),
            secrets: self.secrets.deep_view(),
            pod_disruption_budgets: self.pod_disruption_budgets.deep_view(),
            service_accounts: self.service_accounts.deep_view(),
            role_bindings: self.role_bindings.deep_view(),
        }
    }
}

/// The product image.
#[derive(Debug, PartialEq, Eq)]
pub struct ResolvedProductImage {
    pub product_version: String,
    /// The version as a label value.
    pub app_version_label_value: String,
    pub image: String,
    pub image_pull_policy: String,
    pub pull_secrets: Vec<String>,
}

/// The contents of a [`ResolvedProductImage`].
#[verifier::ext_equal]
pub struct ResolvedProductImageView {
    pub product_version: Seq<char>,
    pub app_version_label_value: Seq<char>,
    pub image: Seq<char>,
    pub image_pull_policy: Seq<char>,
    pub pull_secrets: Seq<Seq<char>>,
}

impl DeepView for ResolvedProductImage {
    type V = ResolvedProductImageView;

    open spec fn deep_view(&self) -> ResolvedProductImageView {
        ResolvedProductImageView {
            product_version: self.product_version.deep_view(),
            app_version_label_value: self.app_version_label_value.deep_view(),
            image: self.image.deep_view(),
            image_pull_policy: self.image_pull_policy.deep_view(),
            pull_secrets: self.pull_secrets.deep_view(),
        }
    }
}

impl Copied for ResolvedProductImage {
    fn copied(&self) -> (copy: ResolvedProductImage) {
        ResolvedProductImage {
            product_version: self.product_version.copied(),
            app_version_label_value: self.app_version_label_value.copied(),
            image: self.image.copied(),
            image_pull_policy: self.image_pull_policy.copied(),
            pull_secrets: self.pull_secrets.copied(),
        }
    }
}

/// Where the log configuration of a container comes from.
#[derive(Debug, PartialEq, Eq)]
pub enum ValidatedContainerLogConfigChoice {
    /// The operator writes the log configuration.
    Automatic {
        /// Log levels and appenders, as written in a manifest.
        config: String,
    },
    /// A ConfigMap of the user holds the log configuration.
    Custom {
        config_map: String,
    },
}

/// The contents of a [`ValidatedContainerLogConfigChoice`].
#[verifier::ext_equal]
pub enum ValidatedContainerLogConfigChoiceView {
    Automatic { config: Seq<char> },
    Custom { config_map: Seq<char> },
}

impl DeepView for ValidatedContainerLogConfigChoice {
    type V = ValidatedContainerLogConfigChoiceView;

    open spec fn deep_view(&self) -> ValidatedContainerLogConfigChoiceView {
        match self {
            ValidatedContainerLogConfigChoice::Automatic { config } =>
                ValidatedContainerLogConfigChoiceView::Automatic {
                    config: config.deep_view(),
                },
            ValidatedContainerLogConfigChoice::Custom { config_map } =>
                ValidatedContainerLogConfigChoiceView::Custom {
                    config_map: config_map.deep_view(),
                },
        }
    }
}

impl Copied for ValidatedContainerLogConfigChoice {
    fn copied(&self) -> (copy: ValidatedContainerLogConfigChoice) {
        match self {
            ValidatedContainerLogConfigChoice::Automatic { config } =>
                ValidatedContainerLogConfigChoice::Automatic {
                    config: config.copied(),
                },
            ValidatedContainerLogConfigChoice::Custom { config_map } =>
                ValidatedContainerLogConfigChoice::Custom {
                    config_map: config_map.copied(),
                },
        }
    }
}

/// The log configuration of the Vector agent, and where it sends logs.
#[derive(Debug, PartialEq, Eq)]
pub struct VectorContainerLogConfig {
    pub log_config: ValidatedContainerLogConfigChoice,
    pub vector_aggregator_config_map_name: String,
}

/// The contents of a [`VectorContainerLogConfig`].
#[verifier::ext_equal]
pub struct VectorContainerLogConfigView {
    pub log_config: ValidatedContainerLogConfigChoiceView,
    pub vector_aggregator_config_map_name: Seq<char>,
}

impl DeepView for VectorContainerLogConfig {
    type V = VectorContainerLogConfigView;

    open spec fn deep_view(&self) -> VectorContainerLogConfigView {
        VectorContainerLogConfigView {
            log_config: self.log_config.deep_view(),
            vector_aggregator_config_map_name: self.vector_aggregator_config_map_name.deep_view(),
        }
    }
}

impl Copied for VectorContainerLogConfig {
    fn copied(&self) -> (copy: VectorContainerLogConfig) {
        VectorContainerLogConfig {
            log_config: self.log_config.copied(),
            vector_aggregator_config_map_name: self.vector_aggregator_config_map_name.copied(),
        }
    }
}

/// The logging settings of a role group.
#[derive(Debug, PartialEq, Eq)]
pub struct ValidatedLogging {
    pub nifi_container: ValidatedContainerLogConfigChoice,
    pub prepare_container: ValidatedContainerLogConfigChoice,
    /// Only where the Vector agent is enabled.
    pub vector_container: Option<VectorContainerLogConfig>,
    pub enable_vector_agent: bool,
}

/// The contents of a [`ValidatedLogging`].
#[verifier::ext_equal]
pub struct ValidatedLoggingView {
    pub nifi_container: ValidatedContainerLogConfigChoiceView,
    pub prepare_container: ValidatedContainerLogConfigChoiceView,
    pub vector_container: Option<VectorContainerLogConfigView>,
    pub enable_vector_agent: bool,
}

impl DeepView for ValidatedLogging {
    type V = ValidatedLoggingView;

    open spec fn deep_view(&self) -> ValidatedLoggingView {
        ValidatedLoggingView {
            nifi_container: self.nifi_container.deep_view(),
            prepare_container: self.prepare_container.deep_view(),
            vector_container: self.vector_container.deep_view(),
            enable_vector_agent: self.enable_vector_agent.deep_view(),
        }
    }
}

impl Copied for ValidatedLogging {
    fn copied(&self) -> (copy: ValidatedLogging) {
        ValidatedLogging {
            nifi_container: self.nifi_container.copied(),
            prepare_container: self.prepare_container.copied(),
            vector_container: self.vector_container.copied(),
            enable_vector_agent: self.enable_vector_agent,
        }
    }
}

/// What a pod needs to follow git repositories with custom components.
#[derive(Debug, PartialEq, Eq)]
pub struct GitSyncResources {
    /// The directories with the synchronised contents.
    pub git_content_folders: Vec<String>,
    pub git_sync_containers: Vec<PodContainer>,
    pub git_sync_init_containers: Vec<PodContainer>,
    pub git_content_volume_mounts: Vec<VolumeMount>,
    pub git_content_volumes: Vec<Volume>,
    pub git_ca_cert_volumes: Vec<Volume>,
}

/// The contents of a [`GitSyncResources`].
#[verifier::ext_equal]
pub struct GitSyncResourcesView {
    pub git_content_folders: Seq<Seq<char>>,
    pub git_sync_containers: Seq<PodContainerView>,
    pub git_sync_init_containers: Seq<PodContainerView>,
    pub git_content_volume_mounts: Seq<VolumeMountView>,
    pub git_content_volumes: Seq<VolumeView>,
    pub git_ca_cert_volumes: Seq<VolumeView>,
}

impl DeepView for GitSyncResources {
    type V = GitSyncResourcesView;

    open spec fn deep_view(&self) -> GitSyncResourcesView {
        GitSyncResourcesView {
            git_content_folders: self.git_content_folders.deep_view(),
            git_sync_containers: self.git_sync_containers.deep_view(),
            git_sync_init_containers: self.git_sync_init_containers.deep_view(),
            git_content_volume_mounts: self.git_content_volume_mounts.deep_view(),
            git_content_volumes: self.git_content_volumes.deep_view(),
            git_ca_cert_volumes: self.git_ca_cert_volumes.deep_view(),
        }
    }
}

impl Copied for GitSyncResources {
    fn copied(&self) -> (copy: GitSyncResources) {
        GitSyncResources {
            git_content_folders: self.git_content_folders.copied(),
            git_sync_containers: self.git_sync_containers.copied(),
            git_sync_init_containers: self.git_sync_init_containers.copied(),
            git_content_volume_mounts: self.git_content_volume_mounts.copied(),
            git_content_volumes: self.git_content_volumes.copied(),
            git_ca_cert_volumes: self.git_ca_cert_volumes.copied(),
        }
    }
}

/// The settings of a role group.
#[derive(Debug, PartialEq, Eq)]
pub struct ValidatedNifiConfig {
    pub resources: Resources,
    pub affinity: StackableAffinity,
    /// The time that pods have to shut down.
    pub graceful_shutdown_timeout_seconds: Option<u64>,
    /// The lifetime of certificates.
    pub requested_secret_lifetime_seconds: Option<u64>,
    pub logging: ValidatedLogging,
    pub git_sync_resources: GitSyncResources,
}

/// The contents of a [`ValidatedNifiConfig`].
#[verifier::ext_equal]
pub struct ValidatedNifiConfigView {
    pub resources: ResourcesView,
    pub affinity: StackableAffinityView,
    pub graceful_shutdown_timeout_seconds: Option<u64>,
    pub requested_secret_lifetime_seconds: Option<u64>,
    pub logging: ValidatedLoggingView,
    pub git_sync_resources: GitSyncResourcesView,
}

impl DeepView for ValidatedNifiConfig {
    type V = ValidatedNifiConfigView;

    open spec fn deep_view(&self) -> ValidatedNifiConfigView {
        ValidatedNifiConfigView {
            resources: self.resources.deep_view(),
            affinity: self.affinity.deep_view(),
            graceful_shutdown_timeout_seconds: self.graceful_shutdown_timeout_seconds.deep_view(),
            requested_secret_lifetime_seconds: self.requested_secret_lifetime_seconds.deep_view(),
            logging: self.logging.deep_view(),
            git_sync_resources: self.git_sync_resources.deep_view(),
        }
    }
}

impl Copied for ValidatedNifiConfig {
    fn copied(&self) -> (copy: ValidatedNifiConfig) {
        ValidatedNifiConfig {
            resources: self.resources.copied(),
            affinity: self.affinity.copied(),
            graceful_shutdown_timeout_seconds: self.graceful_shutdown_timeout_seconds.copied(),
            requested_secret_lifetime_seconds: self.requested_secret_lifetime_seconds.copied(),
            logging: self.logging.copied(),
            git_sync_resources: self.git_sync_resources.copied(),
        }
    }
}

/// What the user writes into the configuration files.
#[derive(Debug, PartialEq, Eq)]
pub struct NifiConfigOverrides {
    pub bootstrap_conf: StringMap,
    pub nifi_properties: StringMap,
    pub security_properties: StringMap,
}

/// The contents of a [`NifiConfigOverrides`].
#[verifier::ext_equal]
pub struct NifiConfigOverridesView {
    pub bootstrap_conf: Map<Seq<char>, Seq<char>>,
    pub nifi_properties: Map<Seq<char>, Seq<char>>,
    pub security_properties: Map<Seq<char>, Seq<char>>,
}

impl DeepView for NifiConfigOverrides {
    type V = NifiConfigOverridesView;

    open spec fn deep_view(&self) -> NifiConfigOverridesView {
        NifiConfigOverridesView {
            bootstrap_conf: self.bootstrap_conf.deep_view(),
            nifi_properties: self.nifi_properties.deep_view(),
            security_properties: self.security_properties.deep_view(),
        }
    }
}

impl Copied for NifiConfigOverrides {
    fn copied(&self) -> (copy: NifiConfigOverrides) {
        NifiConfigOverrides {
            bootstrap_conf: self.bootstrap_conf.copied(),
            nifi_properties: self.nifi_properties.copied(),
            security_properties: self.security_properties.copied(),
        }
    }
}

/// A role group: defaults, role and role group merged.
#[derive(Debug, PartialEq, Eq)]
pub struct NifiRoleGroupConfig {
    pub replicas: Option<u16>,
    pub config: ValidatedNifiConfig,
    pub config_overrides: NifiConfigOverrides,
    pub env_overrides: StringMap,
    /// As written in a manifest.
    pub pod_overrides: String,
}

/// The contents of a [`NifiRoleGroupConfig`].
#[verifier::ext_equal]
pub struct NifiRoleGroupConfigView {
    pub replicas: Option<u16>,
    pub config: ValidatedNifiConfigView,
    pub config_overrides: NifiConfigOverridesView,
    pub env_overrides: Map<Seq<char>, Seq<char>>,
    pub pod_overrides: Seq<char>,
}

impl DeepView for NifiRoleGroupConfig {
    type V = NifiRoleGroupConfigView;

    open spec fn deep_view(&self) -> NifiRoleGroupConfigView {
        NifiRoleGroupConfigView {
            replicas: self.replicas.deep_view(),
            config: self.config.deep_view(),
            config_overrides: self.config_overrides.deep_view(),
            env_overrides: self.env_overrides.deep_view(),
            pod_overrides: self.pod_overrides.deep_view(),
        }
    }
}

impl Copied for NifiRoleGroupConfig {
    fn copied(&self) -> (copy: NifiRoleGroupConfig) {
        NifiRoleGroupConfig {
            replicas: self.replicas.copied(),
            config: self.config.copied(),
            config_overrides: self.config_overrides.copied(),
            env_overrides: self.env_overrides.copied(),
            pod_overrides: self.pod_overrides.copied(),
        }
    }
}

/// The settings of the role as a whole.
#[derive(Debug, PartialEq, Eq)]
pub struct ValidatedRoleConfig {
    pub pdb: PdbConfig,
    pub listener_class: String,
}

/// The contents of a [`ValidatedRoleConfig`].
#[verifier::ext_equal]
pub struct ValidatedRoleConfigView {
    pub pdb: PdbConfigView,
    pub listener_class: Seq<char>,
}

impl DeepView for ValidatedRoleConfig {
    type V = ValidatedRoleConfigView;

    open spec fn deep_view(&self) -> ValidatedRoleConfigView {
        ValidatedRoleConfigView {
            pdb: self.pdb.deep_view(),
            listener_class: self.listener_class.deep_view(),
        }
    }
}

impl Copied for ValidatedRoleConfig {
    fn copied(&self) -> (copy: ValidatedRoleConfig) {
        ValidatedRoleConfig {
            pdb: self.pdb.copied(),
            listener_class: self.listener_class.copied(),
        }
    }
}

/// How sensitive properties are encrypted.
#[derive(Debug, PartialEq, Eq)]
pub struct ValidatedSensitiveProperties {
    pub algorithm: NifiSensitiveKeyAlgorithm,
    /// The Secret that holds the key.
    pub key_secret: String,
    /// Whether to generate the Secret if it is missing.
    pub auto_generate: bool,
}

/// The contents of a [`ValidatedSensitiveProperties`].
#[verifier::ext_equal]
pub struct ValidatedSensitivePropertiesView {
    pub algorithm: NifiSensitiveKeyAlgorithm,
    pub key_secret: Seq<char>,
    pub auto_generate: bool,
}

impl DeepView for ValidatedSensitiveProperties {
    type V = ValidatedSensitivePropertiesView;

    open spec fn deep_view(&self) -> ValidatedSensitivePropertiesView {
        ValidatedSensitivePropertiesView {
            algorithm: self.algorithm.deep_view(),
            key_secret: self.key_secret.deep_view(),
            auto_generate: self.auto_generate.deep_view(),
        }
    }
}

impl Copied for ValidatedSensitiveProperties {
    fn copied(&self) -> (copy: ValidatedSensitiveProperties) {
        ValidatedSensitiveProperties {
            algorithm: self.algorithm.copied(),
            key_secret: self.key_secret.copied(),
            auto_generate: self.auto_generate,
        }
    }
}

/// The settings that affect the whole cluster.
#[derive(Debug, PartialEq, Eq)]
pub struct ValidatedClusterConfig {
    pub authentication: NifiAuthenticationConfig,
    pub authorization: ResolvedNifiAuthorizationConfig,
    pub clustering_backend: NifiClusteringBackend,
    pub host_header_check: HostHeaderCheckConfig,
    pub sensitive_properties: ValidatedSensitiveProperties,
    pub server_tls_secret_class: String,
    /// The volumes of the user, mounted into every container under `/stackable/userdata/`.
    pub extra_volumes: Vec<Volume>,
    pub reporting_task: CreateReportingTaskJob,
}

/// The contents of a [`ValidatedClusterConfig`].
#[verifier::ext_equal]
pub struct ValidatedClusterConfigView {
    pub authentication: NifiAuthenticationConfigView,
    pub authorization: ResolvedNifiAuthorizationConfigView,
    pub clustering_backend: NifiClusteringBackendView,
    pub host_header_check: HostHeaderCheckConfigView,
    pub sensitive_properties: ValidatedSensitivePropertiesView,
    pub server_tls_secret_class: Seq<char>,
    pub extra_volumes: Seq<VolumeView>,
    pub reporting_task: CreateReportingTaskJobView,
}

impl DeepView for ValidatedClusterConfig {
    type V = ValidatedClusterConfigView;

    open spec fn deep_view(&self) -> ValidatedClusterConfigView {
        ValidatedClusterConfigView {
            authentication: self.authentication.deep_view(),
            authorization: self.authorization.deep_view(),
            clustering_backend: self.clustering_backend.deep_view(),
            host_header_check: self.host_header_check.deep_view(),
            sensitive_properties: self.sensitive_properties.deep_view(),
            server_tls_secret_class: self.server_tls_secret_class.deep_view(),
            extra_volumes: self.extra_volumes.deep_view(),
            reporting_task: self.reporting_task.deep_view(),
        }
    }
}

impl Copied for ValidatedClusterConfig {
    fn copied(&self) -> (copy: ValidatedClusterConfig) {
        ValidatedClusterConfig {
            authentication: self.authentication.copied(),
            authorization: self.authorization.copied(),
            clustering_backend: self.clustering_backend.copied(),
            host_header_check: self.host_header_check.copied(),
            sensitive_properties: self.sensitive_properties.copied(),
            server_tls_secret_class: self.server_tls_secret_class.copied(),
            extra_volumes: self.extra_volumes.copied(),
            reporting_task: self.reporting_task.copied(),
        }
    }
}

/// The Secrets that the operator may generate, as they are stored.
#[derive(Debug, PartialEq, Eq)]
pub struct ExistingSecrets {
    /// The Secret with the key of the sensitive properties.
    pub sensitive_key: Option<Secret>,
    /// The Secret with the password of the single user beside OpenID Connect.
    pub oidc_admin_password: Option<Secret>,
}

/// The contents of a [`ExistingSecrets`].
#[verifier::ext_equal]
pub struct ExistingSecretsView {
    pub sensitive_key: Option<SecretView>,
    pub oidc_admin_password: Option<SecretView>,
}

impl DeepView for ExistingSecrets {
    type V = ExistingSecretsView;

    open spec fn deep_view(&self) -> ExistingSecretsView {
        ExistingSecretsView {
            sensitive_key: self.sensitive_key.deep_view(),
            oidc_admin_password: self.oidc_admin_password.deep_view(),
        }
    }
}

impl Copied for ExistingSecrets {
    fn copied(&self) -> (copy: ExistingSecrets) {
        ExistingSecrets {
            sensitive_key: self.sensitive_key.copied(),
            oidc_admin_password: self.oidc_admin_password.copied(),
        }
    }
}

/// A cluster, with everything that it refers to looked up and checked.
#[derive(Debug, PartialEq, Eq)]
pub struct ValidatedCluster {
    /// Name, namespace and UID of the cluster.
    pub metadata: ObjectMeta,
    pub name: String,
    pub namespace: String,
    /// The domain of the Kubernetes cluster.
    pub cluster_domain: String,
    pub uid: String,
    pub image: ResolvedProductImage,
    /// The version as a label value.
    pub product_version: String,
    /// The version that the status reports.
    pub deployed_product_version: String,
    pub role_config: ValidatedRoleConfig,
    pub cluster_config: ValidatedClusterConfig,
    /// The role groups of the node role by name.
    pub role_group_configs: OrderedMap<NifiRoleGroupConfig>,
    pub existing_secrets: ExistingSecrets,
}

/// The contents of a [`ValidatedCluster`].
#[verifier::ext_equal]
pub struct ValidatedClusterView {
    pub metadata: ObjectMetaView,
    pub name: Seq<char>,
    pub namespace: Seq<char>,
    pub cluster_domain: Seq<char>,
    pub uid: Seq<char>,
    pub image: ResolvedProductImageView,
    pub product_version: Seq<char>,
    pub deployed_product_version: Seq<char>,
    pub role_config: ValidatedRoleConfigView,
    pub cluster_config: ValidatedClusterConfigView,
    pub role_group_configs: Map<Seq<char>, NifiRoleGroupConfigView>,
    pub existing_secrets: ExistingSecretsView,
}

impl DeepView for ValidatedCluster {
    type V = ValidatedClusterView;

    open spec fn deep_view(&self) -> ValidatedClusterView {
        ValidatedClusterView {
            metadata: self.metadata.deep_view(),
            name: self.name.deep_view(),
            namespace: self.namespace.deep_view(),
            cluster_domain: self.cluster_domain.deep_view(),
            uid: self.uid.deep_view(),
            image: self.image.deep_view(),
            product_version: self.product_version.deep_view(),
            deployed_product_version: self.deployed_product_version.deep_view(),
            role_config: self.role_config.deep_view(),
            cluster_config: self.cluster_config.deep_view(),
            role_group_configs: self.role_group_configs.deep_view(),
            existing_secrets: self.existing_secrets.deep_view(),
        }
    }
}

impl ValidatedNifiConfig {
    /// The settings of a role group, made of the merged configuration, the checked logging
    /// settings and what the pods need to follow git repositories.
    pub fn from_merged(
        merged: NifiConfig,
        logging: ValidatedLogging,
        git_sync_resources: GitSyncResources,
    ) -> (config: ValidatedNifiConfig)
        ensures
            config.deep_view() == (ValidatedNifiConfigView {
                resources: merged.deep_view().resources,
                affinity: merged.deep_view().affinity,
                graceful_shutdown_timeout_seconds: merged.graceful_shutdown_timeout_seconds,
                requested_secret_lifetime_seconds: merged.requested_secret_lifetime_seconds,
                logging: logging.deep_view(),
                git_sync_resources: git_sync_resources.deep_view(),
            }),
    {
        ValidatedNifiConfig {
            resources: merged.resources,
            affinity: merged.affinity,
            graceful_shutdown_timeout_seconds: merged.graceful_shutdown_timeout_seconds,
            requested_secret_lifetime_seconds: merged.requested_secret_lifetime_seconds,
            logging,
            git_sync_resources,
        }
    }
}

/// The labels that every object of a cluster carries.
pub open spec fn recommended_label_set(
    cluster_name: Seq<char>,
    product_version: Seq<char>,
    role: Seq<char>,
    role_group: Seq<char>,
) -> Map<Seq<char>, Seq<char>> {
    Map::empty().insert("app.kubernetes.io/component"@, role).insert(
        "app.kubernetes.io/instance"@,
        cluster_name,
    ).insert("app.kubernetes.io/managed-by"@, OPERATOR_NAME@ + "_"@ + NIFI_CONTROLLER_NAME@).insert(
        "app.kubernetes.io/name"@,
        APP_NAME@,
    ).insert("app.kubernetes.io/role-group"@, role_group).insert(
        "app.kubernetes.io/version"@,
        product_version,
    ).insert("stackable.tech/vendor"@, "Stackable"@)
}

/// The labels by which the pods of a role are found.
pub open spec fn role_selector_labels(
    cluster_name: Seq<char>,
    role: Seq<char>,
) -> Map<Seq<char>, Seq<char>> {
    Map::empty().insert("app.kubernetes.io/component"@, role).insert(
        "app.kubernetes.io/instance"@,
        cluster_name,
    ).insert("app.kubernetes.io/name"@, APP_NAME@)
}

/// The labels by which the pods of a role group are found.
pub open spec fn role_group_selector_labels(
    cluster_name: Seq<char>,
    role: Seq<char>,
    role_group: Seq<char>,
) -> Map<Seq<char>, Seq<char>> {
    role_selector_labels(cluster_name, role).insert("app.kubernetes.io/role-group"@, role_group)
}

/// The labels that every object of a cluster carries.
pub fn build_recommended_labels(
    cluster_name: &str,
    app_version: &str,
    role: &str,
    role_group: &str,
) -> (labels: StringMap)
    ensures
        labels@ == recommended_label_set(cluster_name@, app_version@, role@, role_group@),
{
    let managed_by = OPERATOR_NAME.to_owned().concat("_").concat(NIFI_CONTROLLER_NAME);
    let mut labels: StringMap = OrderedMap::new();
    labels.put("app.kubernetes.io/component", role);
    labels.put("app.kubernetes.io/instance", cluster_name);
    labels.put("app.kubernetes.io/managed-by", managed_by.as_str());
    labels.put("app.kubernetes.io/name", APP_NAME);
    labels.put("app.kubernetes.io/role-group", role_group);
    labels.put("app.kubernetes.io/version", app_version);
    labels.put("stackable.tech/vendor", "Stackable");
    labels
}

/// The labels by which the pods of a role are found.
pub fn role_selector(cluster_name: &str, role: &str) -> (labels: StringMap)
    ensures
        labels@ == role_selector_labels(cluster_name@, role@),
{
    let mut labels: StringMap = OrderedMap::new();
    labels.put("app.kubernetes.io/component", role);
    labels.put("app.kubernetes.io/instance", cluster_name);
    labels.put("app.kubernetes.io/name", APP_NAME);
    labels
}

/// The labels by which the pods of a role group are found.
pub fn role_group_selector(cluster_name: &str, role: &str, role_group: &str) -> (labels: StringMap)
    ensures
        labels@ == role_group_selector_labels(cluster_name@, role@, role_group@),
{
    let mut labels = role_selector(cluster_name, role);
    labels.put("app.kubernetes.io/role-group", role_group);
    labels
}

/// The names of the objects of a role group.
pub open spec fn role_group_object_name(
    cluster_name: Seq<char>,
    role: Seq<char>,
    role_group: Seq<char>,
) -> Seq<char> {
    cluster_name + "-"@ + role + "-"@ + role_group
}

/// The names of the objects of a role group.
#[derive(Debug, PartialEq, Eq)]
pub struct ResourceNames {
    pub cluster_name: String,
    pub role_name: String,
    pub role_group_name: String,
}

/// The contents of a [`ResourceNames`].
#[verifier::ext_equal]
pub struct ResourceNamesView {
    pub cluster_name: Seq<char>,
    pub role_name: Seq<char>,
    pub role_group_name: Seq<char>,
}

impl DeepView for ResourceNames {
    type V = ResourceNamesView;

    open spec fn deep_view(&self) -> ResourceNamesView {
        ResourceNamesView {
            cluster_name: self.cluster_name.deep_view(),
            role_name: self.role_name.deep_view(),
            role_group_name: self.role_group_name.deep_view(),
        }
    }
}

impl Copied for ResourceNames {
    fn copied(&self) -> (copy: ResourceNames) {
        ResourceNames {
            cluster_name: self.cluster_name.copied(),
            role_name: self.role_name.copied(),
            role_group_name: self.role_group_name.copied(),
        }
    }
}

impl ResourceNamesView {
    /// What the names of the objects of the role group begin with.
    pub open spec fn qualified_name(self) -> Seq<char> {
        role_group_object_name(self.cluster_name, self.role_name, self.role_group_name)
    }
}

impl ResourceNames {
    /// The name of the StatefulSet.
    pub fn stateful_set_name(&self) -> (name: String)
        ensures
            name@ == self.deep_view().qualified_name(),
    {
        concat5(
            self.cluster_name.as_str(),
            "-",
            self.role_name.as_str(),
            "-",
            self.role_group_name.as_str(),
        )
    }

    /// The name of the ConfigMap.
    pub fn role_group_config_map(&self) -> (name: String)
        ensures
            name@ == self.deep_view().qualified_name(),
    {
        self.stateful_set_name()
    }

    /// The name of the headless Service.
    pub fn headless_service_name(&self) -> (name: String)
        ensures
            name@ == self.deep_view().qualified_name() + "-headless"@,
    {
        concat2(self.stateful_set_name().as_str(), "-headless")
    }

    /// The name of the Service for metrics.
    pub fn metrics_service_name(&self) -> (name: String)
        ensures
            name@ == self.deep_view().qualified_name() + "-metrics"@,
    {
        concat2(self.stateful_set_name().as_str(), "-metrics")
    }
}

/// The names of the objects that give the pods of a cluster their permissions.
#[derive(Debug, PartialEq, Eq)]
pub struct RbacResourceNames {
    pub cluster_name: String,
    pub product_name: String,
}

/// The contents of a [`RbacResourceNames`].
#[verifier::ext_equal]
pub struct RbacResourceNamesView {
    pub cluster_name: Seq<char>,
    pub product_name: Seq<char>,
}

impl DeepView for RbacResourceNames {
    type V = RbacResourceNamesView;

    open spec fn deep_view(&self) -> RbacResourceNamesView {
        RbacResourceNamesView {
            cluster_name: self.cluster_name.deep_view(),
            product_name: self.product_name.deep_view(),
        }
    }
}

impl Copied for RbacResourceNames {
    fn copied(&self) -> (copy: RbacResourceNames) {
        RbacResourceNames {
            cluster_name: self.cluster_name.copied(),
            product_name: self.product_name.copied(),
        }
    }
}

impl RbacResourceNames {
    /// The name of the ServiceAccount of all pods.
    pub fn service_account_name(&self) -> (name: String)
        ensures
            name@ == self.cluster_name@ + "-serviceaccount"@,
    {
        concat2(self.cluster_name.as_str(), "-serviceaccount")
    }

    /// The name of the RoleBinding.
    pub fn role_binding_name(&self) -> (name: String)
        ensures
            name@ == self.cluster_name@ + "-rolebinding"@,
    {
        concat2(self.cluster_name.as_str(), "-rolebinding")
    }

    /// The name of the ClusterRole that is bound.
    pub fn cluster_role_name(&self) -> (name: String)
        ensures
            name@ == self.product_name@ + "-clusterrole"@,
    {
        concat2(self.product_name.as_str(), "-clusterrole")
    }
}

/// The reference to the cluster that its objects carry.
pub open spec fn owner_reference(name: Seq<char>, uid: Seq<char>) -> OwnerReferenceView {
    OwnerReferenceView {
        api_version: "nifi.stackable.tech/v1alpha1"@,
        kind: "NifiCluster"@,
        name,
        uid,
        block_owner_deletion: None,
        controller: Some(true),
    }
}

/// The metadata of an object that the cluster owns.
pub open spec fn owned_metadata(
    cluster: ValidatedClusterView,
    name: Seq<char>,
    labels: Map<Seq<char>, Seq<char>>,
) -> ObjectMetaView {
    ObjectMetaView {
        name: Some(name),
        namespace: Some(cluster.namespace),
        uid: None,
        labels,
        annotations: Map::empty(),
        owner_references: seq![owner_reference(cluster.name, cluster.uid)],
    }
}

/// The metadata of an object that the cluster owns.
pub fn object_meta(cluster: &ValidatedCluster, name: String, recommended_labels: StringMap) -> (
    metadata: ObjectMeta)
    ensures
        metadata.deep_view() == owned_metadata(
            cluster.deep_view(),
            name@,
            recommended_labels@,
        ),
{
    let owner = OwnerReference {
        api_version: "nifi.stackable.tech/v1alpha1".to_owned(),
        kind: "NifiCluster".to_owned(),
        name: cluster.name.copied(),
        uid: cluster.uid.copied(),
        block_owner_deletion: None,
        controller: Some(true),
    };
    ObjectMeta {
        name: Some(name),
        namespace: Some(cluster.namespace.copied()),
        uid: None,
        labels: recommended_labels,
        annotations: OrderedMap::new(),
        owner_references: list_of(owner),
    }
}

impl ValidatedClusterView {
    /// The labels of an object of a role group.
    pub open spec fn labels_of(self, role_group: Seq<char>) -> Map<Seq<char>, Seq<char>> {
        recommended_label_set(self.name, self.product_version, NifiRole::Node.text(), role_group)
    }

    /// The labels of an object of a role group that must not change after deployment.
    pub open spec fn stable_labels_of(self, role_group: Seq<char>) -> Map<Seq<char>, Seq<char>> {
        recommended_label_set(
            self.name,
            UNVERSIONED_PRODUCT_VERSION@,
            NifiRole::Node.text(),
            role_group,
        )
    }

    /// The labels by which the pods of a role group are found.
    pub open spec fn selector_of(self, role_group: Seq<char>) -> Map<Seq<char>, Seq<char>> {
        role_group_selector_labels(self.name, NifiRole::Node.text(), role_group)
    }

    /// The name of the objects of a role group.
    pub open spec fn object_name_of(self, role_group: Seq<char>) -> Seq<char> {
        role_group_object_name(self.name, NifiRole::Node.text(), role_group)
    }

    /// The names of the objects of a role group.
    pub open spec fn names_of(self, role_group: Seq<char>) -> ResourceNamesView {
        ResourceNamesView {
            cluster_name: self.name,
            role_name: NifiRole::Node.text(),
            role_group_name: role_group,
        }
    }
}

impl ValidatedCluster {
    /// A cluster whose metadata hold its name, namespace and UID.
    pub fn new(
        name: String,
        namespace: String,
        cluster_domain: String,
        uid: String,
        image: ResolvedProductImage,
        product_version: String,
        deployed_product_version: String,
        role_config: ValidatedRoleConfig,
        role_group_configs: OrderedMap<NifiRoleGroupConfig>,
        cluster_config: ValidatedClusterConfig,
        existing_secrets: ExistingSecrets,
    ) -> (cluster: ValidatedCluster)
        ensures
            cluster.deep_view() == (ValidatedClusterView {
                metadata: ObjectMetaView {
                    name: Some(name@),
                    namespace: Some(namespace@),
                    uid: Some(uid@),
                    labels: Map::empty(),
                    annotations: Map::empty(),
                    owner_references: Seq::empty(),
                },
                name: name@,
                namespace: namespace@,
                cluster_domain: cluster_domain@,
                uid: uid@,
                image: image.deep_view(),
                product_version: product_version@,
                deployed_product_version: deployed_product_version@,
                role_config: role_config.deep_view(),
                cluster_config: cluster_config.deep_view(),
                role_group_configs: role_group_configs.deep_view(),
                existing_secrets: existing_secrets.deep_view(),
            }),
    {
        let metadata = ObjectMeta {
            name: Some(name.copied()),
            namespace: Some(namespace.copied()),
            uid: Some(uid.copied()),
            labels: OrderedMap::new(),
            annotations: OrderedMap::new(),
            owner_references: empty_list(),
        };
        ValidatedCluster {
            metadata,
            name,
            namespace,
            cluster_domain,
            uid,
            image,
            product_version,
            deployed_product_version,
            role_config,
            cluster_config,
            role_group_configs,
            existing_secrets,
        }
    }

    /// The name of the single role.
    pub fn role_name() -> (name: String)
        ensures
            name@ == NifiRole::Node.text(),
    {
        NifiRole::Node.as_str().to_owned()
    }

    /// The names of the objects that give the pods their permissions.
    pub fn rbac_resource_names(&self) -> (names: RbacResourceNames)
        ensures
            names.deep_view() == (RbacResourceNamesView {
                cluster_name: self.deep_view().name,
                product_name: APP_NAME@,
            }),
    {
        RbacResourceNames {
            cluster_name: self.name.copied(),
            product_name: APP_NAME.to_owned(),
        }
    }

    /// The names of the objects of a role group.
    pub fn resource_names(&self, role_group_name: &str) -> (names: ResourceNames)
        ensures
            names.deep_view() == self.deep_view().names_of(role_group_name@),
    {
        ResourceNames {
            cluster_name: self.name.copied(),
            role_name: ValidatedCluster::role_name(),
            role_group_name: role_group_name.to_owned(),
        }
    }

    /// The labels of an object of a role group.
    pub fn recommended_labels(&self, role_group_name: &str) -> (labels: StringMap)
        ensures
            labels@ == self.deep_view().labels_of(role_group_name@),
    {
        self.recommended_labels_for(NifiRole::Node.as_str(), role_group_name)
    }

    /// The labels of an object of any role and role group.
    pub fn recommended_labels_for(&self, role_name: &str, role_group_name: &str) -> (labels:
        StringMap)
        ensures
            labels@ == recommended_label_set(
                self.deep_view().name,
                self.deep_view().product_version,
                role_name@,
                role_group_name@,
            ),
    {
        self.recommended_labels_with(self.product_version.as_str(), role_name, role_group_name)
    }

    /// The labels of an object that must not change after deployment: they do not name the version.
    pub fn unversioned_recommended_labels(&self, role_group_name: &str) -> (labels: StringMap)
        ensures
            labels@ == self.deep_view().stable_labels_of(role_group_name@),
    {
        self.recommended_labels_with(
            UNVERSIONED_PRODUCT_VERSION,
            NifiRole::Node.as_str(),
            role_group_name,
        )
    }

    /// The labels of an object that all roles share.
    pub fn cluster_shared_recommended_labels(&self) -> (labels: StringMap)
        ensures
            labels@ == recommended_label_set(
                self.deep_view().name,
                self.deep_view().product_version,
                NO_ROLE_OR_GROUP@,
                NO_ROLE_OR_GROUP@,
            ),
    {
        self.recommended_labels_for(NO_ROLE_OR_GROUP, NO_ROLE_OR_GROUP)
    }

    /// The labels of an object.
    fn recommended_labels_with(
        &self,
        product_version: &str,
        role_name: &str,
        role_group_name: &str,
    ) -> (labels: StringMap)
        ensures
            labels@ == recommended_label_set(
                self.deep_view().name,
                product_version@,
                role_name@,
                role_group_name@,
            ),
    {
        build_recommended_labels(self.name.as_str(), product_version, role_name, role_group_name)
    }

    /// The labels by which the pods of a role group are found.
    pub fn role_group_selector(&self, role_group_name: &str) -> (labels: StringMap)
        ensures
            labels@ == self.deep_view().selector_of(role_group_name@),
    {
        role_group_selector(self.name.as_str(), NifiRole::Node.as_str(), role_group_name)
    }

    /// The metadata of an object of a role group.
    pub fn object_meta(&self, name: String, role_group_name: &str) -> (metadata: ObjectMeta)
        ensures
            metadata.deep_view() == owned_metadata(
                self.deep_view(),
                name@,
                self.deep_view().labels_of(role_group_name@),
            ),
    {
        object_meta(self, name, self.recommended_labels(role_group_name))
    }
}

/// The labels of the objects of Kubernetes have different names.
proof fn lemma_label_names_differ()
    ensures
        "app.kubernetes.io/component"@ != "app.kubernetes.io/instance"@,
        "app.kubernetes.io/component"@ != "app.kubernetes.io/managed-by"@,
        "app.kubernetes.io/component"@ != "app.kubernetes.io/name"@,
        "app.kubernetes.io/component"@ != "app.kubernetes.io/role-group"@,
        "app.kubernetes.io/component"@ != "app.kubernetes.io/version"@,
        "app.kubernetes.io/component"@ != "stackable.tech/vendor"@,
        "app.kubernetes.io/instance"@ != "app.kubernetes.io/managed-by"@,
        "app.kubernetes.io/instance"@ != "app.kubernetes.io/name"@,
        "app.kubernetes.io/instance"@ != "app.kubernetes.io/role-group"@,
        "app.kubernetes.io/instance"@ != "app.kubernetes.io/version"@,
        "app.kubernetes.io/instance"@ != "stackable.tech/vendor"@,
        "app.kubernetes.io/name"@ != "app.kubernetes.io/role-group"@,
        "app.kubernetes.io/name"@ != "app.kubernetes.io/version"@,
        "app.kubernetes.io/name"@ != "stackable.tech/vendor"@,
        "app.kubernetes.io/role-group"@ != "app.kubernetes.io/version"@,
        "app.kubernetes.io/role-group"@ != "stackable.tech/vendor"@,
{
    reveal_strlit("app.kubernetes.io/component");
    reveal_strlit("app.kubernetes.io/instance");
    reveal_strlit("app.kubernetes.io/managed-by");
    reveal_strlit("app.kubernetes.io/name");
    reveal_strlit("app.kubernetes.io/role-group");
    reveal_strlit("app.kubernetes.io/version");
    reveal_strlit("stackable.tech/vendor");
    assert("app.kubernetes.io/component"@.len() == 27);
    assert("app.kubernetes.io/instance"@.len() == 26);
    assert("app.kubernetes.io/managed-by"@.len() == 28);
    assert("app.kubernetes.io/name"@.len() == 22);
    assert("app.kubernetes.io/role-group"@.len() == 28);
    assert("app.kubernetes.io/version"@.len() == 25);
    assert("stackable.tech/vendor"@.len() == 21);
}

/// The pods of a role group are found by its selector, whatever their version, and those of other
/// role groups are not.
pub proof fn law_selector_finds_the_pods_of_a_role_group(
    cluster: ValidatedClusterView,
    role_group: Seq<char>,
    other: Seq<char>,
)
    requires
        role_group != other,
    ensures
        cluster.selector_of(role_group).submap_of(cluster.labels_of(role_group)),
        cluster.selector_of(role_group).submap_of(cluster.stable_labels_of(role_group)),
        !cluster.selector_of(role_group).submap_of(cluster.labels_of(other)),
{
    lemma_label_names_differ();
    let selector = cluster.selector_of(role_group);
    assert(selector["app.kubernetes.io/role-group"@] == role_group);
    assert(cluster.labels_of(other)["app.kubernetes.io/role-group"@] == other);
    assert(selector.dom().contains("app.kubernetes.io/role-group"@));
    assert(cluster.labels_of(other).dom().contains("app.kubernetes.io/role-group"@));
}

/// The labels of objects that Kubernetes does not let change stay as they are when the product is
/// updated.
pub proof fn law_stable_labels_survive_updates(
    cluster: ValidatedClusterView,
    updated: ValidatedClusterView,
    role_group: Seq<char>,
)
    requires
        cluster.name == updated.name,
    ensures
        cluster.stable_labels_of(role_group) == updated.stable_labels_of(role_group),
        cluster.selector_of(role_group) == updated.selector_of(role_group),
{
}

} // verus!
