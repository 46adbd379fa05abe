//! Validates a cluster, without any call to Kubernetes.
//!
//! What the cluster refers to, and what the frameworks of the operator make of its settings, is
//! given.

use crate::contents::Copied;
use crate::controller::build::resource::secret::SENSITIVE_PROPERTY_KEY_NAME;
use crate::controller::{
    ExistingSecrets, ExistingSecretsView, GitSyncResources, GitSyncResourcesView,
    NifiConfigOverrides, NifiConfigOverridesView, NifiRoleGroupConfig, NifiRoleGroupConfigView,
    ResolvedProductImage, ResolvedProductImageView, ValidatedCluster, ValidatedClusterConfig,
    ValidatedClusterConfigView, ValidatedClusterView, ValidatedContainerLogConfigChoice,
    ValidatedContainerLogConfigChoiceView, ValidatedLogging, ValidatedLoggingView,
    ValidatedNifiConfig, ValidatedNifiConfigView, ValidatedRoleConfig, ValidatedRoleConfigView,
    ValidatedSensitiveProperties, ValidatedSensitivePropertiesView, VectorContainerLogConfig,
    VectorContainerLogConfigView,
};
use crate::crd;
use crate::crd::sensitive_properties::{
    NifiSensitiveKeyAlgorithm, NifiSensitivePropertiesConfig, NifiSensitivePropertiesConfigView,
};
use crate::crd::{
    LoggingFragment, LoggingFragmentView, NifiCluster, NifiClusterView, NifiRole, RoleGroupView,
};
use crate::kubernetes::{ObjectMetaView, Secret, SecretView};
use crate::ordered_map;
use crate::ordered_map::{OrderedMap, StringMap};
use crate::security::authentication::{
    NifiAuthenticationConfig, NifiAuthenticationConfigView, STACKABLE_ADMIN_USERNAME,
};
use crate::security::authorization::{
    ResolvedNifiAuthorizationConfig, ResolvedNifiAuthorizationConfigView,
};
use crate::text::same_text;
use vstd::prelude::*;

verus! {

/// Why a cluster is not valid.
#[allow(inconsistent_fields)]
#[derive(Debug, PartialEq, Eq)]
pub enum Error {
    /// The product image cannot be resolved.
    ResolveProductImage,
    /// The cluster has no valid name.
    GetClusterName,
    /// The cluster has no valid UID.
    GetUid,
    /// The authentication is invalid.
    InvalidAuthenticationConfig,
    /// The merged settings of a role group are incomplete.
    ValidateRoleGroupConfig,
    /// The name of a role group is invalid.
    ParseRoleGroupName {
        role_group: String,
    },
    /// The name of an environment variable is invalid.
    ParseEnvVarName {
        name: String,
    },
    /// The synchronisation from Git cannot be built.
    BuildGitSyncResources,
    /// The log agent is enabled, and its aggregator is not named.
    MissingVectorAggregatorConfigMapName,
    /// The log configuration is invalid.
    ValidateLoggingConfig,
    /// The product version is invalid.
    ParseProductVersion {
        product_version: String,
    },
    /// The Secret with the key of the sensitive properties is missing, and must not be generated.
    SensitiveKeySecretMissing {
        name: String,
        namespace: String,
    },
    /// The Secret with the key of the sensitive properties does not hold it.
    SensitiveKeySecretIncomplete {
        secret: Option<String>,
    },
    /// The Secret with the password of the single user does not hold it.
    AdminPasswordSecretIncomplete {
        secret: Option<String>,
    },
}

/// The contents of a [`Error`].
#[allow(inconsistent_fields)]
#[verifier::ext_equal]
pub enum ErrorView {
    ResolveProductImage,
    GetClusterName,
    GetUid,
    InvalidAuthenticationConfig,
    ValidateRoleGroupConfig,
    ParseRoleGroupName { role_group: Seq<char> },
    ParseEnvVarName { name: Seq<char> },
    BuildGitSyncResources,
    MissingVectorAggregatorConfigMapName,
    ValidateLoggingConfig,
    ParseProductVersion { product_version: Seq<char> },
    SensitiveKeySecretMissing { name: Seq<char>, namespace: Seq<char> },
    SensitiveKeySecretIncomplete { secret: Option<Seq<char>> },
    AdminPasswordSecretIncomplete { secret: Option<Seq<char>> },
}

impl DeepView for Error {
    type V = ErrorView;

    open spec fn deep_view(&self) -> ErrorView {
        match self {
            Error::ResolveProductImage => ErrorView::ResolveProductImage,
            Error::GetClusterName => ErrorView::GetClusterName,
            Error::GetUid => ErrorView::GetUid,
            Error::InvalidAuthenticationConfig => ErrorView::InvalidAuthenticationConfig,
            Error::ValidateRoleGroupConfig => ErrorView::ValidateRoleGroupConfig,
            Error::ParseRoleGroupName { role_group } => ErrorView::ParseRoleGroupName {
                role_group: role_group.deep_view(),
            },
            Error::ParseEnvVarName { name } => ErrorView::ParseEnvVarName {
                name: name.deep_view(),
            },
            Error::BuildGitSyncResources => ErrorView::BuildGitSyncResources,
            Error::MissingVectorAggregatorConfigMapName =>
                ErrorView::MissingVectorAggregatorConfigMapName,
            Error::ValidateLoggingConfig => ErrorView::ValidateLoggingConfig,
            Error::ParseProductVersion { product_version } => ErrorView::ParseProductVersion {
                product_version: product_version.deep_view(),
            },
            Error::SensitiveKeySecretMissing { name, namespace } =>
                ErrorView::SensitiveKeySecretMissing {
                    name: name.deep_view(),
                    namespace: namespace.deep_view(),
                },
            Error::SensitiveKeySecretIncomplete { secret } =>
                ErrorView::SensitiveKeySecretIncomplete {
                    secret: secret.deep_view(),
                },
            Error::AdminPasswordSecretIncomplete { secret } =>
                ErrorView::AdminPasswordSecretIncomplete {
                    secret: secret.deep_view(),
                },
        }
    }
}

/// The log configurations of the containers, none for one that is invalid.
#[derive(Debug, PartialEq, Eq)]
pub struct ContainerLogChoices {
    pub nifi: Option<ValidatedContainerLogConfigChoice>,
    pub prepare: Option<ValidatedContainerLogConfigChoice>,
    pub vector: Option<ValidatedContainerLogConfigChoice>,
}

/// The contents of a [`ContainerLogChoices`].
#[verifier::ext_equal]
pub struct ContainerLogChoicesView {
    pub nifi: Option<ValidatedContainerLogConfigChoiceView>,
    pub prepare: Option<ValidatedContainerLogConfigChoiceView>,
    pub vector: Option<ValidatedContainerLogConfigChoiceView>,
}

impl DeepView for ContainerLogChoices {
    type V = ContainerLogChoicesView;

    open spec fn deep_view(&self) -> ContainerLogChoicesView {
        ContainerLogChoicesView {
            nifi: self.nifi.deep_view(),
            prepare: self.prepare.deep_view(),
            vector: self.vector.deep_view(),
        }
    }
}

/// What the frameworks of the operator make of a role group.
#[derive(Debug, PartialEq, Eq)]
pub struct RoleGroupInputs {
    /// Whether the name of the role group is a valid one.
    pub name_is_valid: bool,
    /// The merged log configuration.
    pub logging: LoggingFragment,
    pub log_choices: ContainerLogChoices,
    /// The merged environment variables of the user.
    pub env_overrides: StringMap,
    /// The first of their names that is invalid.
    pub invalid_env_var_name: Option<String>,
    /// The merged properties of the user.
    pub config_overrides: NifiConfigOverrides,
    /// The merged overrides of the pods.
    pub pod_overrides: String,
    /// What synchronises from Git, none where it cannot be built.
    pub git_sync_resources: Option<GitSyncResources>,
}

/// The contents of a [`RoleGroupInputs`].
#[verifier::ext_equal]
pub struct RoleGroupInputsView {
    pub name_is_valid: bool,
    pub logging: LoggingFragmentView,
    pub log_choices: ContainerLogChoicesView,
    pub env_overrides: Map<Seq<char>, Seq<char>>,
    pub invalid_env_var_name: Option<Seq<char>>,
    pub config_overrides: NifiConfigOverridesView,
    pub pod_overrides: Seq<char>,
    pub git_sync_resources: Option<GitSyncResourcesView>,
}

impl DeepView for RoleGroupInputs {
    type V = RoleGroupInputsView;

    open spec fn deep_view(&self) -> RoleGroupInputsView {
        RoleGroupInputsView {
            name_is_valid: self.name_is_valid.deep_view(),
            logging: self.logging.deep_view(),
            log_choices: self.log_choices.deep_view(),
            env_overrides: self.env_overrides.deep_view(),
            invalid_env_var_name: self.invalid_env_var_name.deep_view(),
            config_overrides: self.config_overrides.deep_view(),
            pod_overrides: self.pod_overrides.deep_view(),
            git_sync_resources: self.git_sync_resources.deep_view(),
        }
    }
}

/// What a cluster refers to, and what the frameworks of the operator make of it.
#[derive(Debug, PartialEq, Eq)]
pub struct ClusterInputs {
    /// The image, none where it cannot be resolved.
    pub image: Option<ResolvedProductImage>,
    /// The name of the cluster, none where it is missing or invalid.
    pub cluster_name: Option<String>,
    /// The UID of the cluster, none where it is missing or invalid.
    pub uid: Option<String>,
    /// Whether the product version is a valid one.
    pub product_version_is_valid: bool,
    pub namespace: String,
    pub cluster_domain: String,
    /// The authentication, none where it is invalid.
    pub authentication: Option<NifiAuthenticationConfig>,
    pub authorization: ResolvedNifiAuthorizationConfig,
    pub existing_secrets: ExistingSecrets,
    pub role_groups: OrderedMap<RoleGroupInputs>,
}

/// The contents of a [`ClusterInputs`].
#[verifier::ext_equal]
pub struct ClusterInputsView {
    pub image: Option<ResolvedProductImageView>,
    pub cluster_name: Option<Seq<char>>,
    pub uid: Option<Seq<char>>,
    pub product_version_is_valid: bool,
    pub namespace: Seq<char>,
    pub cluster_domain: Seq<char>,
    pub authentication: Option<NifiAuthenticationConfigView>,
    pub authorization: ResolvedNifiAuthorizationConfigView,
    pub existing_secrets: ExistingSecretsView,
    pub role_groups: Map<Seq<char>, RoleGroupInputsView>,
}

impl DeepView for ClusterInputs {
    type V = ClusterInputsView;

    open spec fn deep_view(&self) -> ClusterInputsView {
        ClusterInputsView {
            image: self.image.deep_view(),
            cluster_name: self.cluster_name.deep_view(),
            uid: self.uid.deep_view(),
            product_version_is_valid: self.product_version_is_valid.deep_view(),
            namespace: self.namespace.deep_view(),
            cluster_domain: self.cluster_domain.deep_view(),
            authentication: self.authentication.deep_view(),
            authorization: self.authorization.deep_view(),
            existing_secrets: self.existing_secrets.deep_view(),
            role_groups: self.role_groups.deep_view(),
        }
    }
}

/// Whether a Secret, as Kubernetes returns it, holds a key. Kubernetes returns contents as `data`
/// only.
pub open spec fn contains_key(secret: SecretView, key: Seq<char>) -> bool {
    match secret.data {
        Some(data) => exists|i: int| 0 <= i < data.len() && (#[trigger] data[i]).0 == key,
        None => false,
    }
}

/// Why the Secret with the key of the sensitive properties is not acceptable.
pub open spec fn sensitive_key_failure(
    existing: Option<SecretView>,
    sensitive_properties: NifiSensitivePropertiesConfigView,
    namespace: Seq<char>,
) -> Option<ErrorView> {
    match existing {
        Some(secret) => if contains_key(secret, SENSITIVE_PROPERTY_KEY_NAME@) {
            None
        } else {
            Some(ErrorView::SensitiveKeySecretIncomplete { secret: secret.metadata.name })
        },
        None => if sensitive_properties.auto_generate {
            None
        } else {
            Some(
                ErrorView::SensitiveKeySecretMissing {
                    name: sensitive_properties.key_secret,
                    namespace,
                },
            )
        },
    }
}

/// Why the Secret with the password of the single user is not acceptable. It is used with OpenID
/// Connect only.
pub open spec fn admin_password_failure(
    existing: Option<SecretView>,
    authentication: NifiAuthenticationConfigView,
) -> Option<ErrorView> {
    match (existing, authentication) {
        (Some(secret), NifiAuthenticationConfigView::Oidc { .. }) => if contains_key(
            secret,
            STACKABLE_ADMIN_USERNAME@,
        ) {
            None
        } else {
            Some(ErrorView::AdminPasswordSecretIncomplete { secret: secret.metadata.name })
        },
        _ => None,
    }
}

/// Why the Secrets whose contents the operator generates are not acceptable.
pub open spec fn existing_secrets_failure(
    existing: ExistingSecretsView,
    sensitive_properties: NifiSensitivePropertiesConfigView,
    authentication: NifiAuthenticationConfigView,
    namespace: Seq<char>,
) -> Option<ErrorView> {
    match sensitive_key_failure(existing.sensitive_key, sensitive_properties, namespace) {
        Some(error) => Some(error),
        None => admin_password_failure(existing.oidc_admin_password, authentication),
    }
}

/// Whether a Secret, as Kubernetes returns it, holds a key.
pub fn secret_contains_key(secret: &Secret, key: &str) -> (yes: bool)
    ensures
        yes == contains_key(secret.deep_view(), key@),
{
    let data = match &secret.data {
        Some(data) => data,
        None => {
            return false;
        },
    };
    let ghost entries = data.deep_view();
    let mut i: usize = 0;
    while i < data.len()
        invariant
            i <= data.len(),
            entries == data.deep_view(),
            secret.deep_view().data.is_some(),
            secret.deep_view().data.unwrap() == entries,
            forall|j: int| 0 <= j < i ==> (#[trigger] entries[j]).0 != key@,
        decreases data.len() - i,
    {
        proof {
            assert(entries[i as int] == data[i as int].deep_view());
        }
        if same_text(data[i].0.as_str(), key) {
            proof {
                assert(entries[i as int].0 == key@);
            }
            return true;
        }
        i = i + 1;
    }
    false
}

/// Checks the Secrets whose contents the operator generates.
///
/// An existing Secret is never written again, so one without the expected key is refused. A new key
/// could not decrypt what is already stored, and is therefore not put in the place of a missing
/// one.
pub fn validate_existing_secrets(
    existing_secrets: &ExistingSecrets,
    sensitive_properties: &NifiSensitivePropertiesConfig,
    authentication: &NifiAuthenticationConfig,
    namespace: &str,
) -> (result: Result<(), Error>)
    ensures
        match result {
            Ok(()) => existing_secrets_failure(
                existing_secrets.deep_view(),
                sensitive_properties.deep_view(),
                authentication.deep_view(),
                namespace@,
            ).is_none(),
            Err(error) => existing_secrets_failure(
                existing_secrets.deep_view(),
                sensitive_properties.deep_view(),
                authentication.deep_view(),
                namespace@,
            ) == Some(error.deep_view()),
        },
{
    match &existing_secrets.sensitive_key {
        Some(secret) => {
            if !secret_contains_key(secret, SENSITIVE_PROPERTY_KEY_NAME) {
                return Err(
                    Error::SensitiveKeySecretIncomplete { secret: secret.metadata.name.copied() },
                );
            }
        },
        None => {
            if !sensitive_properties.auto_generate {
                return Err(
                    Error::SensitiveKeySecretMissing {
                        name: sensitive_properties.key_secret.copied(),
                        namespace: namespace.to_owned(),
                    },
                );
            }
        },
    }
    match (&existing_secrets.oidc_admin_password, authentication) {
        (Some(secret), NifiAuthenticationConfig::Oidc { .. }) => {
            if !secret_contains_key(secret, STACKABLE_ADMIN_USERNAME) {
                return Err(
                    Error::AdminPasswordSecretIncomplete { secret: secret.metadata.name.copied() },
                );
            }
        },
        _ => {},
    }
    Ok(())
}

/// The validated log configuration, or why it is not valid.
pub open spec fn logging_outcome(
    enable_vector_agent: bool,
    choices: ContainerLogChoicesView,
    aggregator: Option<Seq<char>>,
) -> Result<ValidatedLoggingView, ErrorView> {
    if choices.nifi.is_none() || choices.prepare.is_none() {
        Err(ErrorView::ValidateLoggingConfig)
    } else if enable_vector_agent && aggregator.is_none() {
        Err(ErrorView::MissingVectorAggregatorConfigMapName)
    } else if enable_vector_agent && choices.vector.is_none() {
        Err(ErrorView::ValidateLoggingConfig)
    } else {
        Ok(
            ValidatedLoggingView {
                nifi_container: choices.nifi.unwrap(),
                prepare_container: choices.prepare.unwrap(),
                vector_container: if enable_vector_agent {
                    Some(
                        VectorContainerLogConfigView {
                            log_config: choices.vector.unwrap(),
                            vector_aggregator_config_map_name: aggregator.unwrap(),
                        },
                    )
                } else {
                    None
                },
                enable_vector_agent,
            },
        )
    }
}

/// Validates the log configuration of a role group.
///
/// The name of the aggregator is needed only where the log agent is enabled.
pub fn validate_logging(
    enable_vector_agent: bool,
    choices: &ContainerLogChoices,
    vector_aggregator_config_map_name: &Option<String>,
) -> (result: Result<ValidatedLogging, Error>)
    ensures
        match result {
            Ok(logging) => logging_outcome(
                enable_vector_agent,
                choices.deep_view(),
                vector_aggregator_config_map_name.deep_view(),
            ) == Ok::<ValidatedLoggingView, ErrorView>(logging.deep_view()),
            Err(error) => logging_outcome(
                enable_vector_agent,
                choices.deep_view(),
                vector_aggregator_config_map_name.deep_view(),
            ) == Err::<ValidatedLoggingView, ErrorView>(error.deep_view()),
        },
{
    let (nifi_container, prepare_container) = match (&choices.nifi, &choices.prepare) {
        (Some(nifi), Some(prepare)) => (nifi.copied(), prepare.copied()),
        _ => {
            return Err(Error::ValidateLoggingConfig);
        },
    };
    let vector_container: Option<VectorContainerLogConfig> = if enable_vector_agent {
        let aggregator = match vector_aggregator_config_map_name {
            Some(name) => name.copied(),
            None => {
                return Err(Error::MissingVectorAggregatorConfigMapName);
            },
        };
        let log_config = match &choices.vector {
            Some(vector) => vector.copied(),
            None => {
                return Err(Error::ValidateLoggingConfig);
            },
        };
        Some(VectorContainerLogConfig { log_config, vector_aggregator_config_map_name: aggregator })
    } else {
        None
    };
    Ok(
        ValidatedLogging {
            nifi_container,
            prepare_container,
            vector_container,
            enable_vector_agent,
        },
    )
}

/// The validated settings of a role group, or why they are not valid.
pub open spec fn role_group_outcome(
    nifi: NifiClusterView,
    name: Seq<char>,
    group: RoleGroupView,
    inputs: RoleGroupInputsView,
) -> Result<NifiRoleGroupConfigView, ErrorView> {
    if !inputs.name_is_valid {
        Err(ErrorView::ParseRoleGroupName { role_group: name })
    } else if inputs.logging.enable_vector_agent.is_none() {
        Err(ErrorView::ValidateRoleGroupConfig)
    } else {
        let config = crd::complete_settings(
            nifi.merged_settings(NifiRole::Node, name),
            inputs.logging,
        );
        match inputs.invalid_env_var_name {
            Some(env_var) => Err(ErrorView::ParseEnvVarName { name: env_var }),
            None => match logging_outcome(
                config.logging.enable_vector_agent,
                inputs.log_choices,
                nifi.spec.cluster_config.vector_aggregator_config_map_name,
            ) {
                Err(error) => Err(error),
                Ok(logging) => match inputs.git_sync_resources {
                    None => Err(ErrorView::BuildGitSyncResources),
                    Some(git_sync_resources) => Ok(
                        NifiRoleGroupConfigView {
                            replicas: group.replicas,
                            config: ValidatedNifiConfigView {
                                resources: config.resources,
                                affinity: config.affinity,
                                graceful_shutdown_timeout_seconds:
                                    config.graceful_shutdown_timeout_seconds,
                                requested_secret_lifetime_seconds:
                                    config.requested_secret_lifetime_seconds,
                                logging,
                                git_sync_resources,
                            },
                            config_overrides: inputs.config_overrides,
                            env_overrides: inputs.env_overrides,
                            pod_overrides: inputs.pod_overrides,
                        },
                    ),
                },
            },
        }
    }
}

/// The validated settings of some role groups, or the first reason for which they are not valid.
pub open spec fn role_groups_outcome(
    nifi: NifiClusterView,
    groups: Seq<(Seq<char>, RoleGroupView)>,
    inputs: Map<Seq<char>, RoleGroupInputsView>,
) -> Result<Map<Seq<char>, NifiRoleGroupConfigView>, ErrorView>
    decreases groups.len(),
{
    if groups.len() == 0 {
        Ok(Map::empty())
    } else {
        let (name, group) = groups.last();
        match role_groups_outcome(nifi, groups.drop_last(), inputs) {
            Err(error) => Err(error),
            Ok(configs) => match role_group_outcome(nifi, name, group, inputs[name]) {
                Err(error) => Err(error),
                Ok(config) => Ok(configs.insert(name, config)),
            },
        }
    }
}

/// Once a role group is not valid, further ones do not mend it.
proof fn lemma_failure_stays(
    nifi: NifiClusterView,
    groups: Seq<(Seq<char>, RoleGroupView)>,
    inputs: Map<Seq<char>, RoleGroupInputsView>,
    at: int,
)
    requires
        0 <= at <= groups.len(),
        role_groups_outcome(nifi, groups.take(at), inputs).is_err(),
    ensures
        role_groups_outcome(nifi, groups, inputs) == role_groups_outcome(
            nifi,
            groups.take(at),
            inputs,
        ),
    decreases groups.len() - at,
{
    if at == groups.len() {
        assert(groups.take(at) =~= groups);
    } else {
        assert(groups.take(at + 1).drop_last() =~= groups.take(at));
        lemma_failure_stays(nifi, groups, inputs, at + 1);
    }
}

/// The validated settings of a role group.
fn build_role_group_config(
    nifi: &NifiCluster,
    name: &str,
    replicas: Option<u16>,
    inputs: &RoleGroupInputs,
    Ghost(group): Ghost<RoleGroupView>,
) -> (result: Result<NifiRoleGroupConfig, Error>)
    requires
        nifi.spec.nodes.is_some(),
        group.replicas == replicas,
    ensures
        match result {
            Ok(config) => role_group_outcome(
                nifi.deep_view(),
                name@,
                group,
                inputs.deep_view(),
            ) == Ok::<NifiRoleGroupConfigView, ErrorView>(config.deep_view()),
            Err(error) => role_group_outcome(
                nifi.deep_view(),
                name@,
                group,
                inputs.deep_view(),
            ) == Err::<NifiRoleGroupConfigView, ErrorView>(error.deep_view()),
        },
{
    if !inputs.name_is_valid {
        return Err(Error::ParseRoleGroupName { role_group: name.to_owned() });
    }
    let config = match nifi.merged_config(&NifiRole::Node, name, &inputs.logging) {
        Ok(config) => config,
        Err(_) => {
            return Err(Error::ValidateRoleGroupConfig);
        },
    };
    if let Some(env_var) = &inputs.invalid_env_var_name {
        return Err(Error::ParseEnvVarName { name: env_var.copied() });
    }
    let logging = match validate_logging(
        config.logging.enable_vector_agent,
        &inputs.log_choices,
        &nifi.spec.cluster_config.vector_aggregator_config_map_name,
    ) {
        Ok(logging) => logging,
        Err(error) => {
            return Err(error);
        },
    };
    match &inputs.git_sync_resources {
        Some(git_sync_resources) => Ok(
            NifiRoleGroupConfig {
                replicas,
                config: ValidatedNifiConfig::from_merged(
                    config,
                    logging,
                    git_sync_resources.copied(),
                ),
                config_overrides: inputs.config_overrides.copied(),
                env_overrides: inputs.env_overrides.copied(),
                pod_overrides: inputs.pod_overrides.copied(),
            },
        ),
        None => Err(Error::BuildGitSyncResources),
    }
}

/// The validated settings of all role groups.
///
/// The inputs of each role group have to be given.
pub fn build_role_group_configs(
    nifi: &NifiCluster,
    inputs: &OrderedMap<RoleGroupInputs>,
) -> (result: Result<OrderedMap<NifiRoleGroupConfig>, Error>)
    requires
        nifi.deep_view().spec.nodes.is_some(),
        nifi.deep_view().spec.nodes.unwrap().role_groups.dom().subset_of(inputs@.dom()),
    ensures
        match result {
            Ok(configs) => role_groups_outcome(
                nifi.deep_view(),
                ordered_map::ordered_entries(nifi.deep_view().spec.nodes.unwrap().role_groups),
                inputs@,
            ) == Ok::<Map<Seq<char>, NifiRoleGroupConfigView>, ErrorView>(configs@),
            Err(error) => role_groups_outcome(
                nifi.deep_view(),
                ordered_map::ordered_entries(nifi.deep_view().spec.nodes.unwrap().role_groups),
                inputs@,
            ) == Err::<Map<Seq<char>, NifiRoleGroupConfigView>, ErrorView>(error.deep_view()),
        },
{
    let nodes = nifi.spec.nodes.as_ref().unwrap();
    let ghost model = nifi.deep_view();
    let ghost groups = ordered_map::ordered_entries(nodes.role_groups@);
    let mut configs: OrderedMap<NifiRoleGroupConfig> = OrderedMap::new();
    let count: usize = nodes.role_groups.len();
    let mut i: usize = 0;
    proof {
        assert(groups.take(0) =~= Seq::empty());
    }
    while i < count
        invariant
            i <= count,
            count == groups.len(),
            model == nifi.deep_view(),
            nifi.spec.nodes.is_some(),
            nodes == &nifi.spec.nodes.unwrap(),
            groups == ordered_map::ordered_entries(nodes.role_groups@),
            groups == ordered_map::ordered_entries(model.spec.nodes.unwrap().role_groups),
            nodes.role_groups@.dom().subset_of(inputs@.dom()),
            role_groups_outcome(model, groups.take(i as int), inputs@) == Ok::<
                Map<Seq<char>, NifiRoleGroupConfigView>,
                ErrorView,
            >(configs@),
        decreases count - i,
    {
        let (name, group) = nodes.role_groups.entry(i);
        proof {
            let next = groups.take(i + 1);
            assert(next.drop_last() =~= groups.take(i as int));
            assert(next.last() == groups[i as int]);
        }
        let group_inputs = inputs.get(name.as_str()).unwrap();
        match build_role_group_config(
            nifi,
            name.as_str(),
            group.replicas,
            group_inputs,
            Ghost(group.deep_view()),
        ) {
            Ok(config) => {
                configs.insert(name.as_str(), config);
            },
            Err(error) => {
                proof {
                    lemma_failure_stays(model, groups, inputs@, i + 1);
                }
                return Err(error);
            },
        }
        i = i + 1;
    }
    proof {
        assert(groups.take(i as int) =~= groups);
    }
    Ok(configs)
}

/// The validated settings of the whole cluster.
pub open spec fn cluster_config(
    nifi: NifiClusterView,
    authentication: NifiAuthenticationConfigView,
    authorization: ResolvedNifiAuthorizationConfigView,
) -> ValidatedClusterConfigView {
    let config = nifi.spec.cluster_config;
    ValidatedClusterConfigView {
        authentication,
        authorization,
        clustering_backend: config.clustering_backend,
        host_header_check: config.host_header_check,
        sensitive_properties: ValidatedSensitivePropertiesView {
            algorithm: match config.sensitive_properties.algorithm {
                Some(algorithm) => algorithm,
                None => NifiSensitiveKeyAlgorithm::NifiArgon2AesGcm256,
            },
            key_secret: config.sensitive_properties.key_secret,
            auto_generate: config.sensitive_properties.auto_generate,
        },
        server_tls_secret_class: config.tls.server_secret_class,
        extra_volumes: config.extra_volumes,
        reporting_task: config.create_reporting_task_job,
    }
}

/// The first reason for which a cluster is not valid.
pub open spec fn failure(nifi: NifiClusterView, inputs: ClusterInputsView) -> Option<ErrorView> {
    if inputs.image.is_none() {
        Some(ErrorView::ResolveProductImage)
    } else if inputs.cluster_name.is_none() {
        Some(ErrorView::GetClusterName)
    } else {
        match inputs.authentication {
            None => Some(ErrorView::InvalidAuthenticationConfig),
            Some(authentication) => match existing_secrets_failure(
                inputs.existing_secrets,
                nifi.spec.cluster_config.sensitive_properties,
                authentication,
                inputs.namespace,
            ) {
                Some(error) => Some(error),
                None => match validated_groups(nifi, inputs) {
                    Err(error) => Some(error),
                    Ok(_) => if inputs.uid.is_none() {
                        Some(ErrorView::GetUid)
                    } else if !inputs.product_version_is_valid {
                        Some(
                            ErrorView::ParseProductVersion {
                                product_version: inputs.image.unwrap().product_version,
                            },
                        )
                    } else {
                        None
                    },
                },
            },
        }
    }
}

/// The validated settings of all role groups, or why they are not valid.
pub open spec fn validated_groups(nifi: NifiClusterView, inputs: ClusterInputsView) -> Result<
    Map<Seq<char>, NifiRoleGroupConfigView>,
    ErrorView,
> {
    role_groups_outcome(
        nifi,
        ordered_map::ordered_entries(nifi.spec.nodes.unwrap().role_groups),
        inputs.role_groups,
    )
}

/// The validated cluster, where it is valid.
pub open spec fn validated_cluster(
    nifi: NifiClusterView,
    inputs: ClusterInputsView,
) -> ValidatedClusterView {
    let name = inputs.cluster_name.unwrap();
    let uid = inputs.uid.unwrap();
    let image = inputs.image.unwrap();
    let role_config = nifi.spec.nodes.unwrap().role_config;
    ValidatedClusterView {
        metadata: ObjectMetaView {
            name: Some(name),
            namespace: Some(inputs.namespace),
            uid: Some(uid),
            labels: Map::empty(),
            annotations: Map::empty(),
            owner_references: Seq::empty(),
        },
        name,
        namespace: inputs.namespace,
        cluster_domain: inputs.cluster_domain,
        uid,
        image,
        product_version: image.app_version_label_value,
        deployed_product_version: image.product_version,
        role_config: ValidatedRoleConfigView {
            pdb: role_config.pod_disruption_budget,
            listener_class: role_config.listener_class,
        },
        cluster_config: cluster_config(
            nifi,
            inputs.authentication.unwrap(),
            inputs.authorization,
        ),
        role_group_configs: validated_groups(nifi, inputs)->Ok_0,
        existing_secrets: inputs.existing_secrets,
    }
}

/// Validates a cluster.
///
/// The node role, and the inputs of each of its role groups, have to be given.
pub fn validate(nifi: &NifiCluster, inputs: &ClusterInputs) -> (result: Result<
    ValidatedCluster,
    Error,
>)
    requires
        nifi.deep_view().spec.nodes.is_some(),
        nifi.deep_view().spec.nodes.unwrap().role_groups.dom().subset_of(
            inputs.deep_view().role_groups.dom(),
        ),
    ensures
        match result {
            Ok(cluster) => failure(nifi.deep_view(), inputs.deep_view()).is_none()
                && cluster.deep_view() == validated_cluster(nifi.deep_view(), inputs.deep_view()),
            Err(error) => failure(nifi.deep_view(), inputs.deep_view()) == Some(
                error.deep_view(),
            ),
        },
{
    let image = match &inputs.image {
        Some(image) => image.copied(),
        None => {
            return Err(Error::ResolveProductImage);
        },
    };
    let name = match &inputs.cluster_name {
        Some(name) => name.copied(),
        None => {
            return Err(Error::GetClusterName);
        },
    };
    let authentication = match &inputs.authentication {
        Some(authentication) => authentication.copied(),
        None => {
            return Err(Error::InvalidAuthenticationConfig);
        },
    };
    let config = &nifi.spec.cluster_config;
    match validate_existing_secrets(
        &inputs.existing_secrets,
        &config.sensitive_properties,
        &authentication,
        inputs.namespace.as_str(),
    ) {
        Ok(()) => {},
        Err(error) => {
            return Err(error);
        },
    }
    let algorithm: NifiSensitiveKeyAlgorithm = match config.sensitive_properties.algorithm {
        Some(algorithm) => algorithm,
        None => NifiSensitiveKeyAlgorithm::default(),
    };
    let role_group_configs = match build_role_group_configs(nifi, &inputs.role_groups) {
        Ok(configs) => configs,
        Err(error) => {
            return Err(error);
        },
    };
    let node_role_config = nifi.role_config(&NifiRole::Node).unwrap();
    let role_config = ValidatedRoleConfig {
        pdb: node_role_config.pod_disruption_budget,
        listener_class: node_role_config.listener_class,
    };
    let uid = match &inputs.uid {
        Some(uid) => uid.copied(),
        None => {
            return Err(Error::GetUid);
        },
    };
    if !inputs.product_version_is_valid {
        return Err(Error::ParseProductVersion { product_version: image.product_version });
    }
    let product_version = image.app_version_label_value.copied();
    let deployed_product_version = image.product_version.copied();
    let cluster_config = ValidatedClusterConfig {
        authentication,
        authorization: inputs.authorization.copied(),
        clustering_backend: config.clustering_backend.copied(),
        host_header_check: config.host_header_check.copied(),
        sensitive_properties: ValidatedSensitiveProperties {
            algorithm,
            key_secret: config.sensitive_properties.key_secret.copied(),
            auto_generate: config.sensitive_properties.auto_generate,
        },
        server_tls_secret_class: nifi.server_tls_secret_class().to_owned(),
        extra_volumes: config.extra_volumes.copied(),
        reporting_task: config.create_reporting_task_job.copied(),
    };
    Ok(
        ValidatedCluster::new(
            name,
            inputs.namespace.copied(),
            inputs.cluster_domain.copied(),
            uid,
            image,
            product_version,
            deployed_product_version,
            role_config,
            role_group_configs,
            cluster_config,
            inputs.existing_secrets.copied(),
        ),
    )
}

/// Of a valid cluster, the Secret with the key of the sensitive properties either holds the key
/// or is generated.
pub proof fn law_sensitive_key_is_provided(nifi: NifiClusterView, inputs: ClusterInputsView)
    requires
        failure(nifi, inputs).is_none(),
    ensures
        match validated_cluster(nifi, inputs).existing_secrets.sensitive_key {
            Some(secret) => contains_key(secret, SENSITIVE_PROPERTY_KEY_NAME@),
            None => crate::controller::build::resource::secret::sensitive_key_is_due(
                validated_cluster(nifi, inputs),
            ),
        },
{
}

/// A valid cluster has exactly the role groups that its user describes.
pub proof fn law_no_role_group_is_lost(nifi: NifiClusterView, inputs: ClusterInputsView)
    requires
        failure(nifi, inputs).is_none(),
        nifi.spec.nodes.unwrap().role_groups.dom().finite(),
    ensures
        validated_cluster(nifi, inputs).role_group_configs.dom()
            == nifi.spec.nodes.unwrap().role_groups.dom(),
{
    let described = nifi.spec.nodes.unwrap().role_groups;
    let groups = ordered_map::ordered_entries(described);
    ordered_map::lemma_entries_in_order(described);
    assert forall|name: Seq<char>|
        validated_groups(nifi, inputs)->Ok_0.dom().contains(name)
            == described.dom().contains(name) by {
        lemma_groups_kept(nifi, groups, inputs.role_groups, name);
    }
    assert(validated_groups(nifi, inputs)->Ok_0.dom() =~= described.dom());
}

proof fn lemma_groups_kept(
    nifi: NifiClusterView,
    groups: Seq<(Seq<char>, RoleGroupView)>,
    inputs: Map<Seq<char>, RoleGroupInputsView>,
    name: Seq<char>,
)
    requires
        role_groups_outcome(nifi, groups, inputs).is_ok(),
    ensures
        role_groups_outcome(nifi, groups, inputs)->Ok_0.dom().contains(name)
            == ordered_map::as_map(groups).dom().contains(name),
    decreases groups.len(),
{
    if groups.len() > 0 {
        lemma_groups_kept(nifi, groups.drop_last(), inputs, name);
    }
}

} // verus!
