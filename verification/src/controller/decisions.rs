//! What a reconciliation decides: in which order it goes on, when nodes of another version may run,
//! what it fetches, and what a cluster has to look like.

use crate::controller::dereference;
use crate::controller::dereference::{RequestView, Stage};
use crate::controller::reconcile;
use crate::controller::reconcile::{ClusterVersionUpdateState, Step, UpdatePlanView};
use crate::controller::validate;
use crate::controller::validate::{
    ClusterInputsView, ContainerLogChoicesView, ErrorView, RoleGroupInputsView,
};
use crate::controller::{NifiRoleGroupConfigView, ValidatedClusterView, ValidatedLoggingView};
use crate::crd::authentication;
use crate::crd::authentication::{
    AuthenticationClassProviderView, AuthenticationClassResolvedView, AuthenticationClassView,
};
use crate::crd::merging;
use crate::crd::sensitive_properties::{
    NifiSensitiveKeyAlgorithm, NifiSensitivePropertiesConfigView,
};
use crate::crd::{
    ClientAuthenticationDetailsView, NifiClusterView, NifiRole, NifiStatusView, RoleGroupView,
};
use crate::kubernetes::SecretView;
use crate::ordered_map;
use crate::security::authentication::NifiAuthenticationConfigView;
use vstd::prelude::*;

verus! {

/// A reconciliation whose steps all succeed dereferences, validates, builds, applies and reports,
/// in this order, and is then finished. A step that fails ends it with the error of that very step.
pub proof fn law_steps_follow_each_other()
    ensures
        reconcile::step_after(Step::Start) == Step::Dereference,
        reconcile::step_after(Step::Dereference) == Step::Validate,
        reconcile::step_after(Step::Validate) == Step::Build,
        reconcile::step_after(Step::Build) == Step::Apply,
        reconcile::step_after(Step::Apply) == Step::UpdateStatus,
        reconcile::step_after(Step::UpdateStatus) == Step::Finished,
        reconcile::error_of(Step::Start) == reconcile::Error::InvalidNifiCluster,
        reconcile::error_of(Step::Dereference) == reconcile::Error::Dereference,
        reconcile::error_of(Step::Validate) == reconcile::Error::ValidateCluster,
        reconcile::error_of(Step::Build) == reconcile::Error::BuildResources,
        reconcile::error_of(Step::Apply) == reconcile::Error::ApplyResources,
        reconcile::error_of(Step::UpdateStatus) == reconcile::Error::UpdateStatus,
{
}

/// An update rolls exactly where both versions are 2.x. Else the nodes have to stop first while the
/// update goes on, and are asked to stop where it is requested; in all other cases the nodes that
/// the user wants run.
pub proof fn law_updates_roll_between_2_x_versions(
    version: Seq<char>,
    deployed: Option<Seq<char>>,
    requested: ClusterVersionUpdateState,
    replicas: Option<u16>,
)
    ensures
        ({
            let both_2 = "2."@.is_prefix_of(version) && deployed.is_some() && "2."@.is_prefix_of(
                deployed.unwrap(),
            );
            let in_progress = requested == ClusterVersionUpdateState::UpdateInProgress;
            let plan = reconcile::update_plan(version, deployed, requested);
            &&& (plan is Wait) <==> !both_2 && in_progress
            &&& plan matches UpdatePlanView::Proceed { state, rolling } ==> {
                &&& rolling <==> both_2
                &&& both_2 ==> state == ClusterVersionUpdateState::NoVersionChange
                &&& !both_2 ==> state == requested
                &&& !both_2 && requested == ClusterVersionUpdateState::UpdateRequested
                    ==> reconcile::replicas_of(state, replicas) == Some(0i32)
                &&& both_2 || requested != ClusterVersionUpdateState::UpdateRequested ==> (
                replicas.is_some() <==> reconcile::replicas_of(state, replicas).is_some()) && (
                replicas.is_some() ==> reconcile::replicas_of(state, replicas).unwrap()
                    == replicas.unwrap())
            }
        }),
{
}

/// While another version is requested the status keeps the version that runs; afterwards it reports
/// the new one.
pub proof fn law_status_reports_the_running_version(
    version: Seq<char>,
    status: Option<NifiStatusView>,
)
    ensures
        status.is_some() ==> reconcile::reported_version(
            ClusterVersionUpdateState::UpdateRequested,
            version,
            status,
        ) == status.unwrap().deployed_version,
        status.is_none() ==> reconcile::reported_version(
            ClusterVersionUpdateState::UpdateRequested,
            version,
            status,
        ) == None::<Seq<char>>,
        reconcile::reported_version(ClusterVersionUpdateState::UpdateInProgress, version, status)
            == Some(version),
        reconcile::reported_version(ClusterVersionUpdateState::NoVersionChange, version, status)
            == Some(version),
{
}

/// Kubernetes is asked for what the cluster refers to: its authentication classes, its
/// authorization, the Secret that it names for the key of the sensitive properties, and the Secret
/// with the password of the single user that is named after it; each in the namespace of the
/// cluster. Without a namespace nothing is asked for, and without a name no Secret.
pub proof fn law_references_of_the_cluster_are_fetched(
    nifi: NifiClusterView,
    namespace: Seq<char>,
    name: Option<Seq<char>>,
    stage: Stage,
)
    ensures
        dereference::stage_request(nifi, None, name, stage) == Err::<
            RequestView,
            dereference::ErrorView,
        >(dereference::ErrorView::GetNamespace),
        dereference::stage_request(nifi, Some(namespace), name, Stage::AuthenticationClasses)
            == Ok::<RequestView, dereference::ErrorView>(
            RequestView::AuthenticationClasses {
                details: nifi.spec.cluster_config.authentication,
            },
        ),
        dereference::stage_request(nifi, Some(namespace), name, Stage::Authorization) == Ok::<
            RequestView,
            dereference::ErrorView,
        >(
            RequestView::Authorization {
                authorization: nifi.spec.cluster_config.authorization,
                namespace,
            },
        ),
        dereference::stage_request(nifi, Some(namespace), name, Stage::Complete) == Ok::<
            RequestView,
            dereference::ErrorView,
        >(RequestView::Nothing),
        name.is_some() ==> dereference::stage_request(
            nifi,
            Some(namespace),
            name,
            Stage::SensitiveKey,
        ) == Ok::<RequestView, dereference::ErrorView>(
            RequestView::Secret {
                name: nifi.spec.cluster_config.sensitive_properties.key_secret,
                namespace,
            },
        ),
        name.is_some() ==> dereference::stage_request(
            nifi,
            Some(namespace),
            name,
            Stage::AdminPassword,
        ) == Ok::<RequestView, dereference::ErrorView>(
            RequestView::Secret { name: name.unwrap() + "-oidc-admin-password"@, namespace },
        ),
        name.is_none() && (stage == Stage::SensitiveKey || stage == Stage::AdminPassword)
            ==> dereference::stage_request(nifi, Some(namespace), name, stage) == Err::<
            RequestView,
            dereference::ErrorView,
        >(dereference::ErrorView::GetClusterName),
{
}

/// A request that fails is reported as what it asked for.
pub proof fn law_failed_requests_are_named(request: RequestView)
    ensures
        match request {
            RequestView::AuthenticationClasses { .. } => dereference::stage_error(request) == Some(
                dereference::ErrorView::DereferenceAuthenticationClasses,
            ),
            RequestView::Authorization { .. } => dereference::stage_error(request) == Some(
                dereference::ErrorView::DereferenceAuthorization,
            ),
            RequestView::Secret { name, .. } => dereference::stage_error(request) == Some(
                dereference::ErrorView::GetSecret { secret_name: name },
            ),
            RequestView::Nothing => dereference::stage_error(request) == None::<
                dereference::ErrorView,
            >,
        },
{
}

/// Whether a Secret holds a key.
pub open spec fn holds_key(secret: SecretView, key: Seq<char>) -> bool {
    secret.data.is_some() && exists|i: int|
        0 <= i < secret.data.unwrap().len() && (#[trigger] secret.data.unwrap()[i]).0 == key
}

/// A Secret with the key of the sensitive properties has to hold that key. Where there is none, it
/// has to be generated. Beside OpenID Connect, a Secret with the password of the single user has to
/// hold that password; otherwise it does not count.
pub proof fn law_existing_secrets_are_complete(
    sensitive_key: Option<SecretView>,
    admin_password: Option<SecretView>,
    properties: NifiSensitivePropertiesConfigView,
    authentication: NifiAuthenticationConfigView,
    namespace: Seq<char>,
)
    ensures
        ({
            let key = validate::sensitive_key_failure(sensitive_key, properties, namespace);
            let password = validate::admin_password_failure(admin_password, authentication);
            &&& sensitive_key.is_some() && holds_key(
                sensitive_key.unwrap(),
                "nifiSensitivePropsKey"@,
            ) ==> key == None::<ErrorView>
            &&& sensitive_key.is_some() && !holds_key(
                sensitive_key.unwrap(),
                "nifiSensitivePropsKey"@,
            ) ==> key == Some(
                ErrorView::SensitiveKeySecretIncomplete {
                    secret: sensitive_key.unwrap().metadata.name,
                },
            )
            &&& sensitive_key.is_none() && properties.auto_generate ==> key == None::<ErrorView>
            &&& sensitive_key.is_none() && !properties.auto_generate ==> key == Some(
                ErrorView::SensitiveKeySecretMissing { name: properties.key_secret, namespace },
            )
            &&& authentication is Oidc && admin_password.is_some() && !holds_key(
                admin_password.unwrap(),
                "admin"@,
            ) ==> password == Some(
                ErrorView::AdminPasswordSecretIncomplete {
                    secret: admin_password.unwrap().metadata.name,
                },
            )
            &&& !(authentication is Oidc) || admin_password.is_none() || holds_key(
                admin_password.unwrap(),
                "admin"@,
            ) ==> password == None::<ErrorView>
        }),
{
}

/// The log configuration is valid exactly where those of the nifi and of the prepare container are,
/// and, where the log agent is enabled, its own one is and the aggregator is named. It is then made
/// of just these.
pub proof fn law_log_configuration_is_complete(
    enabled: bool,
    choices: ContainerLogChoicesView,
    aggregator: Option<Seq<char>>,
)
    ensures
        ({
            let outcome = validate::logging_outcome(enabled, choices, aggregator);
            let own = choices.nifi.is_some() && choices.prepare.is_some();
            &&& outcome.is_ok() <==> own && (enabled ==> aggregator.is_some()
                && choices.vector.is_some())
            &&& own && enabled && aggregator.is_none() ==> outcome == Err::<
                ValidatedLoggingView,
                ErrorView,
            >(ErrorView::MissingVectorAggregatorConfigMapName)
            &&& !own || (enabled && aggregator.is_some() && choices.vector.is_none()) ==> outcome
                == Err::<ValidatedLoggingView, ErrorView>(ErrorView::ValidateLoggingConfig)
            &&& outcome matches Ok(logging) ==> {
                &&& choices.nifi == Some(logging.nifi_container)
                &&& choices.prepare == Some(logging.prepare_container)
                &&& logging.enable_vector_agent == enabled
                &&& logging.vector_container.is_some() <==> enabled
                &&& enabled ==> choices.vector == Some(
                    logging.vector_container.unwrap().log_config,
                ) && aggregator == Some(
                    logging.vector_container.unwrap().vector_aggregator_config_map_name,
                )
            }
        }),
{
}

/// A valid role group has the nodes that the user wants, the most specific of all its settings, the
/// merged overrides, and what synchronises its custom components.
pub proof fn law_role_group_keeps_its_settings(
    nifi: NifiClusterView,
    name: Seq<char>,
    group: RoleGroupView,
    inputs: RoleGroupInputsView,
    config: NifiRoleGroupConfigView,
)
    requires
        nifi.spec.nodes.is_some(),
        nifi.spec.nodes.unwrap().role_groups.dom().contains(name),
        validate::role_group_outcome(nifi, name, group, inputs) == Ok::<
            NifiRoleGroupConfigView,
            ErrorView,
        >(config),
    ensures
        inputs.name_is_valid,
        inputs.invalid_env_var_name.is_none(),
        inputs.logging.enable_vector_agent.is_some(),
        config.replicas == group.replicas,
        config.config_overrides == inputs.config_overrides,
        config.env_overrides == inputs.env_overrides,
        config.pod_overrides == inputs.pod_overrides,
        inputs.git_sync_resources == Some(config.config.git_sync_resources),
        validate::logging_outcome(
            inputs.logging.enable_vector_agent.unwrap(),
            inputs.log_choices,
            nifi.spec.cluster_config.vector_aggregator_config_map_name,
        ) == Ok::<ValidatedLoggingView, ErrorView>(config.config.logging),
        ({
            let merged = merging::settings_of(nifi, NifiRole::Node, name, inputs.logging);
            &&& merging::settings_are_most_specific(
                merged,
                nifi.spec.nodes.unwrap().role_groups[name].config,
                nifi.spec.nodes.unwrap().config,
            )
            &&& config.config.resources == merged.resources
            &&& config.config.affinity == merged.affinity
            &&& config.config.graceful_shutdown_timeout_seconds
                == merged.graceful_shutdown_timeout_seconds
            &&& config.config.requested_secret_lifetime_seconds
                == merged.requested_secret_lifetime_seconds
        }),
{
    merging::law_more_specific_settings_win(nifi, NifiRole::Node, name, inputs.logging);
}

/// A role group is refused for an invalid name, for log settings that do not say whether the agent
/// runs, for an invalid variable, for its log configuration, and for what synchronises its
/// components; for nothing else, and for the first of these that holds.
pub proof fn law_role_group_is_refused_for_these_reasons(
    nifi: NifiClusterView,
    name: Seq<char>,
    group: RoleGroupView,
    inputs: RoleGroupInputsView,
)
    ensures
        ({
            let outcome = validate::role_group_outcome(nifi, name, group, inputs);
            let decided = inputs.name_is_valid && inputs.logging.enable_vector_agent.is_some();
            let named = decided && inputs.invalid_env_var_name.is_none();
            let logging = validate::logging_outcome(
                inputs.logging.enable_vector_agent.unwrap(),
                inputs.log_choices,
                nifi.spec.cluster_config.vector_aggregator_config_map_name,
            );
            &&& !inputs.name_is_valid ==> outcome == Err::<NifiRoleGroupConfigView, ErrorView>(
                ErrorView::ParseRoleGroupName { role_group: name },
            )
            &&& inputs.name_is_valid && !decided ==> outcome == Err::<
                NifiRoleGroupConfigView,
                ErrorView,
            >(ErrorView::ValidateRoleGroupConfig)
            &&& decided && !named ==> outcome == Err::<NifiRoleGroupConfigView, ErrorView>(
                ErrorView::ParseEnvVarName { name: inputs.invalid_env_var_name.unwrap() },
            )
            &&& named && logging.is_err() ==> outcome == Err::<NifiRoleGroupConfigView, ErrorView>(
                logging->Err_0,
            )
            &&& named && logging.is_ok() && inputs.git_sync_resources.is_none() ==> outcome
                == Err::<NifiRoleGroupConfigView, ErrorView>(ErrorView::BuildGitSyncResources)
            &&& named && logging.is_ok() && inputs.git_sync_resources.is_some() ==> outcome.is_ok()
        }),
{
}

/// A valid cluster is what its user describes, with the names under which Kubernetes knows it, the
/// image that was resolved, and the authentication and authorization that were fetched.
pub proof fn law_valid_cluster_is_the_described_one(
    nifi: NifiClusterView,
    inputs: ClusterInputsView,
    cluster: ValidatedClusterView,
)
    requires
        validate::failure(nifi, inputs).is_none(),
        cluster == validate::validated_cluster(nifi, inputs),
    ensures
        inputs.cluster_name == Some(cluster.name),
        inputs.uid == Some(cluster.uid),
        inputs.image == Some(cluster.image),
        cluster.namespace == inputs.namespace,
        cluster.cluster_domain == inputs.cluster_domain,
        cluster.product_version == cluster.image.app_version_label_value,
        cluster.deployed_product_version == cluster.image.product_version,
        inputs.authentication == Some(cluster.cluster_config.authentication),
        cluster.cluster_config.authorization == inputs.authorization,
        cluster.existing_secrets == inputs.existing_secrets,
        ({
            let described = nifi.spec.cluster_config;
            let config = cluster.cluster_config;
            &&& config.clustering_backend == described.clustering_backend
            &&& config.host_header_check == described.host_header_check
            &&& config.server_tls_secret_class == described.tls.server_secret_class
            &&& config.extra_volumes == described.extra_volumes
            &&& config.reporting_task == described.create_reporting_task_job
            &&& config.sensitive_properties.key_secret == described.sensitive_properties.key_secret
            &&& config.sensitive_properties.auto_generate
                == described.sensitive_properties.auto_generate
            &&& described.sensitive_properties.algorithm.is_some()
                ==> described.sensitive_properties.algorithm == Some(
                config.sensitive_properties.algorithm,
            )
            &&& described.sensitive_properties.algorithm.is_none()
                ==> config.sensitive_properties.algorithm
                == NifiSensitiveKeyAlgorithm::NifiArgon2AesGcm256
        }),
        cluster.role_config.pdb == nifi.spec.nodes.unwrap().role_config.pod_disruption_budget,
        cluster.role_config.listener_class
            == nifi.spec.nodes.unwrap().role_config.listener_class,
{
}

/// Each role group of a valid cluster is the validated one of its name.
pub proof fn law_role_groups_are_validated_one_by_one(
    nifi: NifiClusterView,
    inputs: ClusterInputsView,
    name: Seq<char>,
)
    requires
        validate::failure(nifi, inputs).is_none(),
        nifi.spec.nodes.unwrap().role_groups.dom().finite(),
        nifi.spec.nodes.unwrap().role_groups.dom().contains(name),
    ensures
        validate::validated_cluster(nifi, inputs).role_group_configs.dom().contains(name),
        validate::role_group_outcome(
            nifi,
            name,
            nifi.spec.nodes.unwrap().role_groups[name],
            inputs.role_groups[name],
        ) == Ok::<NifiRoleGroupConfigView, ErrorView>(
            validate::validated_cluster(nifi, inputs).role_group_configs[name],
        ),
{
    let described = nifi.spec.nodes.unwrap().role_groups;
    let groups = ordered_map::ordered_entries(described);
    ordered_map::lemma_entries_in_order(described);
    lemma_group(nifi, groups, inputs.role_groups, name);
}

/// The settings of a role group that is among some are the validated ones.
proof fn lemma_group(
    nifi: NifiClusterView,
    groups: Seq<(Seq<char>, RoleGroupView)>,
    inputs: Map<Seq<char>, RoleGroupInputsView>,
    name: Seq<char>,
)
    requires
        validate::role_groups_outcome(nifi, groups, inputs).is_ok(),
        ordered_map::as_map(groups).dom().contains(name),
    ensures
        ({
            let configs = validate::role_groups_outcome(nifi, groups, inputs)->Ok_0;
            &&& configs.dom().contains(name)
            &&& validate::role_group_outcome(
                nifi,
                name,
                ordered_map::as_map(groups)[name],
                inputs[name],
            ) == Ok::<NifiRoleGroupConfigView, ErrorView>(configs[name])
        }),
    decreases groups.len(),
{
    if groups.len() > 0 && groups.last().0 != name {
        lemma_group(nifi, groups.drop_last(), inputs, name);
    }
}

/// A cluster is refused without an image, a name, a valid authentication, complete Secrets, valid
/// role groups, a UID or a valid version; for nothing else, and for the first of these that holds.
pub proof fn law_cluster_is_refused_for_these_reasons(
    nifi: NifiClusterView,
    inputs: ClusterInputsView,
)
    ensures
        ({
            let failure = validate::failure(nifi, inputs);
            let known = inputs.image.is_some() && inputs.cluster_name.is_some();
            let authenticated = known && inputs.authentication.is_some();
            let key = validate::sensitive_key_failure(
                inputs.existing_secrets.sensitive_key,
                nifi.spec.cluster_config.sensitive_properties,
                inputs.namespace,
            );
            let password = validate::admin_password_failure(
                inputs.existing_secrets.oidc_admin_password,
                inputs.authentication.unwrap(),
            );
            let secured = authenticated && key.is_none() && password.is_none();
            let groups = validate::validated_groups(nifi, inputs);
            let grouped = secured && groups.is_ok();
            &&& inputs.image.is_none() ==> failure == Some(ErrorView::ResolveProductImage)
            &&& inputs.image.is_some() && !known ==> failure == Some(ErrorView::GetClusterName)
            &&& known && !authenticated ==> failure == Some(ErrorView::InvalidAuthenticationConfig)
            &&& authenticated && key.is_some() ==> failure == key
            &&& authenticated && key.is_none() && password.is_some() ==> failure == password
            &&& secured && groups.is_err() ==> failure == Some(groups->Err_0)
            &&& grouped && inputs.uid.is_none() ==> failure == Some(ErrorView::GetUid)
            &&& grouped && inputs.uid.is_some() && !inputs.product_version_is_valid ==> failure
                == Some(
                ErrorView::ParseProductVersion {
                    product_version: inputs.image.unwrap().product_version,
                },
            )
            &&& grouped && inputs.uid.is_some() && inputs.product_version_is_valid ==> failure
                == None::<ErrorView>
        }),
{
}

/// One class, and only one, is used: users with passwords as they are; an LDAP unless it uses TLS
/// without verifying it; an OpenID Connect provider with the Secret of its client, where the user
/// names one and the product is supported; and no other provider.
pub proof fn law_only_supported_classes_are_used(
    details: Seq<ClientAuthenticationDetailsView>,
    fetched: Option<AuthenticationClassView>,
    check_hint: bool,
)
    ensures
        ({
            let outcome = authentication::resolution(details, fetched, check_hint);
            let class = fetched.unwrap();
            &&& details.len() == 0 ==> outcome == Err::<
                Seq<AuthenticationClassResolvedView>,
                authentication::ErrorView,
            >(authentication::ErrorView::NoAuthenticationNotSupported)
            &&& details.len() > 1 ==> outcome == Err::<
                Seq<AuthenticationClassResolvedView>,
                authentication::ErrorView,
            >(authentication::ErrorView::MultipleAuthenticationClassesNotSupported)
            &&& details.len() == 1 && fetched.is_none() ==> outcome == Err::<
                Seq<AuthenticationClassResolvedView>,
                authentication::ErrorView,
            >(authentication::ErrorView::AuthenticationClassRetrievalFailed)
            &&& outcome matches Ok(resolved) ==> resolved.len() == 1
            &&& details.len() == 1 && fetched.is_some() ==> match class.provider {
                AuthenticationClassProviderView::Static { provider } => outcome.is_ok()
                    && outcome->Ok_0[0] == (AuthenticationClassResolvedView::Static { provider }),
                AuthenticationClassProviderView::Ldap { provider, verifies_tls } => {
                    &&& outcome.is_ok() <==> !provider.uses_tls || verifies_tls
                    &&& outcome.is_ok() ==> outcome->Ok_0[0] == (
                    AuthenticationClassResolvedView::Ldap { provider })
                    &&& outcome.is_err() ==> outcome->Err_0 == (
                    authentication::ErrorView::NoLdapTlsVerificationNotSupported {
                        authentication_class: class.name,
                    })
                },
                AuthenticationClassProviderView::Oidc { provider, provider_hint } => {
                    let unsupported = check_hint && provider_hint.is_some()
                        && provider_hint.unwrap() != "Keycloak"@;
                    let secret = details[0].oidc_client_credentials_secret;
                    &&& outcome.is_ok() <==> !unsupported && secret.is_some()
                    &&& outcome.is_ok() ==> outcome->Ok_0[0] == (
                    AuthenticationClassResolvedView::Oidc {
                        provider,
                        client_credentials_secret: secret.unwrap(),
                    })
                    &&& unsupported ==> outcome->Err_0 is OidcProviderNotSupported
                    &&& !unsupported && secret.is_none() ==> outcome->Err_0
                        == authentication::ErrorView::OidcConfigurationInvalid
                },
                AuthenticationClassProviderView::Other { name } => outcome == Err::<
                    Seq<AuthenticationClassResolvedView>,
                    authentication::ErrorView,
                >(
                    authentication::ErrorView::AuthenticationClassProviderNotSupported {
                        authentication_class_provider: name,
                        authentication_class: class.name,
                    },
                ),
            }
        }),
{
}

} // verus!
