//! What the objects of a role group hold that are built straight from the definition of a cluster.

use crate::controller::build::properties;
use crate::controller::build::properties::bootstrap_conf;
use crate::controller::build::properties::nifi_properties;
use crate::controller::build::properties::nifi_properties::NifiSettingsView;
use crate::controller::build::properties::state_management_xml;
use crate::controller::build::resource::config_files;
use crate::controller::build::resource::listener;
use crate::controller::build::resource::node_pod;
use crate::controller::build::resource::node_pod::ShellSnippetsView;
use crate::controller::build::resource::pod_contents;
use crate::controller::build::resource::pod_scripts;
use crate::controller::build::resource::role_group;
use crate::controller::rolegroup;
use crate::controller::rolegroup::{ErrorView, RenderedFilesView, RoleGroupPropertiesView};
use crate::controller::{GitSyncResourcesView, ResolvedProductImageView};
use crate::crd::sensitive_properties::NifiSensitiveKeyAlgorithm;
use crate::crd::{
    ContainerLogConfigChoiceView, LoggingView, NifiClusterView, NifiConfigView, NodeRoleView,
    RoleGroupRefView,
};
use crate::framework::writer::PropertiesWriterError;
use crate::kubernetes::{
    ConfigMapView, EnvVarView, ListenerView, ObjectMetaView, ResourceRequirementsView, SecretFormat,
    StatefulSetView, VectorSidecarView, VolumeSourceView, VolumeView,
};
use crate::security::authentication::NifiAuthenticationConfigView;
use crate::text;
use vstd::prelude::*;

verus! {

/// Whether an object has a name, lies in the namespace of the cluster, and goes when the cluster
/// goes.
pub open spec fn belongs_to(metadata: ObjectMetaView, nifi: NifiClusterView, name: Seq<char>) -> bool {
    &&& metadata.name == Some(name)
    &&& metadata.namespace == nifi.metadata.namespace
    &&& metadata.owner_references.len() == 1
    &&& metadata.owner_references[0].kind == "NifiCluster"@
    &&& metadata.owner_references[0].api_version == "nifi.stackable.tech/v1alpha1"@
    &&& nifi.metadata.name == Some(metadata.owner_references[0].name)
    &&& nifi.metadata.uid == Some(metadata.owner_references[0].uid)
    &&& metadata.owner_references[0].controller == Some(true)
}

/// The choice that the user makes for the logs of a container, where they make one.
pub open spec fn log_choice(
    logging: LoggingView,
    container: Seq<char>,
) -> Option<ContainerLogConfigChoiceView> {
    if logging.containers.dom().contains(container) {
        logging.containers[container].choice
    } else {
        None
    }
}

/// The StatefulSet belongs to the cluster, is named after the role group, finds exactly its pods,
/// names its headless Service, and has the nodes that are asked for.
pub proof fn law_stateful_set_runs_the_defined_role_group(
    nifi: NifiClusterView,
    rolegroup: RoleGroupRefView,
    properties: RoleGroupPropertiesView,
    config: NifiConfigView,
    rolling_update_supported: bool,
    replicas: Option<i32>,
    pod: node_pod::NodePodView,
    set: StatefulSetView,
)
    requires
        rolegroup::stateful_set_outcome(
            nifi,
            rolegroup,
            properties,
            config,
            rolling_update_supported,
            replicas,
            pod,
        ) == Ok::<StatefulSetView, ErrorView>(set),
    ensures
        ({
            let name = rolegroup.cluster + "-"@ + rolegroup.role + "-"@ + rolegroup.role_group;
            &&& belongs_to(set.metadata, nifi, name)
            &&& set.metadata.labels == pod.labels
            &&& role_group::finds(
                set.selector,
                nifi.name_or_empty(),
                rolegroup.role,
                Some(rolegroup.role_group),
            )
            &&& set.service_name == Some(name + "-headless"@)
            &&& set.replicas == replicas
            &&& set.pod_management_policy == Some("Parallel"@)
            &&& set.update_strategy == Some(
                if rolling_update_supported {
                    "RollingUpdate"@
                } else {
                    "OnDelete"@
                },
            )
            &&& pod.outcome() == Ok::<crate::kubernetes::PodTemplateView, node_pod::Error>(
                set.template,
            )
        }),
{
    role_group::lemma_label_names();
}

/// The StatefulSet is refused where the product configuration has no environment variables, where
/// the cluster has no namespace, where the pods cannot be built, and where the cluster has no name
/// or no UID; for nothing else, and for the first of these that holds.
pub proof fn law_stateful_set_is_refused_for_these_reasons(
    nifi: NifiClusterView,
    rolegroup: RoleGroupRefView,
    properties: RoleGroupPropertiesView,
    config: NifiConfigView,
    rolling_update_supported: bool,
    replicas: Option<i32>,
    pod: node_pod::NodePodView,
    error: ErrorView,
)
    ensures
        ({
            let has_variables = properties.env.is_some();
            let has_namespace = has_variables && nifi.metadata.namespace.is_some();
            let owns = nifi.metadata.name.is_some() && nifi.metadata.uid.is_some();
            (rolegroup::stateful_set_outcome(
                nifi,
                rolegroup,
                properties,
                config,
                rolling_update_supported,
                replicas,
                pod,
            ) == Err::<StatefulSetView, ErrorView>(error)) <==> {
                ||| !has_variables && error == (ErrorView::ProductConfigKindNotSpecified {
                    kind: "ENV"@,
                })
                ||| has_variables && nifi.metadata.namespace.is_none() && error
                    == ErrorView::ObjectHasNoNamespace
                ||| has_namespace && pod.outcome().is_err() && error == (ErrorView::Pod {
                    source: pod.outcome()->Err_0,
                })
                ||| has_namespace && pod.outcome().is_ok() && !owns && error
                    == ErrorView::ObjectMissingMetadataForOwnerRef
            }
        }),
{
}

/// The pods run what the definition says: the image, the settings of the role group, the ConfigMap
/// of the role group, the key Secret and the SecretClass of the cluster. The user's pod overrides
/// of the role are merged first, and those of the role group over them.
pub proof fn law_pods_run_the_defined_role_group(
    nifi: NifiClusterView,
    image: ResolvedProductImageView,
    cluster_domain: Seq<char>,
    rolegroup: RoleGroupRefView,
    role: NodeRoleView,
    env: Map<Seq<char>, Seq<char>>,
    config: NifiConfigView,
    authentication: NifiAuthenticationConfigView,
    authorization_env_vars: Seq<EnvVarView>,
    service_account_name: Seq<char>,
    git_sync: GitSyncResourcesView,
    snippets: ShellSnippetsView,
    log_agent_is_valid: bool,
)
    requires
        rolegroup::rolegroup_pod(
            nifi,
            image,
            cluster_domain,
            rolegroup,
            role,
            env,
            config,
            authentication,
            authorization_env_vars,
            service_account_name,
            git_sync,
            snippets,
            log_agent_is_valid,
        ).outcome().is_ok(),
    ensures
        ({
            let template = rolegroup::rolegroup_pod(
                nifi,
                image,
                cluster_domain,
                rolegroup,
                role,
                env,
                config,
                authentication,
                authorization_env_vars,
                service_account_name,
                git_sync,
                snippets,
                log_agent_is_valid,
            ).outcome()->Ok_0;
            let own_name = rolegroup.cluster + "-"@ + rolegroup.role + "-"@ + rolegroup.role_group;
            let cluster_config = nifi.spec.cluster_config;
            let container = pod_contents::nifi_container(template);
            let prepare = pod_contents::prepare_container(template);
            &&& role_group::tells_whose(
                template.metadata.labels,
                nifi.name_or_empty(),
                image.app_version_label_value,
                rolegroup.role,
                rolegroup.role_group,
            )
            &&& container.name == "nifi"@ && prepare.name == "prepare"@
            &&& container.image == Some(image.image) && prepare.image == Some(image.image)
            &&& container.resources.is_some()
            &&& container.resources.unwrap().cpu_request == config.resources.cpu_min
            &&& container.resources.unwrap().cpu_limit == config.resources.cpu_max
            &&& container.resources.unwrap().memory_request == config.resources.memory_limit
            &&& container.resources.unwrap().memory_limit == config.resources.memory_limit
            &&& pod_contents::mounts_repositories(container)
            &&& pod_contents::mounts_repositories(prepare)
            &&& template.service_account_name == Some(service_account_name)
            &&& template.affinity == Some(config.affinity)
            &&& config.graceful_shutdown_timeout_seconds.is_some()
                ==> template.termination_grace_period_seconds.is_some()
                && template.termination_grace_period_seconds.unwrap()
                == config.graceful_shutdown_timeout_seconds.unwrap()
            &&& template.overrides.len() > 0 && template.overrides[0] == role.pod_overrides
            &&& role.role_groups.dom().contains(rolegroup.role_group) ==> template.overrides.len()
                == 2 && template.overrides[1]
                == role.role_groups[rolegroup.role_group].pod_overrides
            &&& !role.role_groups.dom().contains(rolegroup.role_group) ==> template.overrides.len()
                == 1
            &&& template.volumes.contains(
                VolumeView {
                    name: "conf"@,
                    source: VolumeSourceView::ConfigMap { name: own_name },
                },
            )
            &&& template.volumes.contains(
                VolumeView {
                    name: "log-config"@,
                    source: VolumeSourceView::ConfigMap {
                        name: match log_choice(config.logging, "nifi"@) {
                            Some(ContainerLogConfigChoiceView::Custom { config_map }) => config_map,
                            _ => own_name,
                        },
                    },
                },
            )
            &&& template.volumes.contains(
                VolumeView {
                    name: "sensitiveproperty"@,
                    source: VolumeSourceView::Secret {
                        secret_name: cluster_config.sensitive_properties.key_secret,
                        optional: None,
                        items: Seq::empty(),
                    },
                },
            )
            &&& config.requested_secret_lifetime_seconds.is_some()
            &&& template.volumes.contains(
                VolumeView {
                    name: "keystore"@,
                    source: VolumeSourceView::Tls {
                        secret_class: cluster_config.tls.server_secret_class,
                        service_scopes: seq![nifi.name_or_empty() + "-"@ + "reporting-task"@],
                        format: SecretFormat::TlsPkcs12,
                        requested_lifetime_seconds:
                            config.requested_secret_lifetime_seconds.unwrap(),
                        listener_scope: Some("listener"@),
                    },
                },
            )
            &&& config.logging.enable_vector_agent
                ==> cluster_config.vector_aggregator_config_map_name.is_some()
                && log_agent_is_valid && pod_scripts::runs_log_agent(
                template,
                VectorSidecarView {
                    container_name: "vector"@,
                    image: image.image,
                    image_pull_policy: image.image_pull_policy,
                    aggregator_config_map_name:
                        cluster_config.vector_aggregator_config_map_name.unwrap(),
                    custom_log_config_map: match log_choice(config.logging, "vector"@) {
                        Some(ContainerLogConfigChoiceView::Custom { config_map }) => Some(
                            config_map,
                        ),
                        _ => None,
                    },
                    log_config_volume: "config"@,
                    log_volume: "log"@,
                    resources: Some(
                        ResourceRequirementsView {
                            cpu_request: Some("250m"@),
                            cpu_limit: Some("500m"@),
                            memory_request: Some("128Mi"@),
                            memory_limit: Some("128Mi"@),
                        },
                    ),
                    extra_mounts: Seq::empty(),
                },
            )
        }),
{
    let pod = rolegroup::rolegroup_pod(
        nifi,
        image,
        cluster_domain,
        rolegroup,
        role,
        env,
        config,
        authentication,
        authorization_env_vars,
        service_account_name,
        git_sync,
        snippets,
        log_agent_is_valid,
    );
    role_group::law_labels_tell_whose_an_object_is(
        nifi.name_or_empty(),
        image.app_version_label_value,
        rolegroup.role,
        rolegroup.role_group,
    );
    pod_contents::law_containers_have_their_resources(pod);
    pod_contents::law_repositories_are_mounted(pod);
    pod_contents::law_volumes_hold_what_is_mounted(pod);
    pod_contents::law_pods_are_scheduled_as_wanted(pod);
    if config.logging.enable_vector_agent {
        pod_scripts::lemma_log_agent(pod);
    }
}

/// The prepare container tells NiFi the address of its node below the headless Service of the role
/// group, puts in the credentials of the authentication, and captures its output exactly where its
/// log configuration is automatic.
pub proof fn law_defined_nodes_are_prepared(
    nifi: NifiClusterView,
    image: ResolvedProductImageView,
    cluster_domain: Seq<char>,
    rolegroup: RoleGroupRefView,
    role: NodeRoleView,
    env: Map<Seq<char>, Seq<char>>,
    config: NifiConfigView,
    authentication: NifiAuthenticationConfigView,
    authorization_env_vars: Seq<EnvVarView>,
    service_account_name: Seq<char>,
    git_sync: GitSyncResourcesView,
    snippets: ShellSnippetsView,
    log_agent_is_valid: bool,
    i: int,
) -> (commands: Seq<Seq<char>>)
    requires
        nifi.metadata.namespace.is_some(),
        rolegroup::rolegroup_pod(
            nifi,
            image,
            cluster_domain,
            rolegroup,
            role,
            env,
            config,
            authentication,
            authorization_env_vars,
            service_account_name,
            git_sync,
            snippets,
            log_agent_is_valid,
        ).outcome().is_ok(),
    ensures
        ({
            let template = rolegroup::rolegroup_pod(
                nifi,
                image,
                cluster_domain,
                rolegroup,
                role,
                env,
                config,
                authentication,
                authorization_env_vars,
                service_account_name,
                git_sync,
                snippets,
                log_agent_is_valid,
            ).outcome()->Ok_0;
            let own_name = rolegroup.cluster + "-"@ + rolegroup.role + "-"@ + rolegroup.role_group;
            let variables = pod_contents::nifi_container(template).env;
            &&& pod_contents::prepare_container(template).args == seq![
                text::joined(commands, " && "@),
            ]
            &&& pod_scripts::runs_before(
                commands,
                "export NODE_ADDRESS=\"$POD_NAME."@ + (own_name + "-headless"@) + "."@
                    + nifi.metadata.namespace.unwrap() + ".svc."@ + cluster_domain + "\""@,
                "config-utils template /stackable/nifi/conf/nifi.properties"@,
            )
            &&& log_choice(config.logging, "prepare"@) is Some && log_choice(
                config.logging,
                "prepare"@,
            ).unwrap() is Automatic ==> commands[0] == snippets.capture_prepare_output
            &&& commands.len() == 17 + authentication.additional_container_args().len() + (
            if log_choice(config.logging, "prepare"@) is Some && log_choice(
                config.logging,
                "prepare"@,
            ).unwrap() is Automatic {
                1int
            } else {
                0
            })
            &&& 0 <= i < authentication.additional_container_args().len() ==> commands.contains(
                authentication.additional_container_args()[i],
            )
            &&& 0 <= i < authentication.env_vars().len() ==> variables.contains(
                authentication.env_vars()[i],
            )
            &&& 0 <= i < authorization_env_vars.len() ==> variables.contains(
                authorization_env_vars[i],
            )
            &&& 0 <= i < authentication.volumes().len() ==> template.volumes.contains(
                authentication.volumes()[i],
            )
            &&& 0 <= i < git_sync.git_content_volumes.len() ==> template.volumes.contains(
                git_sync.git_content_volumes[i],
            )
        }),
{
    let pod = rolegroup::rolegroup_pod(
        nifi,
        image,
        cluster_domain,
        rolegroup,
        role,
        env,
        config,
        authentication,
        authorization_env_vars,
        service_account_name,
        git_sync,
        snippets,
        log_agent_is_valid,
    );
    pod_scripts::law_references_are_resolved(pod, i);
    pod_scripts::law_configuration_is_prepared(pod);
    pod_contents::law_credentials_and_components_are_mounted(pod, i);
    pod_contents::law_containers_have_their_variables(pod, Seq::empty(), i);
    pod.prepare_commands()
}

/// The files hold the settings of the cluster and of the role group, and the properties of the
/// user, each in its file. The ConfigMap belongs to the cluster and is named after the role group.
pub proof fn law_files_hold_the_defined_settings(
    nifi: NifiClusterView,
    image: ResolvedProductImageView,
    authentication: NifiAuthenticationConfigView,
    rolegroup: RoleGroupRefView,
    properties: RoleGroupPropertiesView,
    config: NifiConfigView,
    proxy_hosts: Seq<char>,
    git_sync: GitSyncResourcesView,
    files: RenderedFilesView,
    security: Option<Seq<char>>,
    map: ConfigMapView,
)
    requires
        rolegroup::config_map_outcome(
            nifi,
            image,
            authentication,
            rolegroup,
            properties,
            config,
            proxy_hosts,
            git_sync,
            files,
            security,
        ) == Ok::<ConfigMapView, ErrorView>(map),
    ensures
        ({
            let cluster_config = nifi.spec.cluster_config;
            let settings = NifiSettingsView {
                product_version: image.product_version,
                storage: config.resources.storage,
                clustering_backend: cluster_config.clustering_backend,
                sensitive_properties_algorithm: if
                    cluster_config.sensitive_properties.algorithm.is_some() {
                    cluster_config.sensitive_properties.algorithm.unwrap()
                } else {
                    NifiSensitiveKeyAlgorithm::NifiArgon2AesGcm256
                },
                authentication,
                git_content_folders: git_sync.git_content_folders,
                overrides: properties.files["nifi.properties"@],
            };
            let nifi_logs_are_built = log_choice(config.logging, "nifi"@) is Some && log_choice(
                config.logging,
                "nifi"@,
            ).unwrap() is Automatic;
            &&& belongs_to(
                map.metadata,
                nifi,
                rolegroup.cluster + "-"@ + rolegroup.role + "-"@ + rolegroup.role_group,
            )
            &&& role_group::tells_whose(
                map.metadata.labels,
                nifi.name_or_empty(),
                image.app_version_label_value,
                rolegroup.role,
                rolegroup.role_group,
            )
            &&& map.data["bootstrap.conf"@] == properties::properties_text(
                bootstrap_conf::bootstrap_properties(
                    config.graceful_shutdown_timeout_seconds,
                    files.jvm_arguments.unwrap(),
                    properties.files["bootstrap.conf"@],
                ),
            )
            &&& map.data["nifi.properties"@] == properties::properties_text(
                nifi_properties::nifi_properties(settings, proxy_hosts, files.quotas),
            )
            &&& map.data["state-management.xml"@] == state_management_xml::state_management_file(
                cluster_config.clustering_backend,
            )
            &&& map.data["login-identity-providers.xml"@]
                == authentication.login_identity_providers()
            &&& files.authorizers_xml == Some(map.data["authorizers.xml"@])
            &&& security == Some(map.data["security.properties"@])
            &&& nifi_logs_are_built ==> map.data["logback.xml"@] == files.logback_config
            &&& config.logging.enable_vector_agent ==> map.data["vector.yaml"@]
                == files.vector_config
            &&& forall|file: Seq<char>| #[trigger]
                map.data.dom().contains(file) <==> file == "bootstrap.conf"@ || file
                    == "nifi.properties"@ || file == "state-management.xml"@ || file
                    == "login-identity-providers.xml"@ || file == "authorizers.xml"@ || file
                    == "security.properties"@ || (file == "logback.xml"@ && nifi_logs_are_built)
                    || (file == "vector.yaml"@ && config.logging.enable_vector_agent)
        }),
{
    config_files::lemma_file_names();
    role_group::law_labels_tell_whose_an_object_is(
        nifi.name_or_empty(),
        image.app_version_label_value,
        rolegroup.role,
        rolegroup.role_group,
    );
}

/// The ConfigMap is refused for authorizers that are invalid, for a cluster without a name or a
/// UID, for files of which the product configuration says nothing, for arguments of the JVM that
/// cannot be merged, for properties that cannot be built, and for security properties that are no
/// text; for nothing else, and for the first of these that holds.
pub proof fn law_files_are_refused_for_these_defined_reasons(
    nifi: NifiClusterView,
    settings: NifiSettingsView,
    rolegroup: RoleGroupRefView,
    properties: RoleGroupPropertiesView,
    files: RenderedFilesView,
    security: Option<Seq<char>>,
)
    ensures
        ({
            let failure = rolegroup::config_map_failure(
                nifi,
                settings,
                rolegroup,
                properties,
                files,
                security,
            );
            let authorized = files.authorizers_xml.is_some();
            let owns = authorized && nifi.metadata.name.is_some() && nifi.metadata.uid.is_some();
            let has_bootstrap = owns && properties.files.dom().contains("bootstrap.conf"@);
            let merged = has_bootstrap && files.jvm_arguments.is_some();
            let has_nifi = merged && properties.files.dom().contains("nifi.properties"@);
            let refused = nifi_properties::failure(settings, files.quotas);
            let built = has_nifi && refused.is_none();
            &&& !authorized ==> failure == Some(ErrorView::InvalidNifiAuthorizationConfig)
            &&& authorized && !owns ==> failure == Some(ErrorView::ObjectMissingMetadataForOwnerRef)
            &&& owns && !has_bootstrap ==> failure == Some(
                ErrorView::ProductConfigKindNotSpecified { kind: "bootstrap.conf"@ },
            )
            &&& has_bootstrap && !merged ==> failure == Some(
                ErrorView::BootstrapConfig { source: properties::Error::InvalidJVMConfig },
            )
            &&& merged && !has_nifi ==> failure == Some(
                ErrorView::ProductConfigKindNotSpecified { kind: "nifi.properties"@ },
            )
            &&& has_nifi && !built ==> failure == Some(
                ErrorView::BuildProductConfig {
                    source: refused.unwrap(),
                    rolegroup: rolegroup.role_group,
                },
            )
            &&& built && security.is_none() ==> failure == Some(
                ErrorView::JvmSecurityProperties {
                    source: PropertiesWriterError::FromUtf8,
                    rolegroup: rolegroup.role_group,
                },
            )
            &&& built && security.is_some() ==> failure == None::<ErrorView>
        }),
{
}

/// The Listener of the role belongs to the cluster, has the given name and labels, is of the wanted
/// class, and offers the user interface. The nodes claim it under that name.
pub proof fn law_listener_offers_the_defined_user_interface(
    nifi: NifiClusterView,
    labels: Map<Seq<char>, Seq<char>>,
    listener_class: Seq<char>,
    name: Seq<char>,
)
    requires
        nifi.metadata.name.is_some(),
        nifi.metadata.uid.is_some(),
    ensures
        ({
            let listener: ListenerView = rolegroup::role_listener(
                nifi,
                labels,
                listener_class,
                name,
            );
            &&& belongs_to(listener.metadata, nifi, name)
            &&& listener.metadata.labels == labels
            &&& listener.class_name == Some(listener_class)
            &&& listener.ports.len() == 1
            &&& listener.ports[0].name == "https"@
            &&& listener.ports[0].port == 8443
            &&& listener.ports[0].protocol == Some("TCP"@)
        }),
        listener::listener_name(nifi.name_or_empty(), "node"@) == nifi.metadata.name.unwrap()
            + "-"@ + "node"@,
{
}

/// The hosts cannot be listed exactly where the reporting task of NiFi 1.x has to be among them and
/// the cluster has no namespace in which it could be found.
pub proof fn law_reporting_task_needs_a_namespace(nifi: NifiClusterView, product_version: Seq<char>)
    ensures
        rolegroup::reporting_task_has_no_address(nifi, product_version) <==> "1."@.is_prefix_of(
            product_version,
        ) && nifi.metadata.namespace.is_none()
            && !nifi.spec.cluster_config.host_header_check.allow_all,
{
}

/// The log agent cannot be added exactly where it is enabled and its aggregator is not named, or
/// where it is enabled and its configuration is not valid.
pub proof fn law_log_agent_needs_its_aggregator(
    nifi: NifiClusterView,
    config: NifiConfigView,
    log_agent_is_valid: bool,
)
    ensures
        ({
            let failure = rolegroup::log_agent_failure(nifi, config, log_agent_is_valid);
            let enabled = config.logging.enable_vector_agent;
            let named = nifi.spec.cluster_config.vector_aggregator_config_map_name.is_some();
            &&& failure == Some(node_pod::Error::VectorAggregatorConfigMapMissing) <==> enabled
                && !named
            &&& failure == Some(node_pod::Error::ConfigureLogging) <==> enabled && named
                && !log_agent_is_valid
            &&& failure.is_none() <==> !enabled || (named && log_agent_is_valid)
        }),
{
}

} // verus!
