//! The StatefulSet that runs the nodes of a role group.

use crate::contents::Copied;
use crate::controller;
use crate::controller::build::resource::listener;
use crate::controller::build::resource::listener::{
    build_group_listener_pvc, group_listener_name, LISTENER_PVC_NAME,
};
use crate::controller::build::resource::node_pod;
use crate::controller::build::resource::node_pod::{
    Error, NodePod, NodePodView, ShellSnippets, ShellSnippetsView, LOG_VOLUME_NAME,
};
use crate::controller::build::resource::reporting_task;
use crate::controller::build::resource::reporting_task::build_reporting_task_service_name;
use crate::controller::build::resource::volumes;
use crate::controller::{
    object_meta, NifiRoleGroupConfig, NifiRoleGroupConfigView, ValidatedCluster,
    ValidatedClusterView, ValidatedContainerLogConfigChoice, ValidatedContainerLogConfigChoiceView,
    VectorContainerLogConfig, VectorContainerLogConfigView,
};
use crate::crd::storage::NifiRepository;
use crate::crd::{Container, NifiRole, PvcConfig, PvcConfigView};
use crate::kubernetes::{
    PodContainerView, PodTemplate, PodTemplateView, StatefulSet, StatefulSetView, VectorSidecar,
    VectorSidecarView, VolumeClaimTemplate, VolumeClaimTemplateView, VolumeMountView, VolumeView,
};
use crate::list::{add_item, empty_list, list_of};
use vstd::prelude::*;

verus! {

/// The label that makes nodes restart once their configuration changes.
pub const RESTART_CONTROLLER_ENABLED_LABEL: &'static str = "restarter.stackable.tech/enabled";

/// The volume from which the log agent reads its configuration.
pub const VECTOR_LOG_CONFIG_VOLUME_NAME: &'static str = "config";

impl ValidatedContainerLogConfigChoiceView {
    /// The ConfigMap of the user with the log configuration, where there is one.
    pub open spec fn config_map(self) -> Option<Seq<char>> {
        match self {
            ValidatedContainerLogConfigChoiceView::Custom { config_map } => Some(config_map),
            ValidatedContainerLogConfigChoiceView::Automatic { .. } => None,
        }
    }
}

impl ValidatedContainerLogConfigChoice {
    /// The ConfigMap of the user with the log configuration, where there is one.
    pub fn custom_config_map(&self) -> (config_map: Option<String>)
        ensures
            config_map.deep_view() == self.deep_view().config_map(),
    {
        match self {
            ValidatedContainerLogConfigChoice::Custom { config_map } => Some(config_map.copied()),
            ValidatedContainerLogConfigChoice::Automatic { .. } => None,
        }
    }
}

/// The log agent of a pod.
pub open spec fn log_agent(
    cluster: ValidatedClusterView,
    vector: VectorContainerLogConfigView,
) -> VectorSidecarView {
    VectorSidecarView {
        container_name: Container::Vector.text(),
        image: cluster.image.image,
        image_pull_policy: cluster.image.image_pull_policy,
        aggregator_config_map_name: vector.vector_aggregator_config_map_name,
        custom_log_config_map: vector.log_config.config_map(),
        log_config_volume: VECTOR_LOG_CONFIG_VOLUME_NAME@,
        log_volume: LOG_VOLUME_NAME@,
        resources: None,
        extra_mounts: Seq::empty(),
    }
}

/// What the pods of a role group are made from.
pub open spec fn node_pod(
    cluster: ValidatedClusterView,
    role_group: Seq<char>,
    rg: NifiRoleGroupConfigView,
    service_account_name: Seq<char>,
    snippets: ShellSnippetsView,
) -> NodePodView {
    NodePodView {
        cluster_name: cluster.name,
        namespace: cluster.namespace,
        cluster_domain: cluster.cluster_domain,
        headless_service: cluster.object_name_of(role_group) + "-headless"@,
        config_map: cluster.object_name_of(role_group),
        image: cluster.image,
        env_overrides: rg.env_overrides,
        clustering_backend: cluster.cluster_config.clustering_backend,
        authentication: cluster.cluster_config.authentication,
        authentication_mounts_in_nifi: false,
        authorization_env_vars: cluster.cluster_config.authorization.env_vars(),
        authorization_volumes: cluster.cluster_config.authorization.volumes(),
        authorization_mounts: cluster.cluster_config.authorization.volume_mounts(),
        trust_opa_certificate: cluster.cluster_config.authorization.opa_tls(),
        capture_prepare_output: match rg.config.logging.prepare_container {
            ValidatedContainerLogConfigChoiceView::Automatic { .. } => Some(
                snippets.capture_prepare_output,
            ),
            ValidatedContainerLogConfigChoiceView::Custom { .. } => None,
        },
        snippets,
        resources: rg.config.resources,
        extra_volumes: cluster.cluster_config.extra_volumes,
        git_sync: rg.config.git_sync_resources,
        custom_log_config_map: rg.config.logging.nifi_container.config_map(),
        vector: match rg.config.logging.vector_container {
            Some(vector) => Some(log_agent(cluster, vector)),
            None => None,
        },
        vector_failure: None,
        server_tls_secret_class: cluster.cluster_config.server_tls_secret_class,
        tls_service_scopes: seq![
            cluster.object_name_of(role_group) + "-metrics"@,
            reporting_task::service_name(cluster.name),
        ],
        requested_secret_lifetime_seconds: rg.config.requested_secret_lifetime_seconds,
        affinity: rg.config.affinity,
        sensitive_key_secret: cluster.cluster_config.sensitive_properties.key_secret,
        service_account_name,
        graceful_shutdown_timeout_seconds: rg.config.graceful_shutdown_timeout_seconds,
        labels: cluster.labels_of(role_group),
        overrides: seq![rg.pod_overrides],
    }
}

/// The claim of the volume of a repository.
pub open spec fn repository_claim(
    repository: NifiRepository,
    storage: PvcConfigView,
) -> VolumeClaimTemplateView {
    VolumeClaimTemplateView::Repository {
        name: repository.repository_name(),
        access_modes: seq!["ReadWriteOnce"@],
        capacity: storage.capacity,
        storage_class: storage.storage_class,
        selectors: storage.selectors,
    }
}

/// The claims of the volumes of a node. The file-based access policies have a volume of their own.
pub open spec fn volume_claims(
    cluster: ValidatedClusterView,
    role_group: Seq<char>,
    rg: NifiRoleGroupConfigView,
) -> Seq<VolumeClaimTemplateView> {
    let storage = rg.config.resources.storage;
    let claims = seq![
        repository_claim(NifiRepository::Content, storage.content_repo),
        repository_claim(NifiRepository::Database, storage.database_repo),
        repository_claim(NifiRepository::Flowfile, storage.flowfile_repo),
        repository_claim(NifiRepository::Provenance, storage.provenance_repo),
        repository_claim(NifiRepository::State, storage.state_repo),
        VolumeClaimTemplateView::Listener {
            name: LISTENER_PVC_NAME@,
            listener_name: listener::listener_name(cluster.name, NifiRole::Node.text()),
            labels: cluster.stable_labels_of(role_group),
        },
    ];
    if cluster.cluster_config.authorization.file_based() {
        claims.push(repository_claim(NifiRepository::Filebased, storage.filebased_repo))
    } else {
        claims
    }
}

/// The StatefulSet of a role group, with the template of its pods.
pub open spec fn stateful_set(
    cluster: ValidatedClusterView,
    role_group: Seq<char>,
    rg: NifiRoleGroupConfigView,
    rolling_update_supported: bool,
    replicas: Option<i32>,
    template: PodTemplateView,
) -> StatefulSetView {
    StatefulSetView {
        metadata: controller::owned_metadata(
            cluster,
            cluster.object_name_of(role_group),
            cluster.labels_of(role_group).insert(RESTART_CONTROLLER_ENABLED_LABEL@, "true"@),
        ),
        pod_management_policy: Some("Parallel"@),
        replicas,
        selector: cluster.selector_of(role_group),
        service_name: Some(cluster.object_name_of(role_group) + "-headless"@),
        template,
        update_strategy: Some(
            if rolling_update_supported {
                "RollingUpdate"@
            } else {
                "OnDelete"@
            },
        ),
        volume_claim_templates: volume_claims(cluster, role_group, rg),
    }
}

/// The StatefulSet of a role group, or why there is none.
pub open spec fn stateful_set_outcome(
    cluster: ValidatedClusterView,
    role_group: Seq<char>,
    rg: NifiRoleGroupConfigView,
    rolling_update_supported: bool,
    replicas: Option<i32>,
    service_account_name: Seq<char>,
    snippets: ShellSnippetsView,
) -> Result<StatefulSetView, Error> {
    match node_pod(cluster, role_group, rg, service_account_name, snippets).outcome() {
        Ok(template) => Ok(
            stateful_set(cluster, role_group, rg, rolling_update_supported, replicas, template),
        ),
        Err(error) => Err(error),
    }
}

/// The log agent of a pod.
fn build_log_agent(cluster: &ValidatedCluster, vector: &VectorContainerLogConfig) -> (agent:
    VectorSidecar)
    ensures
        agent.deep_view() == log_agent(cluster.deep_view(), vector.deep_view()),
{
    VectorSidecar {
        container_name: Container::Vector.as_str().to_owned(),
        image: cluster.image.image.copied(),
        image_pull_policy: cluster.image.image_pull_policy.copied(),
        aggregator_config_map_name: vector.vector_aggregator_config_map_name.copied(),
        custom_log_config_map: vector.log_config.custom_config_map(),
        log_config_volume: VECTOR_LOG_CONFIG_VOLUME_NAME.to_owned(),
        log_volume: LOG_VOLUME_NAME.to_owned(),
        resources: None,
        extra_mounts: empty_list(),
    }
}

/// What the pods of a role group are made from.
fn build_node_pod(
    cluster: &ValidatedCluster,
    role_group_name: &str,
    rg: &NifiRoleGroupConfig,
    service_account_name: &str,
    snippets: &ShellSnippets,
) -> (pod: NodePod)
    ensures
        pod.deep_view() == node_pod(
            cluster.deep_view(),
            role_group_name@,
            rg.deep_view(),
            service_account_name@,
            snippets.deep_view(),
        ),
{
    let names = cluster.resource_names(role_group_name);
    let logging = &rg.config.logging;
    let mut tls_service_scopes: Vec<String> = empty_list();
    add_item(&mut tls_service_scopes, names.metrics_service_name());
    add_item(
        &mut tls_service_scopes,
        build_reporting_task_service_name(cluster.name.as_str()),
    );
    NodePod {
        cluster_name: cluster.name.copied(),
        namespace: cluster.namespace.copied(),
        cluster_domain: cluster.cluster_domain.copied(),
        headless_service: names.headless_service_name(),
        config_map: names.role_group_config_map(),
        image: cluster.image.copied(),
        env_overrides: rg.env_overrides.copied(),
        clustering_backend: cluster.cluster_config.clustering_backend.copied(),
        authentication: cluster.cluster_config.authentication.copied(),
        authentication_mounts_in_nifi: false,
        authorization_env_vars: cluster.cluster_config.authorization.get_env_vars(),
        authorization_volumes: cluster.cluster_config.authorization.get_volumes(),
        authorization_mounts: cluster.cluster_config.authorization.get_volume_mounts(),
        trust_opa_certificate: cluster.cluster_config.authorization.has_opa_tls(),
        capture_prepare_output: match &logging.prepare_container {
            ValidatedContainerLogConfigChoice::Automatic { .. } => Some(
                snippets.capture_prepare_output.copied(),
            ),
            ValidatedContainerLogConfigChoice::Custom { .. } => None,
        },
        snippets: snippets.copied(),
        resources: rg.config.resources.copied(),
        extra_volumes: cluster.cluster_config.extra_volumes.copied(),
        git_sync: rg.config.git_sync_resources.copied(),
        custom_log_config_map: logging.nifi_container.custom_config_map(),
        vector: match &logging.vector_container {
            Some(vector) => Some(build_log_agent(cluster, vector)),
            None => None,
        },
        vector_failure: None,
        server_tls_secret_class: cluster.cluster_config.server_tls_secret_class.copied(),
        tls_service_scopes,
        requested_secret_lifetime_seconds: rg.config.requested_secret_lifetime_seconds,
        affinity: rg.config.affinity.copied(),
        sensitive_key_secret: cluster.cluster_config.sensitive_properties.key_secret.copied(),
        service_account_name: service_account_name.to_owned(),
        graceful_shutdown_timeout_seconds: rg.config.graceful_shutdown_timeout_seconds,
        labels: cluster.recommended_labels(role_group_name),
        overrides: list_of(rg.pod_overrides.copied()),
    }
}

/// The claim of the volume of a repository.
pub fn build_repository_claim(repository: NifiRepository, storage: &PvcConfig) -> (claim:
    VolumeClaimTemplate)
    ensures
        claim.deep_view() == repository_claim(repository, storage.deep_view()),
{
    VolumeClaimTemplate::Repository {
        name: repository.repository(),
        access_modes: list_of("ReadWriteOnce".to_owned()),
        capacity: storage.capacity.copied(),
        storage_class: storage.storage_class.copied(),
        selectors: storage.selectors.copied(),
    }
}

/// The claims of the volumes of a node.
pub fn get_volume_claim_templates(
    cluster: &ValidatedCluster,
    role_group_name: &str,
    rg: &NifiRoleGroupConfig,
) -> (claims: Vec<VolumeClaimTemplate>)
    ensures
        claims.deep_view() == volume_claims(
            cluster.deep_view(),
            role_group_name@,
            rg.deep_view(),
        ),
{
    let storage = &rg.config.resources.storage;
    let mut claims: Vec<VolumeClaimTemplate> = empty_list();
    add_item(&mut claims, build_repository_claim(NifiRepository::Content, &storage.content_repo));
    add_item(&mut claims, build_repository_claim(NifiRepository::Database, &storage.database_repo));
    add_item(&mut claims, build_repository_claim(NifiRepository::Flowfile, &storage.flowfile_repo));
    add_item(
        &mut claims,
        build_repository_claim(NifiRepository::Provenance, &storage.provenance_repo),
    );
    add_item(&mut claims, build_repository_claim(NifiRepository::State, &storage.state_repo));
    // A persistent address, so that load balancers can rely on it.
    let listener_name = group_listener_name(cluster, NifiRole::Node.as_str());
    let labels = cluster.unversioned_recommended_labels(role_group_name);
    add_item(&mut claims, build_group_listener_pvc(listener_name.as_str(), &labels));
    if cluster.cluster_config.authorization.is_file_based() {
        add_item(
            &mut claims,
            build_repository_claim(NifiRepository::Filebased, &storage.filebased_repo),
        );
    }
    claims
}

/// Builds the StatefulSet that runs the nodes of a role group.
pub fn build_node_rolegroup_statefulset(
    cluster: &ValidatedCluster,
    role_group_name: &str,
    rg: &NifiRoleGroupConfig,
    rolling_update_supported: bool,
    replicas: Option<i32>,
    service_account_name: &str,
    snippets: &ShellSnippets,
) -> (result: Result<StatefulSet, Error>)
    ensures
        match result {
            Ok(stateful_set) => stateful_set_outcome(
                cluster.deep_view(),
                role_group_name@,
                rg.deep_view(),
                rolling_update_supported,
                replicas,
                service_account_name@,
                snippets.deep_view(),
            ) == Ok::<StatefulSetView, Error>(stateful_set.deep_view()),
            Err(error) => stateful_set_outcome(
                cluster.deep_view(),
                role_group_name@,
                rg.deep_view(),
                rolling_update_supported,
                replicas,
                service_account_name@,
                snippets.deep_view(),
            ) == Err::<StatefulSetView, Error>(error),
        },
{
    let pod = build_node_pod(cluster, role_group_name, rg, service_account_name, snippets);
    let template: PodTemplate = match pod.build() {
        Ok(template) => template,
        Err(error) => {
            return Err(error);
        },
    };
    let names = cluster.resource_names(role_group_name);
    let mut labels = cluster.recommended_labels(role_group_name);
    labels.put(RESTART_CONTROLLER_ENABLED_LABEL, "true");
    let strategy: &str = if rolling_update_supported {
        "RollingUpdate"
    } else {
        "OnDelete"
    };
    Ok(
        StatefulSet {
            metadata: object_meta(cluster, names.stateful_set_name(), labels),
            pod_management_policy: Some("Parallel".to_owned()),
            replicas,
            selector: cluster.role_group_selector(role_group_name),
            service_name: Some(names.headless_service_name()),
            template,
            update_strategy: Some(strategy.to_owned()),
            volume_claim_templates: get_volume_claim_templates(cluster, role_group_name, rg),
        },
    )
}

/// Every repository that a node mounts has a claim under the name of its mount.
pub proof fn law_every_repository_is_claimed(
    cluster: ValidatedClusterView,
    role_group: Seq<char>,
    rg: NifiRoleGroupConfigView,
    i: int,
)
    requires
        0 <= i < node_pod::repository_mounts().len(),
    ensures
        exists|j: int|
            0 <= j < volume_claims(cluster, role_group, rg).len() && (match #[trigger] volume_claims(
                cluster,
                role_group,
                rg,
            )[j] {
                VolumeClaimTemplateView::Repository { name, .. } => name
                    == node_pod::repository_mounts()[i].name,
                VolumeClaimTemplateView::Listener { .. } => false,
            }),
{
    let claims = volume_claims(cluster, role_group, rg);
    let storage = rg.config.resources.storage;
    assert(claims[0] == repository_claim(NifiRepository::Content, storage.content_repo));
    assert(claims[1] == repository_claim(NifiRepository::Database, storage.database_repo));
    assert(claims[2] == repository_claim(NifiRepository::Flowfile, storage.flowfile_repo));
    assert(claims[3] == repository_claim(NifiRepository::Provenance, storage.provenance_repo));
    assert(claims[4] == repository_claim(NifiRepository::State, storage.state_repo));
}

/// The extra volumes of a cluster are in the pods of every role group, and every container of these
/// pods mounts them under `/stackable/userdata/`.
///
/// This is said of the template before the overrides of the user are merged into it.
pub proof fn law_extra_volumes_reach_every_container(
    cluster: ValidatedClusterView,
    role_group: Seq<char>,
    rg: NifiRoleGroupConfigView,
    rolling_update_supported: bool,
    replicas: Option<i32>,
    service_account_name: Seq<char>,
    snippets: ShellSnippetsView,
    stateful_set: StatefulSetView,
    volume: VolumeView,
    container: PodContainerView,
)
    requires
        stateful_set_outcome(
            cluster,
            role_group,
            rg,
            rolling_update_supported,
            replicas,
            service_account_name,
            snippets,
        ) == Ok::<StatefulSetView, Error>(stateful_set),
        cluster.cluster_config.extra_volumes.contains(volume),
        stateful_set.template.containers.contains(container)
            || stateful_set.template.init_containers.contains(container),
    ensures
        stateful_set.template.volumes.contains(volume),
        volumes::mounts_of(container).contains(
            VolumeMountView {
                name: volume.name,
                mount_path: "/stackable/userdata"@ + "/"@ + volume.name,
                sub_path: None,
            },
        ),
{
    node_pod::law_extra_volumes_are_mounted(
        node_pod(cluster, role_group, rg, service_account_name, snippets),
        volume,
        container,
    );
}

} // verus!
