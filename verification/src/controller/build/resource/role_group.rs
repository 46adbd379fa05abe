//! How the objects of a role group fit together: the StatefulSet, its claims and its pods, the
//! Services, and what all role groups share.

use crate::controller;
use crate::controller::build::resource::listener;
use crate::controller::build::resource::node_pod;
use crate::controller::build::resource::node_pod::{Error, ShellSnippetsView};
use crate::controller::build::resource::pdb;
use crate::controller::build::resource::pod_contents;
use crate::controller::build::resource::rbac;
use crate::controller::build::resource::secret;
use crate::controller::build::resource::service;
use crate::controller::build::resource::statefulset;
use crate::controller::rolegroup;
use crate::controller::rolegroup::RoleGroupPropertiesView;
use crate::controller::{
    NifiRoleGroupConfigView, ValidatedClusterView, ValidatedContainerLogConfigChoiceView,
};
use crate::crd::{
    NifiClusterView, NifiConfigView, NifiRole, NifiStorageConfigView, PvcConfigView,
    RoleGroupRefView,
};
use crate::kubernetes::{
    ObjectMetaView, ServiceView, StatefulSetView, VolumeClaimTemplateView,
    VolumeSourceView, VolumeView,
};
use crate::text;
use vstd::prelude::*;

verus! {

/// The name of a claim.
pub open spec fn claim_name(claim: VolumeClaimTemplateView) -> Seq<char> {
    match claim {
        VolumeClaimTemplateView::Repository { name, .. } => name,
        VolumeClaimTemplateView::Listener { name, .. } => name,
    }
}

/// Whether there is exactly one claim of a name, and it asks for a volume of one node as the
/// settings say: of their size, their class and their selectors.
pub open spec fn claims_volume(
    claims: Seq<VolumeClaimTemplateView>,
    name: Seq<char>,
    settings: PvcConfigView,
) -> bool {
    &&& exists|i: int| 0 <= i < claims.len() && claim_name(#[trigger] claims[i]) == name
    &&& forall|i: int|
        0 <= i < claims.len() && claim_name(#[trigger] claims[i]) == name ==> claims[i] == (
        VolumeClaimTemplateView::Repository {
            name,
            access_modes: seq!["ReadWriteOnce"@],
            capacity: settings.capacity,
            storage_class: settings.storage_class,
            selectors: settings.selectors,
        })
    &&& forall|i: int, j: int|
        0 <= i < claims.len() && 0 <= j < claims.len() && claim_name(#[trigger] claims[i]) == name
            && claim_name(#[trigger] claims[j]) == name ==> i == j
}

/// Whether no claim has a name.
pub open spec fn claims_none(claims: Seq<VolumeClaimTemplateView>, name: Seq<char>) -> bool {
    forall|i: int| 0 <= i < claims.len() ==> claim_name(#[trigger] claims[i]) != name
}

/// Whether every repository of a node has the volume that its settings ask for.
pub open spec fn claims_repositories(
    claims: Seq<VolumeClaimTemplateView>,
    storage: NifiStorageConfigView,
) -> bool {
    &&& claims_volume(claims, "content-repository"@, storage.content_repo)
    &&& claims_volume(claims, "database-repository"@, storage.database_repo)
    &&& claims_volume(claims, "flowfile-repository"@, storage.flowfile_repo)
    &&& claims_volume(claims, "provenance-repository"@, storage.provenance_repo)
    &&& claims_volume(claims, "state-repository"@, storage.state_repo)
}

/// The names of the claims are all different.
proof fn lemma_claim_names()
    ensures
        "content"@ + "-repository"@ == "content-repository"@,
        "database"@ + "-repository"@ == "database-repository"@,
        "flowfile"@ + "-repository"@ == "flowfile-repository"@,
        "provenance"@ + "-repository"@ == "provenance-repository"@,
        "state"@ + "-repository"@ == "state-repository"@,
        "filebased"@ + "-repository"@ == "filebased-repository"@,
        "content-repository"@[0] == 'c',
        "database-repository"@[0] == 'd',
        "flowfile-repository"@[0] == 'f',
        "flowfile-repository"@[1] == 'l',
        "provenance-repository"@[0] == 'p',
        "state-repository"@[0] == 's',
        "filebased-repository"@[0] == 'f',
        "filebased-repository"@[1] == 'i',
        "listener"@[0] == 'l',
{
    reveal_strlit("-repository");
    reveal_strlit("content");
    reveal_strlit("database");
    reveal_strlit("flowfile");
    reveal_strlit("provenance");
    reveal_strlit("state");
    reveal_strlit("filebased");
    reveal_strlit("listener");
    reveal_strlit("content-repository");
    reveal_strlit("database-repository");
    reveal_strlit("flowfile-repository");
    reveal_strlit("provenance-repository");
    reveal_strlit("state-repository");
    reveal_strlit("filebased-repository");
    assert("content"@ + "-repository"@ =~= "content-repository"@);
    assert("database"@ + "-repository"@ =~= "database-repository"@);
    assert("flowfile"@ + "-repository"@ =~= "flowfile-repository"@);
    assert("provenance"@ + "-repository"@ =~= "provenance-repository"@);
    assert("state"@ + "-repository"@ =~= "state-repository"@);
    assert("filebased"@ + "-repository"@ =~= "filebased-repository"@);
}

/// Every repository of a node has exactly one volume of its own, of the size, the class and with
/// the selectors that the settings of the role group hold for that very repository. Policies in
/// files have one too, exactly where they are used. One more claim joins the Listener of the role,
/// under labels that survive updates.
pub proof fn law_repositories_have_the_wanted_volumes(
    cluster: ValidatedClusterView,
    role_group: Seq<char>,
    rg: NifiRoleGroupConfigView,
    rolling_update_supported: bool,
    replicas: Option<i32>,
    service_account_name: Seq<char>,
    snippets: ShellSnippetsView,
    set: StatefulSetView,
)
    requires
        statefulset::stateful_set_outcome(
            cluster,
            role_group,
            rg,
            rolling_update_supported,
            replicas,
            service_account_name,
            snippets,
        ) == Ok::<StatefulSetView, Error>(set),
    ensures
        claims_repositories(set.volume_claim_templates, rg.config.resources.storage),
        cluster.cluster_config.authorization is Standard ==> claims_volume(
            set.volume_claim_templates,
            "filebased-repository"@,
            rg.config.resources.storage.filebased_repo,
        ),
        !(cluster.cluster_config.authorization is Standard) ==> claims_none(
            set.volume_claim_templates,
            "filebased-repository"@,
        ),
        set.volume_claim_templates.contains(
            VolumeClaimTemplateView::Listener {
                name: "listener"@,
                listener_name: listener::group_listener(
                    cluster,
                    cluster.role_config.listener_class,
                    listener::listener_name(cluster.name, "node"@),
                ).metadata.name.unwrap(),
                labels: controller::recommended_label_set(
                    cluster.name,
                    "none"@,
                    "node"@,
                    role_group,
                ),
            },
        ),
        set.volume_claim_templates.len() == (if cluster.cluster_config.authorization is Standard {
            7int
        } else {
            6
        }),
{
    lemma_claim_names();
    let claims = statefulset::volume_claims(cluster, role_group, rg);
    assert(claim_name(claims[0]) == "content-repository"@);
    assert(claim_name(claims[1]) == "database-repository"@);
    assert(claim_name(claims[2]) == "flowfile-repository"@);
    assert(claim_name(claims[3]) == "provenance-repository"@);
    assert(claim_name(claims[4]) == "state-repository"@);
    assert(claim_name(claims[5]) == "listener"@);
    if cluster.cluster_config.authorization is Standard {
        assert(claim_name(claims[6]) == "filebased-repository"@);
    }
}

/// The same of a role group whose objects are built straight from the definition of the cluster.
pub proof fn law_repositories_have_the_defined_volumes(
    nifi: NifiClusterView,
    rolegroup: RoleGroupRefView,
    config: NifiConfigView,
    properties: RoleGroupPropertiesView,
    rolling_update_supported: bool,
    replicas: Option<i32>,
    pod: node_pod::NodePodView,
    set: StatefulSetView,
)
    requires
        rolegroup::stateful_set_outcome(
            nifi,
            rolegroup,
            properties,
            config,
            rolling_update_supported,
            replicas,
            pod,
        ) == Ok::<StatefulSetView, rolegroup::ErrorView>(set),
    ensures
        claims_repositories(set.volume_claim_templates, config.resources.storage),
        set.volume_claim_templates.contains(
            VolumeClaimTemplateView::Listener {
                name: "listener"@,
                listener_name: nifi.name_or_empty() + "-"@ + rolegroup.role,
                labels: controller::recommended_label_set(
                    nifi.name_or_empty(),
                    "none"@,
                    rolegroup.role,
                    rolegroup.role_group,
                ),
            },
        ),
        set.volume_claim_templates.len() == 6,
{
    lemma_claim_names();
    let claims = rolegroup::volume_claims(nifi, rolegroup, config);
    assert(claim_name(claims[0]) == "content-repository"@);
    assert(claim_name(claims[1]) == "database-repository"@);
    assert(claim_name(claims[2]) == "flowfile-repository"@);
    assert(claim_name(claims[3]) == "provenance-repository"@);
    assert(claim_name(claims[4]) == "state-repository"@);
    assert(claim_name(claims[5]) == "listener"@);
}

/// Whether labels tell of which cluster, version, role and role group an object is, and nothing
/// else.
pub open spec fn tells_whose(
    labels: Map<Seq<char>, Seq<char>>,
    cluster_name: Seq<char>,
    version: Seq<char>,
    role: Seq<char>,
    role_group: Seq<char>,
) -> bool {
    &&& labels.dom() == set![
        "app.kubernetes.io/name"@,
        "app.kubernetes.io/instance"@,
        "app.kubernetes.io/version"@,
        "app.kubernetes.io/component"@,
        "app.kubernetes.io/role-group"@,
        "app.kubernetes.io/managed-by"@,
        "stackable.tech/vendor"@,
    ]
    &&& labels["app.kubernetes.io/name"@] == "nifi"@
    &&& labels["app.kubernetes.io/instance"@] == cluster_name
    &&& labels["app.kubernetes.io/version"@] == version
    &&& labels["app.kubernetes.io/component"@] == role
    &&& labels["app.kubernetes.io/role-group"@] == role_group
    &&& labels["app.kubernetes.io/managed-by"@] == "nifi.stackable.tech_nificluster"@
    &&& labels["stackable.tech/vendor"@] == "Stackable"@
}

/// The labels have different names.
pub proof fn lemma_label_names()
    ensures
        "app.kubernetes.io/name"@.len() == 22,
        "app.kubernetes.io/instance"@.len() == 26,
        "app.kubernetes.io/version"@.len() == 25,
        "app.kubernetes.io/component"@.len() == 27,
        "app.kubernetes.io/role-group"@.len() == 28,
        "app.kubernetes.io/managed-by"@.len() == 28,
        "app.kubernetes.io/role-group"@[18] == 'r',
        "app.kubernetes.io/managed-by"@[18] == 'm',
        "stackable.tech/vendor"@.len() == 21,
        "restarter.stackable.tech/enabled"@.len() == 32,
        "prometheus.io/scrape"@.len() == 20,
        "nifi.stackable.tech"@ + "_"@ + "nificluster"@ == "nifi.stackable.tech_nificluster"@,
{
    reveal_strlit("app.kubernetes.io/name");
    reveal_strlit("app.kubernetes.io/instance");
    reveal_strlit("app.kubernetes.io/version");
    reveal_strlit("app.kubernetes.io/component");
    reveal_strlit("app.kubernetes.io/role-group");
    reveal_strlit("app.kubernetes.io/managed-by");
    reveal_strlit("stackable.tech/vendor");
    reveal_strlit("restarter.stackable.tech/enabled");
    reveal_strlit("prometheus.io/scrape");
    reveal_strlit("nifi.stackable.tech");
    reveal_strlit("_");
    reveal_strlit("nificluster");
    reveal_strlit("nifi.stackable.tech_nificluster");
    assert("nifi.stackable.tech"@ + "_"@ + "nificluster"@ =~= "nifi.stackable.tech_nificluster"@);
}

/// The recommended labels tell of which cluster, version, role and role group an object is.
pub proof fn law_labels_tell_whose_an_object_is(
    cluster_name: Seq<char>,
    version: Seq<char>,
    role: Seq<char>,
    role_group: Seq<char>,
)
    ensures
        tells_whose(
            controller::recommended_label_set(cluster_name, version, role, role_group),
            cluster_name,
            version,
            role,
            role_group,
        ),
{
    lemma_label_names();
    let labels = controller::recommended_label_set(cluster_name, version, role, role_group);
    assert(labels.dom() =~= set![
        "app.kubernetes.io/name"@,
        "app.kubernetes.io/instance"@,
        "app.kubernetes.io/version"@,
        "app.kubernetes.io/component"@,
        "app.kubernetes.io/role-group"@,
        "app.kubernetes.io/managed-by"@,
        "stackable.tech/vendor"@,
    ]);
}

/// Whether a selector finds the pods of a role of a cluster, and of one role group where one is
/// named.
pub open spec fn finds(
    selector: Map<Seq<char>, Seq<char>>,
    cluster_name: Seq<char>,
    role: Seq<char>,
    role_group: Option<Seq<char>>,
) -> bool {
    &&& selector.dom().contains("app.kubernetes.io/name"@)
        && selector["app.kubernetes.io/name"@] == "nifi"@
    &&& selector.dom().contains("app.kubernetes.io/instance"@)
        && selector["app.kubernetes.io/instance"@] == cluster_name
    &&& selector.dom().contains("app.kubernetes.io/component"@)
        && selector["app.kubernetes.io/component"@] == role
    &&& role_group matches Some(group) ==> selector.dom().contains("app.kubernetes.io/role-group"@)
        && selector["app.kubernetes.io/role-group"@] == group
    &&& role_group.is_none() ==> !selector.dom().contains("app.kubernetes.io/role-group"@)
    &&& forall|key: Seq<char>| #[trigger]
        selector.dom().contains(key) ==> key == "app.kubernetes.io/name"@ || key
            == "app.kubernetes.io/instance"@ || key == "app.kubernetes.io/component"@ || key
            == "app.kubernetes.io/role-group"@
}

/// Whether an object has a name, lies in the namespace of the cluster, and goes when the cluster
/// goes.
pub open spec fn belongs_to(
    metadata: ObjectMetaView,
    cluster: ValidatedClusterView,
    name: Seq<char>,
) -> bool {
    &&& metadata.name == Some(name)
    &&& metadata.namespace == Some(cluster.namespace)
    &&& metadata.owner_references.len() == 1
    &&& metadata.owner_references[0].kind == "NifiCluster"@
    &&& metadata.owner_references[0].api_version == "nifi.stackable.tech/v1alpha1"@
    &&& metadata.owner_references[0].name == cluster.name
    &&& metadata.owner_references[0].uid == cluster.uid
    &&& metadata.owner_references[0].controller == Some(true)
}

/// The name of the objects of a role group, spelled out.
pub open spec fn name_of(cluster_name: Seq<char>, role_group: Seq<char>) -> Seq<char> {
    cluster_name + "-node-"@ + role_group
}

/// The names of the objects of role groups, spelled out.
pub proof fn lemma_names(cluster_name: Seq<char>, role_group: Seq<char>)
    ensures
        controller::role_group_object_name(cluster_name, "node"@, role_group) == name_of(
            cluster_name,
            role_group,
        ),
        controller::role_group_object_name(cluster_name, "node"@, role_group) + "-headless"@
            == cluster_name + "-node-"@ + role_group + "-headless"@,
{
    reveal_strlit("-");
    reveal_strlit("node");
    reveal_strlit("-node-");
    assert("-"@ + "node"@ + "-"@ =~= "-node-"@);
    assert(cluster_name + "-"@ + "node"@ + "-"@ + role_group =~= cluster_name + ("-"@ + "node"@
        + "-"@) + role_group);
}

/// The StatefulSet of a role group belongs to the cluster, is named after the role group, finds
/// exactly its pods, names the headless Service that is built for it, and has the nodes that are
/// asked for. They are replaced one by one where that is supported, and else when they are deleted.
pub proof fn law_stateful_set_runs_the_role_group(
    cluster: ValidatedClusterView,
    role_group: Seq<char>,
    rg: NifiRoleGroupConfigView,
    rolling_update_supported: bool,
    replicas: Option<i32>,
    service_account_name: Seq<char>,
    snippets: ShellSnippetsView,
    set: StatefulSetView,
)
    requires
        statefulset::stateful_set_outcome(
            cluster,
            role_group,
            rg,
            rolling_update_supported,
            replicas,
            service_account_name,
            snippets,
        ) == Ok::<StatefulSetView, Error>(set),
    ensures
        belongs_to(set.metadata, cluster, name_of(cluster.name, role_group)),
        set.metadata.labels.dom().contains("restarter.stackable.tech/enabled"@)
            && set.metadata.labels["restarter.stackable.tech/enabled"@] == "true"@,
        tells_whose(
            set.metadata.labels.remove("restarter.stackable.tech/enabled"@),
            cluster.name,
            cluster.product_version,
            "node"@,
            role_group,
        ),
        finds(set.selector, cluster.name, "node"@, Some(role_group)),
        set.selector.submap_of(set.template.metadata.labels),
        tells_whose(
            set.template.metadata.labels,
            cluster.name,
            cluster.product_version,
            "node"@,
            role_group,
        ),
        set.service_name == service::rolegroup_headless_service(cluster, role_group).metadata.name,
        set.replicas == replicas,
        set.pod_management_policy == Some("Parallel"@),
        set.update_strategy == Some(
            if rolling_update_supported {
                "RollingUpdate"@
            } else {
                "OnDelete"@
            },
        ),
        set.template.service_account_name == Some(service_account_name),
        set.template.affinity == Some(rg.config.affinity),
        set.template.image_pull_secrets == cluster.image.pull_secrets,
        set.template.overrides == seq![rg.pod_overrides],
{
    lemma_label_names();
    lemma_names(cluster.name, role_group);
    law_labels_tell_whose_an_object_is(cluster.name, cluster.product_version, "node"@, role_group);
    let pod = statefulset::node_pod(cluster, role_group, rg, service_account_name, snippets);
    pod_contents::law_pods_are_scheduled_as_wanted(pod);
    assert(set.metadata.labels.remove("restarter.stackable.tech/enabled"@)
        =~= controller::recommended_label_set(
        cluster.name,
        cluster.product_version,
        "node"@,
        role_group,
    ));
    assert(set.selector.submap_of(set.template.metadata.labels));
}

/// The pods of a role group run the image of the cluster with the processors, the memory and the
/// time to shut down that the merged settings of the role group hold, on the ConfigMap of the role
/// group, with the key Secret that the cluster names, and with a certificate of the SecretClass of
/// the cluster that is good for the Services under which they are called.
pub proof fn law_pods_run_the_role_group(
    cluster: ValidatedClusterView,
    role_group: Seq<char>,
    rg: NifiRoleGroupConfigView,
    rolling_update_supported: bool,
    replicas: Option<i32>,
    service_account_name: Seq<char>,
    snippets: ShellSnippetsView,
    set: StatefulSetView,
)
    requires
        statefulset::stateful_set_outcome(
            cluster,
            role_group,
            rg,
            rolling_update_supported,
            replicas,
            service_account_name,
            snippets,
        ) == Ok::<StatefulSetView, Error>(set),
    ensures
        ({
            let nifi = pod_contents::nifi_container(set.template);
            let prepare = pod_contents::prepare_container(set.template);
            let volumes = set.template.volumes;
            let own_name = name_of(cluster.name, role_group);
            &&& nifi.name == "nifi"@ && prepare.name == "prepare"@
            &&& nifi.image == Some(cluster.image.image) && prepare.image == Some(cluster.image.image)
            &&& nifi.resources.is_some()
            &&& nifi.resources.unwrap().cpu_request == rg.config.resources.cpu_min
            &&& nifi.resources.unwrap().cpu_limit == rg.config.resources.cpu_max
            &&& nifi.resources.unwrap().memory_request == rg.config.resources.memory_limit
            &&& nifi.resources.unwrap().memory_limit == rg.config.resources.memory_limit
            &&& rg.config.graceful_shutdown_timeout_seconds.is_some()
                ==> set.template.termination_grace_period_seconds.is_some()
                && set.template.termination_grace_period_seconds.unwrap()
                == rg.config.graceful_shutdown_timeout_seconds.unwrap()
            &&& pod_contents::mounts_repositories(nifi)
            &&& pod_contents::mounts_repositories(prepare)
            &&& volumes.contains(
                VolumeView {
                    name: "conf"@,
                    source: VolumeSourceView::ConfigMap { name: own_name },
                },
            )
            &&& volumes.contains(
                VolumeView {
                    name: "log-config"@,
                    source: VolumeSourceView::ConfigMap {
                        name: match rg.config.logging.nifi_container {
                            ValidatedContainerLogConfigChoiceView::Custom { config_map } =>
                                config_map,
                            ValidatedContainerLogConfigChoiceView::Automatic { .. } => own_name,
                        },
                    },
                },
            )
            &&& volumes.contains(
                VolumeView {
                    name: "sensitiveproperty"@,
                    source: VolumeSourceView::Secret {
                        secret_name: cluster.cluster_config.sensitive_properties.key_secret,
                        optional: None,
                        items: Seq::empty(),
                    },
                },
            )
            &&& rg.config.requested_secret_lifetime_seconds.is_some()
            &&& volumes.contains(
                VolumeView {
                    name: "keystore"@,
                    source: VolumeSourceView::Tls {
                        secret_class: cluster.cluster_config.server_tls_secret_class,
                        service_scopes: seq![
                            service::rolegroup_metrics_service(
                                cluster,
                                role_group,
                            ).metadata.name.unwrap(),
                            cluster.name + "-reporting-task"@,
                        ],
                        format: crate::kubernetes::SecretFormat::TlsPkcs12,
                        requested_lifetime_seconds:
                            rg.config.requested_secret_lifetime_seconds.unwrap(),
                        listener_scope: Some("listener"@),
                    },
                },
            )
        }),
{
    let pod = statefulset::node_pod(cluster, role_group, rg, service_account_name, snippets);
    lemma_names(cluster.name, role_group);
    pod_contents::law_containers_have_their_resources(pod);
    pod_contents::law_repositories_are_mounted(pod);
    pod_contents::law_volumes_hold_what_is_mounted(pod);
    pod_contents::law_pods_are_scheduled_as_wanted(pod);
    reveal_strlit("-");
    reveal_strlit("reporting-task");
    reveal_strlit("-reporting-task");
    assert("-"@ + "reporting-task"@ =~= "-reporting-task"@);
    assert(cluster.name + "-"@ + "reporting-task"@ =~= cluster.name + ("-"@ + "reporting-task"@));
    assert(pod.tls_service_scopes =~= seq![
        service::rolegroup_metrics_service(cluster, role_group).metadata.name.unwrap(),
        cluster.name + "-reporting-task"@,
    ]);
}

/// The volumes and mounts of the authentication and of the authorization of the cluster reach the
/// pods of every role group, as do the variables of both and those that the user sets for the role
/// group.
pub proof fn law_pods_have_the_credentials_of_the_cluster(
    cluster: ValidatedClusterView,
    role_group: Seq<char>,
    rg: NifiRoleGroupConfigView,
    rolling_update_supported: bool,
    replicas: Option<i32>,
    service_account_name: Seq<char>,
    snippets: ShellSnippetsView,
    set: StatefulSetView,
    i: int,
)
    requires
        statefulset::stateful_set_outcome(
            cluster,
            role_group,
            rg,
            rolling_update_supported,
            replicas,
            service_account_name,
            snippets,
        ) == Ok::<StatefulSetView, Error>(set),
    ensures
        ({
            let authentication = cluster.cluster_config.authentication;
            let authorization = cluster.cluster_config.authorization;
            let nifi = pod_contents::nifi_container(set.template);
            let prepare = pod_contents::prepare_container(set.template);
            &&& 0 <= i < authentication.volumes().len() ==> set.template.volumes.contains(
                authentication.volumes()[i],
            )
            &&& 0 <= i < authentication.volume_mounts().len() ==> prepare.volume_mounts.contains(
                authentication.volume_mounts()[i],
            )
            &&& 0 <= i < authentication.env_vars().len() ==> nifi.env.contains(
                authentication.env_vars()[i],
            ) && prepare.env.contains(authentication.env_vars()[i])
            &&& 0 <= i < authorization.volumes().len() ==> set.template.volumes.contains(
                authorization.volumes()[i],
            )
            &&& 0 <= i < authorization.volume_mounts().len() ==> nifi.volume_mounts.contains(
                authorization.volume_mounts()[i],
            )
            &&& 0 <= i < authorization.env_vars().len() ==> nifi.env.contains(
                authorization.env_vars()[i],
            )
            &&& 0 <= i < rg.config.git_sync_resources.git_content_volume_mounts.len()
                ==> nifi.volume_mounts.contains(
                rg.config.git_sync_resources.git_content_volume_mounts[i],
            )
            &&& 0 <= i < rg.config.git_sync_resources.git_content_volumes.len()
                ==> set.template.volumes.contains(
                rg.config.git_sync_resources.git_content_volumes[i],
            )
            &&& 0 <= i < crate::ordered_map::ordered_entries(rg.env_overrides).len()
                ==> nifi.env.contains(
                crate::kubernetes::EnvVarView {
                    name: crate::ordered_map::ordered_entries(rg.env_overrides)[i].0,
                    source: crate::kubernetes::EnvVarSourceView::Literal {
                        value: crate::ordered_map::ordered_entries(rg.env_overrides)[i].1,
                    },
                },
            )
        }),
{
    let pod = statefulset::node_pod(cluster, role_group, rg, service_account_name, snippets);
    pod_contents::law_credentials_and_components_are_mounted(pod, i);
    pod_contents::law_containers_have_their_variables(pod, Seq::empty(), i);
}

/// Whether a Service belongs to the cluster, has no address of its own, and leads to the user
/// interface of the pods of a role group even before they are ready.
pub open spec fn leads_to_pods(
    service: ServiceView,
    cluster: ValidatedClusterView,
    role_group: Seq<char>,
    name: Seq<char>,
) -> bool {
    &&& belongs_to(service.metadata, cluster, name)
    &&& service.type_ == Some("ClusterIP"@)
    &&& service.cluster_ip == Some("None"@)
    &&& service.publish_not_ready_addresses == Some(true)
    &&& service.ports.len() == 1
    &&& service.ports[0].name == Some("https"@)
    &&& service.ports[0].port == 8443
    &&& service.ports[0].protocol == Some("TCP"@)
    &&& finds(service.selector, cluster.name, "node"@, Some(role_group))
}

/// Both Services of a role group lead to its pods. The one for metrics is scraped by Prometheus, at
/// the port of the user interface, by HTTPS and under the path of the metrics; the headless one is
/// not.
pub proof fn law_services_lead_to_the_pods(cluster: ValidatedClusterView, role_group: Seq<char>)
    ensures
        ({
            let headless = service::rolegroup_headless_service(cluster, role_group);
            let metrics = service::rolegroup_metrics_service(cluster, role_group);
            let own_name = name_of(cluster.name, role_group);
            &&& leads_to_pods(headless, cluster, role_group, own_name + "-headless"@)
            &&& leads_to_pods(metrics, cluster, role_group, own_name + "-metrics"@)
            &&& tells_whose(
                headless.metadata.labels,
                cluster.name,
                cluster.product_version,
                "node"@,
                role_group,
            )
            &&& headless.metadata.annotations.dom() == Set::<Seq<char>>::empty()
            &&& metrics.metadata.labels.dom().contains("prometheus.io/scrape"@)
            &&& metrics.metadata.labels["prometheus.io/scrape"@] == "true"@
            &&& tells_whose(
                metrics.metadata.labels.remove("prometheus.io/scrape"@),
                cluster.name,
                cluster.product_version,
                "node"@,
                role_group,
            )
            &&& metrics.metadata.annotations.dom() == set![
                "prometheus.io/scrape"@,
                "prometheus.io/path"@,
                "prometheus.io/port"@,
                "prometheus.io/scheme"@,
            ]
            &&& metrics.metadata.annotations["prometheus.io/scrape"@] == "true"@
            &&& metrics.metadata.annotations["prometheus.io/path"@]
                == "/nifi-api/flow/metrics/prometheus"@
            &&& metrics.metadata.annotations["prometheus.io/port"@] == "8443"@
            &&& metrics.metadata.annotations["prometheus.io/scheme"@] == "https"@
        }),
{
    lemma_label_names();
    lemma_names(cluster.name, role_group);
    law_labels_tell_whose_an_object_is(cluster.name, cluster.product_version, "node"@, role_group);
    reveal_strlit("prometheus.io/scrape");
    reveal_strlit("prometheus.io/path");
    reveal_strlit("prometheus.io/port");
    reveal_strlit("prometheus.io/scheme");
    reveal_strlit("8443");
    reveal_with_fuel(text::decimal, 5);
    assert(text::decimal(8443) =~= "8443"@);
    assert("prometheus.io/path"@[15] == 'a');
    assert("prometheus.io/port"@[15] == 'o');
    assert("prometheus.io/scrape"@[15] == 'c');
    assert("prometheus.io/scheme"@[15] == 'c');
    assert("prometheus.io/scrape"@[16] == 'r');
    assert("prometheus.io/scheme"@[16] == 'h');
    let metrics = service::rolegroup_metrics_service(cluster, role_group);
    let headless = service::rolegroup_headless_service(cluster, role_group);
    assert(headless.metadata.annotations.dom() =~= Set::<Seq<char>>::empty());
    assert(metrics.metadata.annotations.dom() =~= set![
        "prometheus.io/scrape"@,
        "prometheus.io/path"@,
        "prometheus.io/port"@,
        "prometheus.io/scheme"@,
    ]);
    assert(metrics.metadata.labels.remove("prometheus.io/scrape"@)
        =~= controller::recommended_label_set(
        cluster.name,
        cluster.product_version,
        "node"@,
        role_group,
    ));
}

/// The Listener of the node role belongs to the cluster, is of the wanted class, and offers the
/// user interface.
pub proof fn law_listener_offers_the_user_interface(
    cluster: ValidatedClusterView,
    listener_class: Seq<char>,
    name: Seq<char>,
)
    ensures
        ({
            let listener = listener::group_listener(cluster, listener_class, name);
            &&& belongs_to(listener.metadata, cluster, name)
            &&& tells_whose(
                listener.metadata.labels,
                cluster.name,
                cluster.product_version,
                "node"@,
                "none"@,
            )
            &&& listener.class_name == Some(listener_class)
            &&& listener.ports.len() == 1
            &&& listener.ports[0].name == "https"@
            &&& listener.ports[0].port == 8443
            &&& listener.ports[0].protocol == Some("TCP"@)
        }),
        listener::listener_name(cluster.name, "node"@) == cluster.name + "-"@ + "node"@,
{
    law_labels_tell_whose_an_object_is(cluster.name, cluster.product_version, "node"@, "none"@);
}

/// The disruption budget covers all pods of the role, of every role group, and lets as many of them
/// be missing as it is told.
pub proof fn law_budget_covers_the_role(
    cluster: ValidatedClusterView,
    role: NifiRole,
    max_unavailable: u16,
)
    ensures
        ({
            let budget = pdb::disruption_budget(cluster, role, max_unavailable);
            &&& belongs_to(budget.metadata, cluster, cluster.name + "-"@ + "node"@)
            &&& tells_whose(
                budget.metadata.labels,
                cluster.name,
                cluster.product_version,
                "node"@,
                "none"@,
            )
            &&& budget.max_unavailable == Some(max_unavailable)
            &&& finds(budget.selector, cluster.name, "node"@, None)
        }),
{
    lemma_label_names();
    law_labels_tell_whose_an_object_is(cluster.name, cluster.product_version, "node"@, "none"@);
}

/// The account under which the pods run belongs to the cluster and is bound to the ClusterRole of
/// the operator.
pub proof fn law_account_of_the_pods_has_its_permissions(cluster: ValidatedClusterView)
    ensures
        ({
            let account = rbac::service_account(cluster);
            let binding = rbac::role_binding(cluster);
            &&& belongs_to(account.metadata, cluster, cluster.name + "-serviceaccount"@)
            &&& belongs_to(binding.metadata, cluster, cluster.name + "-rolebinding"@)
            &&& account.metadata.name == Some(binding.service_account_name)
            &&& binding.cluster_role_name == "nifi-clusterrole"@
            &&& tells_whose(
                account.metadata.labels,
                cluster.name,
                cluster.product_version,
                "none"@,
                "none"@,
            )
            &&& tells_whose(
                binding.metadata.labels,
                cluster.name,
                cluster.product_version,
                "none"@,
                "none"@,
            )
        }),
{
    law_labels_tell_whose_an_object_is(cluster.name, cluster.product_version, "none"@, "none"@);
    reveal_strlit("nifi");
    reveal_strlit("-clusterrole");
    reveal_strlit("nifi-clusterrole");
    assert("nifi"@ + "-clusterrole"@ =~= "nifi-clusterrole"@);
}

/// Whether some Secret has a name and holds exactly one key with a value, in the namespace of the
/// cluster.
pub open spec fn holds_secret(
    secrets: Seq<crate::kubernetes::SecretView>,
    cluster: ValidatedClusterView,
    name: Seq<char>,
    key: Seq<char>,
    value: Seq<char>,
) -> bool {
    exists|i: int|
        0 <= i < secrets.len() && (#[trigger] secrets[i]).metadata.name == Some(name)
            && secrets[i].metadata.namespace == Some(cluster.namespace)
            && secrets[i].string_data == Some(Map::<Seq<char>, Seq<char>>::empty().insert(key, value))
            && secrets[i].data == None::<Seq<(Seq<char>, Seq<u8>)>>
}

/// Secrets are generated exactly where they are needed and missing: the one with the key of the
/// sensitive properties where the user wants it generated, under the name and the key by which NiFi
/// reads it; the one with the password of the single user beside OpenID Connect, under the name and
/// the key by which it is mounted.
pub proof fn law_missing_secrets_are_generated(
    cluster: ValidatedClusterView,
    sensitive_key: Seq<char>,
    admin_password: Seq<char>,
)
    ensures
        ({
            let secrets = secret::generated_secrets(cluster, sensitive_key, admin_password);
            let wants_key = cluster.cluster_config.sensitive_properties.auto_generate
                && cluster.existing_secrets.sensitive_key.is_none();
            let wants_password = cluster.cluster_config.authentication is Oidc
                && cluster.existing_secrets.oidc_admin_password.is_none();
            &&& wants_key ==> holds_secret(
                secrets,
                cluster,
                cluster.cluster_config.sensitive_properties.key_secret,
                "nifiSensitivePropsKey"@,
                sensitive_key,
            )
            &&& wants_password ==> holds_secret(
                secrets,
                cluster,
                cluster.name + "-oidc-admin-password"@,
                "admin"@,
                admin_password,
            )
            &&& secrets.len() == (if wants_key {
                1int
            } else {
                0
            }) + (if wants_password {
                1int
            } else {
                0
            })
        }),
{
    let secrets = secret::generated_secrets(cluster, sensitive_key, admin_password);
    if secret::sensitive_key_is_due(cluster) {
        assert(secrets[0].metadata.name == Some(
            cluster.cluster_config.sensitive_properties.key_secret,
        ));
        if secret::admin_password_is_due(cluster) {
            assert(secrets[1].metadata.name == Some(cluster.name + "-oidc-admin-password"@));
        }
    } else if secret::admin_password_is_due(cluster) {
        assert(secrets[0].metadata.name == Some(cluster.name + "-oidc-admin-password"@));
    }
}

/// All objects of a role group are named after it: two role groups of one cluster never share a
/// name.
pub proof fn law_role_groups_do_not_share_names(
    cluster: ValidatedClusterView,
    role_group: Seq<char>,
    other: Seq<char>,
)
    ensures
        cluster.names_of(role_group).qualified_name() == name_of(cluster.name, role_group),
        cluster.object_name_of(role_group) == name_of(cluster.name, role_group),
        role_group != other ==> cluster.object_name_of(role_group) != cluster.object_name_of(other),
{
    lemma_names(cluster.name, role_group);
    lemma_names(cluster.name, other);
    let start = cluster.name + "-node-"@;
    let at = start.len() as int;
    assert(name_of(cluster.name, role_group).skip(at) =~= role_group);
    assert(name_of(cluster.name, other).skip(at) =~= other);
}

} // verus!
