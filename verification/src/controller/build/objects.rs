//! How all objects of a cluster fit together, and how the metrics of NiFi 1.x are set up.

use crate::controller::build;
use crate::controller::build::properties::product_logging;
use crate::controller::build::resource::config_map;
use crate::controller::build::resource::config_map::RoleGroupFilesView;
use crate::controller::build::resource::node_pod;
use crate::controller::build::resource::node_pod::ShellSnippetsView;
use crate::controller::build::resource::pod_contents;
use crate::controller::build::resource::reporting_task;
use crate::controller::build::resource::role_group;
use crate::controller::build::resource::secret;
use crate::controller::build::resource::statefulset;
use crate::controller::build::resource::volumes;
use crate::controller::build::ErrorView;
use crate::controller::{KubernetesResourcesView, NifiRoleGroupConfigView, ValidatedClusterView};
use crate::kubernetes::{
    ConfigMapView, JobView, PodContainerView, SecretFormat, ServiceView, StatefulSetView,
    VolumeMountView, VolumeSourceView, VolumeView,
};
use crate::ordered_map;
use crate::text;
use vstd::prelude::*;

verus! {

/// The objects of each role group are built from what belongs to that role group.
proof fn lemma_objects(
    cluster: ValidatedClusterView,
    groups: Seq<(Seq<char>, NifiRoleGroupConfigView)>,
    files: Map<Seq<char>, RoleGroupFilesView>,
    snippets: Map<Seq<char>, ShellSnippetsView>,
    security: Map<Seq<char>, Option<Seq<char>>>,
    i: int,
)
    requires
        0 <= i < groups.len(),
        build::role_group_objects(cluster, groups, files, snippets, security).is_ok(),
    ensures
        ({
            let objects = build::role_group_objects(
                cluster,
                groups,
                files,
                snippets,
                security,
            )->Ok_0;
            let (name, rg) = groups[i];
            &&& objects.stateful_sets.len() == groups.len()
            &&& objects.config_maps.len() == groups.len()
            &&& build::role_group_stateful_set(cluster, name, rg, snippets[name]) == Ok::<
                StatefulSetView,
                ErrorView,
            >(objects.stateful_sets[i])
            &&& build::role_group_config_map(cluster, name, rg, files[name], security[name]) == Ok::<
                ConfigMapView,
                ErrorView,
            >(objects.config_maps[i])
        }),
    decreases groups.len(),
{
    let front = groups.drop_last();
    let objects = build::role_group_objects(cluster, groups, files, snippets, security)->Ok_0;
    if front.len() > 0 {
        let at = if i < front.len() {
            i
        } else {
            0
        };
        lemma_objects(cluster, front, files, snippets, security, at);
        assert(groups[at] == front[at]);
    }
    let some = build::role_group_objects(cluster, front, files, snippets, security)->Ok_0;
    if i < front.len() {
        assert(objects.stateful_sets[i] == some.stateful_sets[i]);
        assert(objects.config_maps[i] == some.config_maps[i]);
    } else {
        assert(groups[i] == groups.last());
    }
}

/// Every role group gets the StatefulSet and the ConfigMap that its own settings ask for: with as
/// many nodes as the user wants, replaced one by one, under the account that is built beside them,
/// and with a log agent exactly where it has one.
pub proof fn law_role_groups_get_their_own_objects(
    cluster: ValidatedClusterView,
    files: Map<Seq<char>, RoleGroupFilesView>,
    snippets: Map<Seq<char>, ShellSnippetsView>,
    security: Map<Seq<char>, Option<Seq<char>>>,
    sensitive_key: Seq<char>,
    admin_password: Seq<char>,
    objects: KubernetesResourcesView,
    i: int,
)
    requires
        build::all_objects(cluster, files, snippets, security, sensitive_key, admin_password)
            == Ok::<KubernetesResourcesView, ErrorView>(objects),
        0 <= i < ordered_map::ordered_entries(cluster.role_group_configs).len(),
    ensures
        ({
            let (name, rg) = ordered_map::ordered_entries(cluster.role_group_configs)[i];
            let set = objects.stateful_sets[i];
            &&& objects.service_accounts.len() == 1
            &&& objects.service_accounts[0].metadata.name == Some(
                cluster.name + "-serviceaccount"@,
            )
            &&& set.template.service_account_name == objects.service_accounts[0].metadata.name
            &&& rg.replicas.is_some() ==> set.replicas.is_some() && set.replicas.unwrap()
                == rg.replicas.unwrap()
            &&& rg.replicas.is_none() ==> set.replicas == None::<i32>
            &&& set.update_strategy == Some("RollingUpdate"@)
            &&& statefulset::stateful_set_outcome(
                cluster,
                name,
                rg,
                true,
                set.replicas,
                cluster.name + "-serviceaccount"@,
                snippets[name],
            ) == Ok::<StatefulSetView, node_pod::Error>(set)
            &&& config_map::config_map_outcome(
                cluster,
                name,
                files[name],
                if rg.config.logging.vector_container.is_some() {
                    Some(product_logging::VECTOR_CONFIG@)
                } else {
                    None
                },
                security[name],
            ) == Ok::<ConfigMapView, config_map::ErrorView>(objects.config_maps[i])
        }),
{
    let groups = ordered_map::ordered_entries(cluster.role_group_configs);
    lemma_objects(cluster, groups, files, snippets, security, i);
    let (name, rg) = groups[i];
    let set = objects.stateful_sets[i];
    pod_contents::law_pods_are_scheduled_as_wanted(
        statefulset::node_pod(
            cluster,
            name,
            rg,
            cluster.name + "-serviceaccount"@,
            snippets[name],
        ),
    );
    assert(config_map::config_map_outcome(
        cluster,
        name,
        files[name],
        build::vector_config(rg),
        security[name],
    ) == Ok::<ConfigMapView, config_map::ErrorView>(objects.config_maps[i]));
}

/// Beside the role groups a cluster has one Listener, of the class that the role names; one
/// account, bound once; a disruption budget exactly where the role wants one, for as many nodes as
/// it says, or else for one; and the Secrets that are missing.
pub proof fn law_role_gets_its_objects(
    cluster: ValidatedClusterView,
    files: Map<Seq<char>, RoleGroupFilesView>,
    snippets: Map<Seq<char>, ShellSnippetsView>,
    security: Map<Seq<char>, Option<Seq<char>>>,
    sensitive_key: Seq<char>,
    admin_password: Seq<char>,
    objects: KubernetesResourcesView,
)
    requires
        build::all_objects(cluster, files, snippets, security, sensitive_key, admin_password)
            == Ok::<KubernetesResourcesView, ErrorView>(objects),
    ensures
        objects.listeners.len() == 1,
        objects.listeners[0].class_name == Some(cluster.role_config.listener_class),
        objects.listeners[0].metadata.name == Some(cluster.name + "-"@ + "node"@),
        objects.service_accounts.len() == 1 && objects.role_bindings.len() == 1,
        objects.role_bindings[0].service_account_name == cluster.name + "-serviceaccount"@,
        objects.secrets == secret::generated_secrets(cluster, sensitive_key, admin_password),
        !cluster.role_config.pdb.enabled ==> objects.pod_disruption_budgets.len() == 0,
        cluster.role_config.pdb.enabled ==> objects.pod_disruption_budgets.len() == 1,
        cluster.role_config.pdb.enabled && cluster.role_config.pdb.max_unavailable.is_some()
            ==> objects.pod_disruption_budgets[0].max_unavailable
            == cluster.role_config.pdb.max_unavailable,
        cluster.role_config.pdb.enabled && cluster.role_config.pdb.max_unavailable.is_none()
            ==> objects.pod_disruption_budgets[0].max_unavailable == Some(1u16),
        cluster.role_group_configs.dom().finite() ==> objects.stateful_sets.len()
            == cluster.role_group_configs.dom().len(),
{
    let groups = ordered_map::ordered_entries(cluster.role_group_configs);
    if cluster.role_group_configs.dom().finite() {
        ordered_map::lemma_entries_in_order(cluster.role_group_configs);
        lemma_entry_count(cluster.role_group_configs);
        if groups.len() > 0 {
            lemma_objects(cluster, groups, files, snippets, security, 0);
        }
    }
}

/// There are as many entries as keys.
proof fn lemma_entry_count(map: Map<Seq<char>, NifiRoleGroupConfigView>)
    requires
        map.dom().finite(),
    ensures
        ordered_map::ordered_entries(map).len() == map.dom().len(),
{
    let entries = ordered_map::ordered_entries(map);
    ordered_map::lemma_entries_in_order(map);
    let keys = entries.map_values(|entry: (Seq<char>, NifiRoleGroupConfigView)| entry.0);
    assert(keys.no_duplicates()) by {
        assert forall|i: int, j: int|
            0 <= i < keys.len() && 0 <= j < keys.len() && i != j implies keys[i] != keys[j] by {
            if i < j {
                assert(text::lex_less(entries[i].0, entries[j].0));
                text::lemma_lex_irreflexive(keys[i]);
            } else {
                assert(text::lex_less(entries[j].0, entries[i].0));
                text::lemma_lex_irreflexive(keys[i]);
            }
        }
    }
    keys.unique_seq_to_set();
    assert(keys.to_set() =~= map.dom()) by {
        assert forall|key: Seq<char>| keys.to_set().contains(key) == map.dom().contains(key) by {
            ordered_map::lemma_as_map_keys(entries, key);
            if map.dom().contains(key) {
                let at = choose|i: int| 0 <= i < entries.len() && (#[trigger] entries[i]).0 == key;
                assert(keys[at] == key);
            }
            if keys.contains(key) {
                let at = choose|i: int| 0 <= i < keys.len() && keys[i] == key;
                assert(entries[at].0 == key);
            }
        }
    }
}

/// Whether some words of a command stand in it, in their order.
pub open spec fn is_run_with(job: JobView, words: Seq<Seq<char>>) -> bool {
    &&& job.template.containers.len() == 1
    &&& job.template.containers[0] matches PodContainerView::Own { container }
        && container.command == seq!["sh"@, "-c"@] && container.args == seq![
        text::joined(words, " "@),
    ]
}

/// The metrics of NiFi 1.x, and only of it, are set up by a Job. It calls the Service that is built
/// with it, as the user of the authentication and with the password of that user, asks for the port
/// of the metrics, and trusts the certificates of the SecretClass of the cluster.
pub proof fn law_metrics_of_nifi_1_are_set_up(
    cluster: ValidatedClusterView,
    service_account_name: Seq<char>,
    job: JobView,
    service: ServiceView,
)
    requires
        reporting_task::reporting_task(cluster, service_account_name) == Ok::<
            Option<(JobView, ServiceView)>,
            reporting_task::Error,
        >(Some((job, service))),
    ensures
        "1."@.is_prefix_of(cluster.image.product_version),
        role_group::belongs_to(service.metadata, cluster, cluster.name + "-reporting-task"@),
        role_group::belongs_to(
            job.metadata,
            cluster,
            cluster.name + "-create-reporting-task-"@ + text::replaced_in_lowercase(
                cluster.image.product_version,
                '.',
                '-',
            ),
        ),
        job.template.service_account_name == Some(service_account_name),
        job.template.restart_policy == Some("OnFailure"@),
        job.template.overrides == seq![cluster.cluster_config.reporting_task.pod_overrides],
        job.template.image_pull_secrets == cluster.image.pull_secrets,
        ({
            let (user_file, password_file) =
                cluster.cluster_config.authentication.user_and_password_files();
            is_run_with(
                job,
                seq![
                    "/stackable/python/create_nifi_reporting_task.py"@,
                    "-n https://"@ + service.metadata.name.unwrap() + "."@ + cluster.namespace
                        + ".svc."@ + cluster.cluster_domain + ":8443/nifi-api"@,
                    if user_file.len() == 0 {
                        "-u admin"@
                    } else {
                        "-u \"$(cat "@ + user_file
                            + " | grep -oP '((cn|dn|uid)=\\K[^,]+|.*)' | head -n 1)\""@
                    },
                    "-p \"$(cat "@ + password_file + ")\""@,
                    "-m 8081"@,
                    "-c /stackable/cert/ca.crt"@,
                ],
            )
        }),
        job.template.containers[0]->container.image == Some(cluster.image.image),
        job.template.containers[0]->container.resources.is_some(),
        job.template.containers[0]->container.resources.unwrap().cpu_request == Some("100m"@),
        job.template.containers[0]->container.resources.unwrap().cpu_limit == Some("400m"@),
        job.template.containers[0]->container.resources.unwrap().memory_request == Some("512Mi"@),
        job.template.containers[0]->container.resources.unwrap().memory_limit == Some("512Mi"@),
        job.backoff_limit == Some(100i32) && job.ttl_seconds_after_finished == Some(120i32),
        job.template.containers[0]->container.volume_mounts.contains(
            VolumeMountView { name: "tls"@, mount_path: "/stackable/cert"@, sub_path: None },
        ),
        job.template.volumes.contains(
            VolumeView {
                name: "tls"@,
                source: VolumeSourceView::Tls {
                    secret_class: cluster.cluster_config.server_tls_secret_class,
                    service_scopes: Seq::empty(),
                    format: SecretFormat::TlsPem,
                    requested_lifetime_seconds: 86400,
                    listener_scope: None,
                },
            },
        ),
        forall|i: int|
            #![trigger cluster.cluster_config.authentication.volume_mounts()[i]]
            0 <= i < cluster.cluster_config.authentication.volume_mounts().len()
                ==> job.template.containers[0]->container.volume_mounts.contains(
                cluster.cluster_config.authentication.volume_mounts()[i],
            ),
        forall|i: int|
            #![trigger cluster.cluster_config.authentication.volumes()[i]]
            0 <= i < cluster.cluster_config.authentication.volumes().len()
                ==> job.template.volumes.contains(
                cluster.cluster_config.authentication.volumes()[i],
            ),
{
    lemma_script(cluster);
    lemma_service_name(cluster.name);
    let login = cluster.cluster_config.authentication;
    let own = seq![
        volumes::whole_mount(
            reporting_task::REPORTING_TASK_CERT_VOLUME_NAME@,
            reporting_task::REPORTING_TASK_CERT_VOLUME_MOUNT@,
        ),
    ];
    let mounts = volumes::put_mounts(own, login.volume_mounts()).unwrap();
    assert(own[0] == own.last());
    volumes::lemma_put_mounts(own, login.volume_mounts(), own[0]);
    assert forall|i: int|
        #![trigger cluster.cluster_config.authentication.volume_mounts()[i]]
        0 <= i < login.volume_mounts().len() implies mounts.contains(
        cluster.cluster_config.authentication.volume_mounts()[i],
    ) by {
        volumes::lemma_put_mounts(own, login.volume_mounts(), login.volume_mounts()[i]);
    }
    let auth_volumes = volumes::put_volumes(Seq::empty(), login.volumes()).unwrap();
    let certificate = reporting_task::certificate_volume(cluster);
    reveal_with_fuel(volumes::put_volumes, 2);
    assert(seq![certificate].drop_last() =~= Seq::empty());
    assert(seq![certificate][0] == certificate);
    volumes::lemma_put_volumes(auth_volumes, seq![certificate], certificate);
    assert forall|i: int|
        #![trigger cluster.cluster_config.authentication.volumes()[i]]
        0 <= i < login.volumes().len() implies job.template.volumes.contains(
        cluster.cluster_config.authentication.volumes()[i],
    ) by {
        volumes::lemma_put_volumes(Seq::empty(), login.volumes(), login.volumes()[i]);
        volumes::lemma_put_volumes(auth_volumes, seq![certificate], login.volumes()[i]);
    }
}

/// The name of the Service, spelled out.
proof fn lemma_service_name(cluster_name: Seq<char>)
    ensures
        reporting_task::service_name(cluster_name) == cluster_name + "-reporting-task"@,
{
    reveal_strlit("-");
    reveal_strlit("reporting-task");
    reveal_strlit("-reporting-task");
    assert("-"@ + "reporting-task"@ =~= "-reporting-task"@);
    assert(cluster_name + "-"@ + "reporting-task"@ =~= cluster_name + ("-"@ + "reporting-task"@));
}

/// The words of the command, spelled out.
proof fn lemma_script(cluster: ValidatedClusterView)
    ensures
        ({
            let (user_file, password_file) =
                cluster.cluster_config.authentication.user_and_password_files();
            reporting_task::script_arguments(cluster) == seq![
                "/stackable/python/create_nifi_reporting_task.py"@,
                "-n https://"@ + (cluster.name + "-reporting-task"@) + "."@ + cluster.namespace
                    + ".svc."@ + cluster.cluster_domain + ":8443/nifi-api"@,
                if user_file.len() == 0 {
                    "-u admin"@
                } else {
                    "-u \"$(cat "@ + user_file
                        + " | grep -oP '((cn|dn|uid)=\\K[^,]+|.*)' | head -n 1)\""@
                },
                "-p \"$(cat "@ + password_file + ")\""@,
                "-m 8081"@,
                "-c /stackable/cert/ca.crt"@,
            ]
        }),
{
    let (user_file, password_file) =
        cluster.cluster_config.authentication.user_and_password_files();
    lemma_service_name(cluster.name);
    reveal_with_fuel(text::decimal, 5);
    assert(text::decimal(8443) =~= "8443"@) by {
        reveal_strlit("8443");
    }
    assert(text::decimal(8081) =~= "8081"@) by {
        reveal_strlit("8081");
    }
    assert("-m "@ + "8081"@ =~= "-m 8081"@) by {
        reveal_strlit("-m ");
        reveal_strlit("8081");
        reveal_strlit("-m 8081");
    }
    assert("-c "@ + "/stackable/cert"@ + "/ca.crt"@ =~= "-c /stackable/cert/ca.crt"@) by {
        reveal_strlit("-c ");
        reveal_strlit("/stackable/cert");
        reveal_strlit("/ca.crt");
        reveal_strlit("-c /stackable/cert/ca.crt");
    }
    assert("-u "@ + "admin"@ =~= "-u admin"@) by {
        reveal_strlit("-u ");
        reveal_strlit("admin");
        reveal_strlit("-u admin");
    }
    assert(":"@ + "8443"@ + "/nifi-api"@ =~= ":8443/nifi-api"@) by {
        reveal_strlit(":");
        reveal_strlit("8443");
        reveal_strlit("/nifi-api");
        reveal_strlit(":8443/nifi-api");
    }
    if user_file.len() == 0 {
        assert(user_file =~= Seq::<char>::empty());
    }
    lemma_address_parts(
        "-n https://"@,
        cluster.name + "-reporting-task"@,
        "."@,
        cluster.namespace,
        ".svc."@,
        cluster.cluster_domain,
        ":"@,
        "8443"@,
        "/nifi-api"@,
    );
}

/// An address of nine parts, put together in another way.
proof fn lemma_address_parts(
    a: Seq<char>,
    b: Seq<char>,
    c: Seq<char>,
    d: Seq<char>,
    e: Seq<char>,
    f: Seq<char>,
    g: Seq<char>,
    h: Seq<char>,
    i: Seq<char>,
)
    ensures
        a + (b + c + d + e + f) + g + h + i == a + b + c + d + e + f + (g + h + i),
{
    assert(a + (b + c + d + e + f) + g + h + i =~= a + b + c + d + e + f + (g + h + i));
}

/// The Service of the reporting task leads to the first node of one role group, at the port of the
/// user interface, and to no other pod.
pub proof fn law_reporting_task_calls_one_node(
    cluster: ValidatedClusterView,
    service_account_name: Seq<char>,
    job: JobView,
    service: ServiceView,
) -> (i: int)
    requires
        reporting_task::reporting_task(cluster, service_account_name) == Ok::<
            Option<(JobView, ServiceView)>,
            reporting_task::Error,
        >(Some((job, service))),
    ensures
        ({
            let groups = ordered_map::ordered_entries(cluster.role_group_configs);
            let pod_name = "statefulset.kubernetes.io/pod-name"@;
            &&& 0 <= i < groups.len()
            &&& groups[i].1.replicas == Some(0u16) ==> forall|j: int|
                0 <= j < groups.len() ==> (#[trigger] groups[j]).1.replicas == Some(0u16)
            &&& groups[i].1.replicas != Some(0u16) ==> forall|j: int|
                0 <= j < i ==> (#[trigger] groups[j]).1.replicas == Some(0u16)
            &&& service.selector.dom().contains(pod_name)
            &&& service.selector[pod_name] == role_group::name_of(cluster.name, groups[i].0)
                + "-0"@
            &&& role_group::finds(service.selector.remove(pod_name), cluster.name, "node"@, None)
            &&& service.ports.len() == 1
            &&& service.ports[0].name == Some("https"@)
            &&& service.ports[0].port == 8443
            &&& service.ports[0].protocol == Some("TCP"@)
        }),
{
    let groups = ordered_map::ordered_entries(cluster.role_group_configs);
    reporting_task::law_reporting_task_node(groups);
    let i = choose|i: int|
        #![trigger groups[i]]
        0 <= i < groups.len() && reporting_task::chosen_group(groups) == Some(groups[i].0) && ((
        forall|j: int|
            0 <= j < groups.len() ==> !reporting_task::has_nodes(#[trigger] groups[j].1))
            || reporting_task::has_nodes(groups[i].1) && forall|j: int|
            0 <= j < i ==> !reporting_task::has_nodes(#[trigger] groups[j].1));
    role_group::lemma_names(cluster.name, groups[i].0);
    role_group::lemma_label_names();
    reveal_strlit("statefulset.kubernetes.io/pod-name");
    assert("statefulset.kubernetes.io/pod-name"@.len() == 34);
    i
}

/// Newer versions report by themselves: nothing is set up for them.
pub proof fn law_newer_versions_report_by_themselves(
    cluster: ValidatedClusterView,
    service_account_name: Seq<char>,
)
    ensures
        (reporting_task::reporting_task(cluster, service_account_name) == Ok::<
            Option<(JobView, ServiceView)>,
            reporting_task::Error,
        >(None)) <==> !"1."@.is_prefix_of(cluster.image.product_version),
{
}

} // verus!
