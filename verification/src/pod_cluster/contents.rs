//! What the pods of a cluster hold, and what is done about them and about their metrics.

use crate::kubernetes::{
    ConfigMapView, ContainerPortView, ContainerView, EnvVarSourceView, EnvVarView, ObjectMetaView,
};
use crate::ordered_map;
use crate::pod_cluster::monitoring;
use crate::pod_cluster::monitoring::{
    MonitoringActionView, NifiMonitoringErrorView, NifiRestEndpointView, ReconcileFunctionAction,
    ReportingTaskRevisionView, ReportingTaskState, ReportingTaskView,
};
use crate::pod_cluster::pod_utils;
use crate::pod_cluster::state;
use crate::pod_cluster::state::{
    ConfigMapAction, ConfigMapMountView, ExistingConfigMapView, MissingPodView, NifiErrorView,
    OperatorErrorView, PodContextView, PodView, RenderedFilesView, Stage, ValidatedConfigView,
};
use crate::pod_cluster::{NifiRole, NifiVersion};
use crate::text;
use vstd::prelude::*;

verus! {

/// Whether an object has a name, lies in the namespace of the cluster, and goes when the cluster
/// goes.
pub open spec fn belongs_to(
    metadata: ObjectMetaView,
    context: PodContextView,
    name: Seq<char>,
) -> bool {
    &&& metadata.name == Some(name)
    &&& metadata.namespace == Some(context.namespace)
    &&& metadata.owner_references.len() == 1
    &&& metadata.owner_references[0].kind == "NifiCluster"@
    &&& metadata.owner_references[0].api_version == "nifi.stackable.tech/v1alpha1"@
    &&& metadata.owner_references[0].name == context.cluster_name
    &&& context.cluster_uid == Some(metadata.owner_references[0].uid)
    &&& metadata.owner_references[0].controller == Some(true)
    &&& metadata.owner_references[0].block_owner_deletion == Some(true)
}

/// A setting of `nifi.properties`, where there is one.
pub open spec fn setting(config: ValidatedConfigView, key: Seq<char>) -> Option<Seq<char>> {
    if config.files.dom().contains("nifi.properties"@)
        && config.files["nifi.properties"@].dom().contains(key) {
        Some(config.files["nifi.properties"@][key])
    } else {
        None
    }
}

/// The port for metrics, where the user sets one.
pub open spec fn wanted_metrics_port(config: ValidatedConfigView) -> Option<Seq<char>> {
    if config.env.is_some() && config.env.unwrap().dom().contains("metricsPort"@) {
        Some(config.env.unwrap()["metricsPort"@])
    } else {
        None
    }
}

/// Whether ports hold one under a name exactly where a setting gives one, and it is the one that
/// the setting gives.
pub open spec fn opens(
    ports: Seq<ContainerPortView>,
    name: Seq<char>,
    port: Option<Seq<char>>,
) -> bool {
    &&& port.is_none() ==> forall|i: int|
        0 <= i < ports.len() ==> (#[trigger] ports[i]).name != Some(name)
    &&& port.is_some() ==> text::parsed_u16(port.unwrap()).is_some() && exists|i: int|
        0 <= i < ports.len() && (#[trigger] ports[i]).name == Some(name) && ports[i].container_port
            == text::parsed_u16(port.unwrap()).unwrap()
}

/// The pod of a node runs there, under its name and labels, the version that the user wants, with
/// the configuration that is built beside it. It belongs to the cluster.
pub proof fn law_pods_run_on_their_nodes(
    context: PodContextView,
    pod_name: Seq<char>,
    node_name: Seq<char>,
    config: ValidatedConfigView,
    files: RenderedFilesView,
    pod: PodView,
    config_maps: Seq<ConfigMapView>,
)
    requires
        state::pod_outcome(context, pod_name, node_name, config, files) == Ok::<
            (PodView, Seq<ConfigMapView>),
            NifiErrorView,
        >((pod, config_maps)),
    ensures
        belongs_to(pod.metadata, context, pod_name),
        pod.metadata.labels == context.labels,
        wanted_metrics_port(config).is_some() ==> pod.metadata.annotations.dom().contains(
            "monitoring.stackable.tech/should_be_scraped"@,
        ) && pod.metadata.annotations["monitoring.stackable.tech/should_be_scraped"@] == "true"@,
        wanted_metrics_port(config).is_none() ==> pod.metadata.annotations.dom() == Set::<
            Seq<char>,
        >::empty(),
        pod.spec.is_some(),
        pod.spec.unwrap().node_name == Some(node_name),
        pod.spec.unwrap().tolerates_stackable_agent,
        pod.spec.unwrap().containers.len() == 1,
        ({
            let container = pod.spec.unwrap().containers[0];
            &&& container.name == "nifi"@
            &&& container.image == Some("nifi:"@ + context.spec.version.text())
            &&& container.command == seq![
                "nifi-"@ + context.spec.version.text() + "/bin/nifi.sh run"@,
            ]
            &&& container.args.len() == 0
        }),
        config_maps.len() == 1,
        belongs_to(config_maps[0].metadata, context, pod_name + "-config"@),
        pod.spec.unwrap().config_map_mounts == seq![
            ConfigMapMountView {
                config_map: config_maps[0].metadata.name.unwrap(),
                mount_path: "{{packageroot}}/nifi-"@ + context.spec.version.text() + "/conf"@,
            },
        ],
{
    reveal_strlit("nifi");
    reveal_strlit(":");
    reveal_strlit("nifi:");
    assert("nifi"@ + ":"@ =~= "nifi:"@);
    assert(pod.spec.unwrap().config_map_mounts =~= seq![
        ConfigMapMountView {
            config_map: config_maps[0].metadata.name.unwrap(),
            mount_path: "{{packageroot}}/nifi-"@ + context.spec.version.text() + "/conf"@,
        },
    ]);
}

/// The pod opens the ports that `nifi.properties` names, each under its name, and the port for
/// metrics where the user wants one; and no others.
pub proof fn law_pods_open_the_configured_ports(
    context: PodContextView,
    pod_name: Seq<char>,
    node_name: Seq<char>,
    config: ValidatedConfigView,
    files: RenderedFilesView,
)
    requires
        state::pod_outcome(context, pod_name, node_name, config, files).is_ok(),
    ensures
        ({
            let ports = state::pod_outcome(
                context,
                pod_name,
                node_name,
                config,
                files,
            )->Ok_0.0.spec.unwrap().containers[0].ports;
            &&& opens(ports, "http"@, setting(config, "nifi.web.http.port"@))
            &&& opens(ports, "protocol"@, setting(config, "nifi.cluster.node.protocol.port"@))
            &&& opens(ports, "loadbalance"@, setting(config, "nifi.cluster.load.balance.port"@))
            &&& opens(ports, "metrics"@, wanted_metrics_port(config))
        }),
{
    reveal_strlit("http");
    reveal_strlit("protocol");
    reveal_strlit("loadbalance");
    reveal_strlit("metrics");
    assert("http"@[0] == 'h' && "protocol"@[0] == 'p' && "loadbalance"@[0] == 'l' && "metrics"@[0]
        == 'm');
    let ports = state::ports_of(config);
    let metrics_port = state::metrics_port_of(config);
    let none = Seq::<ContainerPortView>::empty();
    let http = state::with_port(Some(none), "http"@, ports.http_port).unwrap();
    let protocol = state::with_port(Some(http), "protocol"@, ports.protocol_port).unwrap();
    let balance = state::with_port(
        Some(protocol),
        "loadbalance"@,
        ports.load_balance_port,
    ).unwrap();
    lemma_port_opened(none, "http"@, ports.http_port);
    lemma_port_stays(none, "http"@, ports.http_port, "protocol"@, None);
    lemma_port_stays(none, "http"@, ports.http_port, "loadbalance"@, None);
    lemma_port_stays(none, "http"@, ports.http_port, "metrics"@, None);
    lemma_port_opened(http, "protocol"@, ports.protocol_port);
    lemma_port_stays(http, "protocol"@, ports.protocol_port, "http"@, ports.http_port);
    lemma_port_stays(http, "protocol"@, ports.protocol_port, "loadbalance"@, None);
    lemma_port_stays(http, "protocol"@, ports.protocol_port, "metrics"@, None);
    let last = ports.load_balance_port;
    lemma_port_opened(protocol, "loadbalance"@, last);
    lemma_port_stays(protocol, "loadbalance"@, last, "http"@, ports.http_port);
    lemma_port_stays(protocol, "loadbalance"@, last, "protocol"@, ports.protocol_port);
    lemma_port_stays(protocol, "loadbalance"@, last, "metrics"@, None);
    lemma_port_opened(balance, "metrics"@, metrics_port);
    lemma_port_stays(balance, "metrics"@, metrics_port, "http"@, ports.http_port);
    lemma_port_stays(balance, "metrics"@, metrics_port, "protocol"@, ports.protocol_port);
    lemma_port_stays(balance, "metrics"@, metrics_port, "loadbalance"@, last);
}

/// A port that is added under a new name is there.
proof fn lemma_port_opened(ports: Seq<ContainerPortView>, name: Seq<char>, port: Option<Seq<char>>)
    requires
        state::with_port(Some(ports), name, port).is_some(),
        opens(ports, name, None),
    ensures
        opens(state::with_port(Some(ports), name, port).unwrap(), name, port),
{
    let all = state::with_port(Some(ports), name, port).unwrap();
    if port.is_some() {
        assert(all[ports.len() as int].name == Some(name));
    }
}

/// Adding a port under one name changes nothing under another one.
proof fn lemma_port_stays(
    ports: Seq<ContainerPortView>,
    name: Seq<char>,
    port: Option<Seq<char>>,
    other: Seq<char>,
    other_port: Option<Seq<char>>,
)
    requires
        state::with_port(Some(ports), name, port).is_some(),
        name != other,
        opens(ports, other, other_port),
    ensures
        opens(state::with_port(Some(ports), name, port).unwrap(), other, other_port),
{
    let all = state::with_port(Some(ports), name, port).unwrap();
    if port.is_some() && other_port.is_some() {
        let i = choose|i: int|
            0 <= i < ports.len() && (#[trigger] ports[i]).name == Some(other)
                && ports[i].container_port == text::parsed_u16(other_port.unwrap()).unwrap();
        assert(all[i] == ports[i]);
    }
}

/// The pod cannot be built exactly where a port is no number, or where the cluster has no UID.
pub proof fn law_pods_are_refused_for_these_reasons(
    context: PodContextView,
    pod_name: Seq<char>,
    node_name: Seq<char>,
    config: ValidatedConfigView,
    files: RenderedFilesView,
)
    ensures
        ({
            let outcome = state::pod_outcome(context, pod_name, node_name, config, files);
            let is_number = |port: Option<Seq<char>>|
                port.is_none() || text::parsed_u16(port.unwrap()).is_some();
            let all_numbers = is_number(setting(config, "nifi.web.http.port"@)) && is_number(
                setting(config, "nifi.cluster.node.protocol.port"@),
            ) && is_number(setting(config, "nifi.cluster.load.balance.port"@)) && is_number(
                wanted_metrics_port(config),
            );
            &&& !all_numbers ==> outcome == Err::<(PodView, Seq<ConfigMapView>), NifiErrorView>(
                NifiErrorView::ParseError,
            )
            &&& all_numbers && context.cluster_uid.is_none() ==> outcome == Err::<
                (PodView, Seq<ConfigMapView>),
                NifiErrorView,
            >(NifiErrorView::OperatorError { source: OperatorErrorView::MissingOwner })
            &&& all_numbers && context.cluster_uid.is_some() ==> outcome.is_ok()
        }),
{
}

/// The ConfigMap of a pod holds those of the three files that the product configuration knows, each
/// under its name, and nothing else.
pub proof fn law_pods_have_their_files(
    context: PodContextView,
    pod_name: Seq<char>,
    node_name: Seq<char>,
    config: ValidatedConfigView,
    files: RenderedFilesView,
    file: Seq<char>,
)
    requires
        state::pod_outcome(context, pod_name, node_name, config, files).is_ok(),
    ensures
        ({
            let data = state::pod_outcome(
                context,
                pod_name,
                node_name,
                config,
                files,
            )->Ok_0.1[0].data;
            let known = config.files.dom();
            &&& data.dom().contains(file) <==> known.contains(file) && (file == "bootstrap.conf"@
                || file == "nifi.properties"@ || file == "state-management.xml"@)
            &&& known.contains("bootstrap.conf"@) ==> data["bootstrap.conf"@]
                == files.bootstrap_conf
            &&& known.contains("nifi.properties"@) ==> data["nifi.properties"@]
                == files.nifi_properties
            &&& known.contains("state-management.xml"@) ==> data["state-management.xml"@]
                == files.state_management_xml
        }),
{
    reveal_strlit("bootstrap.conf");
    reveal_strlit("nifi.properties");
    reveal_strlit("state-management.xml");
    assert("bootstrap.conf"@[0] == 'b' && "nifi.properties"@[0] == 'n' && "state-management.xml"@[0]
        == 's');
}

/// The container has exactly the environment variables of the product configuration, but for those
/// without a name and the port for metrics.
pub proof fn law_pods_have_their_variables(
    context: PodContextView,
    config: ValidatedConfigView,
    ports: Seq<ContainerPortView>,
    name: Seq<char>,
    value: Seq<char>,
)
    requires
        config.env.is_some(),
        config.env.unwrap().dom().finite(),
    ensures
        state::nifi_container(context, config, ports).env.contains(
            EnvVarView { name, source: EnvVarSourceView::Literal { value } },
        ) <==> config.env.unwrap().dom().contains(name) && config.env.unwrap()[name] == value
            && name.len() > 0 && name != "metricsPort"@,
{
    let env = config.env.unwrap();
    let entries = ordered_map::ordered_entries(env);
    ordered_map::lemma_entries_in_order(env);
    lemma_env(entries, name, value);
    ordered_map::lemma_as_map_keys(entries, name);
    if env.dom().contains(name) {
        let at = choose|i: int| 0 <= i < entries.len() && (#[trigger] entries[i]).0 == name;
        ordered_map::lemma_as_map_value(entries, at);
        assert(entries[at] == (name, env[name]));
    }
    if entries.contains((name, value)) {
        let at = choose|i: int| 0 <= i < entries.len() && entries[i] == (name, value);
        assert(entries[at].0 == name);
        ordered_map::lemma_as_map_value(entries, at);
    }
}

/// The variables that entries become.
proof fn lemma_env(entries: Seq<(Seq<char>, Seq<char>)>, name: Seq<char>, value: Seq<char>)
    ensures
        state::env_of(entries).contains(
            EnvVarView { name, source: EnvVarSourceView::Literal { value } },
        ) <==> entries.contains((name, value)) && name.len() > 0 && name != "metricsPort"@,
    decreases entries.len(),
{
    let wanted = EnvVarView { name, source: EnvVarSourceView::Literal { value } };
    if entries.len() > 0 {
        let front = entries.drop_last();
        lemma_env(front, name, value);
        let (last_name, last_value) = entries.last();
        let before = state::env_of(front);
        let all = state::env_of(entries);
        let last = EnvVarView {
            name: last_name,
            source: EnvVarSourceView::Literal { value: last_value },
        };
        if last_name.len() == 0 || last_name == "metricsPort"@ {
            assert(all == before);
        } else {
            assert(all == before.push(last));
            assert(all[before.len() as int] == last);
            if all.contains(wanted) {
                let at = choose|i: int| 0 <= i < all.len() && all[i] == wanted;
                if at < before.len() {
                    assert(before[at] == wanted);
                }
            }
            if before.contains(wanted) {
                let at = choose|i: int| 0 <= i < before.len() && before[i] == wanted;
                assert(all[at] == wanted);
            }
        }
        if entries.contains((name, value)) {
            let at = choose|i: int| 0 <= i < entries.len() && entries[i] == (name, value);
            if at < front.len() {
                assert(front[at] == (name, value));
            }
        }
        if front.contains((name, value)) {
            let at = choose|i: int| 0 <= i < front.len() && front[i] == (name, value);
            assert(entries[at] == (name, value));
        }
        assert(entries[entries.len() - 1] == (last_name, last_value));
    }
}

/// The name of a pod tells of which cluster, role group, role and node it is.
pub proof fn law_pod_names_tell_whose_they_are(
    context: PodContextView,
    role: NifiRole,
    role_group: Seq<char>,
    node_name: Seq<char>,
)
    ensures
        state::node_pod_name(context, role, role_group, node_name) == pod_utils::lowercase(
            "nifi"@ + "-"@ + context.cluster_name + "-"@ + role_group + "-"@ + "node"@ + "-"@
                + node_name,
        ),
{
}

/// Pods are created for named nodes only, under the role group that the node belongs to.
pub proof fn law_only_named_nodes_get_pods(
    groups: Seq<(Seq<char>, Seq<Option<Seq<char>>>)>,
    pod: MissingPodView,
)
    requires
        state::missing_pods(groups).contains(pod),
    ensures
        exists|i: int, j: int|
            #![trigger groups[i].1[j]]
            0 <= i < groups.len() && 0 <= j < groups[i].1.len() && groups[i].0 == pod.role_group
                && groups[i].1[j] == Some(pod.node_name),
    decreases groups.len(),
{
    let front = state::missing_pods(groups.drop_last());
    let back = state::missing_in_group(groups.last().0, groups.last().1);
    let k = choose|k: int| 0 <= k < (front + back).len() && (front + back)[k] == pod;
    if k < front.len() {
        assert(front[k] == pod);
        law_only_named_nodes_get_pods(groups.drop_last(), pod);
        let (i, j) = choose|i: int, j: int|
            #![trigger groups.drop_last()[i].1[j]]
            0 <= i < groups.drop_last().len() && 0 <= j < groups.drop_last()[i].1.len()
                && groups.drop_last()[i].0 == pod.role_group && groups.drop_last()[i].1[j] == Some(
                pod.node_name,
            );
        assert(groups[i].1[j] == Some(pod.node_name));
    } else {
        assert(back[k - front.len()] == pod);
        let j = lemma_in_group(groups.last().0, groups.last().1, k - front.len());
        assert(groups[groups.len() - 1].1[j] == Some(pod.node_name));
    }
}

/// A pod that is missing in a role group is missing on a named node of it.
proof fn lemma_in_group(
    role_group: Seq<char>,
    nodes: Seq<Option<Seq<char>>>,
    k: int,
) -> (j: int)
    requires
        0 <= k < state::missing_in_group(role_group, nodes).len(),
    ensures
        0 <= j < nodes.len(),
        state::missing_in_group(role_group, nodes)[k].role_group == role_group,
        nodes[j] == Some(state::missing_in_group(role_group, nodes)[k].node_name),
    decreases nodes.len(),
{
    let front = state::missing_in_group(role_group, nodes.drop_last());
    if k < front.len() {
        lemma_in_group(role_group, nodes.drop_last(), k)
    } else {
        nodes.len() - 1
    }
}

/// Pods have to have the labels of the cluster: each exactly one value.
pub proof fn law_pods_have_the_labels_of_the_cluster(cluster_name: Seq<char>, version: NifiVersion)
    ensures
        ({
            let labels = state::required_labels(cluster_name, version);
            &&& labels.dom() == set![
                "app.kubernetes.io/component"@,
                "app.kubernetes.io/instance"@,
                "app.kubernetes.io/version"@,
                "app.kubernetes.io/name"@,
                "app.kubernetes.io/managed-by"@,
            ]
            &&& labels["app.kubernetes.io/component"@] == Some(seq!["node"@])
            &&& labels["app.kubernetes.io/instance"@] == Some(seq![cluster_name])
            &&& labels["app.kubernetes.io/version"@] == Some(seq!["1.13.2"@])
            &&& labels["app.kubernetes.io/name"@] == Some(seq!["nifi"@])
            &&& labels["app.kubernetes.io/managed-by"@] == Some(seq!["nifi-operator"@])
        }),
{
    reveal_strlit("app.kubernetes.io/component");
    reveal_strlit("app.kubernetes.io/instance");
    reveal_strlit("app.kubernetes.io/version");
    reveal_strlit("app.kubernetes.io/name");
    reveal_strlit("app.kubernetes.io/managed-by");
    assert("app.kubernetes.io/component"@.len() == 27);
    assert("app.kubernetes.io/instance"@.len() == 26);
    assert("app.kubernetes.io/version"@.len() == 25);
    assert("app.kubernetes.io/name"@.len() == 22);
    assert("app.kubernetes.io/managed-by"@.len() == 28);
    let labels = state::required_labels(cluster_name, version);
    assert(labels.dom() =~= set![
        "app.kubernetes.io/component"@,
        "app.kubernetes.io/instance"@,
        "app.kubernetes.io/version"@,
        "app.kubernetes.io/name"@,
        "app.kubernetes.io/managed-by"@,
    ]);
}

/// A ConfigMap is created where it is missing, updated where its contents differ, and left alone
/// where they do not. One without a name is refused, and so is a failure of Kubernetes.
pub proof fn law_config_maps_are_kept_up_to_date(
    config_map: ConfigMapView,
    existing: ExistingConfigMapView,
)
    ensures
        ({
            let action = state::config_map_action(config_map, existing);
            let named = config_map.metadata.name.is_some();
            &&& !named ==> action == Err::<ConfigMapAction, NifiErrorView>(
                NifiErrorView::InvalidConfigMap,
            )
            &&& named ==> match existing {
                ExistingConfigMapView::NotFound => action == Ok::<ConfigMapAction, NifiErrorView>(
                    ConfigMapAction::Create,
                ),
                ExistingConfigMapView::Found { data } => {
                    &&& action == Ok::<ConfigMapAction, NifiErrorView>(ConfigMapAction::Skip)
                        <==> data == Some(config_map.data)
                    &&& action == Ok::<ConfigMapAction, NifiErrorView>(ConfigMapAction::Update)
                        <==> data != Some(config_map.data)
                },
                ExistingConfigMapView::Failed { message } => action == Err::<
                    ConfigMapAction,
                    NifiErrorView,
                >(
                    NifiErrorView::OperatorError {
                        source: OperatorErrorView::Kubernetes { message },
                    },
                ),
            }
        }),
{
}

/// Pods are deleted before others are waited for, waited for before surplus ones are deleted, and
/// missing ones are created before metrics are set up.
pub proof fn law_stages_follow_each_other()
    ensures
        state::stage_after(Stage::HandleDeletion) == Some(Stage::GetZookeeperConnectionInformation),
        state::stage_after(Stage::GetZookeeperConnectionInformation) == Some(
            Stage::DeleteIllegalPods,
        ),
        state::stage_after(Stage::DeleteIllegalPods) == Some(Stage::WaitForTerminatingPods),
        state::stage_after(Stage::WaitForTerminatingPods) == Some(
            Stage::WaitForRunningAndReadyPods,
        ),
        state::stage_after(Stage::WaitForRunningAndReadyPods) == Some(Stage::DeleteExcessPods),
        state::stage_after(Stage::DeleteExcessPods) == Some(Stage::CreateMissingPods),
        state::stage_after(Stage::CreateMissingPods) == Some(Stage::ProcessMonitoring),
        state::stage_after(Stage::ProcessMonitoring) == None::<Stage>,
{
}

/// The task that is created reports all metrics of NiFi and of the JVM at the port that the user
/// wants, for the version that runs, without authentication.
pub proof fn law_task_reports_to_prometheus(metrics_port: u16, nifi_version: Seq<char>)
    ensures
        ({
            let task = monitoring::new_task(metrics_port, nifi_version);
            let component = task.component.unwrap();
            &&& task.component.is_some() && task.id.is_none() && task.state.is_none()
            &&& task.revision.version == 0 && task.revision.client_id.is_none()
            &&& task.disconnected_node_acknowledged == Some(false)
            &&& component.name == "StackablePrometheusReportingTask"@
            &&& component.typ == "org.apache.nifi.reporting.prometheus.PrometheusReportingTask"@
            &&& component.bundle.group == "org.apache.nifi"@
            &&& component.bundle.artifact == "nifi-prometheus-nar"@
            &&& component.bundle.version == nifi_version
            &&& text::parsed_u16(component.properties.metrics_endpoint_port) == Some(metrics_port)
            &&& component.properties.instance_id == "${hostname(true)}"@
            &&& component.properties.metrics_strategy == "All Components"@
            &&& component.properties.send_jvm == "true"@
            &&& component.properties.client_auth == "No Authentication"@
            &&& component.properties.ssl_context.is_none()
        }),
{
    text::law_number_round_trip(metrics_port);
}

/// Only a task that has the type, the name, the bundle and the version of the created one is taken
/// for it.
pub proof fn law_other_tasks_are_left_alone(task: ReportingTaskView, nifi_version: Seq<char>)
    ensures
        monitoring::reports_to_prometheus(task, nifi_version) <==> task.component.is_some()
            && task.component.unwrap().name == "StackablePrometheusReportingTask"@
            && task.component.unwrap().typ
            == "org.apache.nifi.reporting.prometheus.PrometheusReportingTask"@
            && task.component.unwrap().bundle.group == "org.apache.nifi"@
            && task.component.unwrap().bundle.artifact == "nifi-prometheus-nar"@
            && task.component.unwrap().bundle.version == nifi_version,
{
}

/// A task is started or stopped in the revision that it has, and nothing else of it changes.
pub proof fn law_tasks_are_changed_in_their_revision(
    revision: ReportingTaskRevisionView,
    state: ReportingTaskState,
)
    ensures
        ({
            let change = monitoring::status_change(revision, state);
            &&& change.revision == revision
            &&& change.state == Some(state)
            &&& change.component.is_none() && change.id.is_none() && change.status.is_none()
            &&& change.disconnected_node_acknowledged == Some(false)
        }),
{
}

/// A task is stopped before it is deleted, and deleted before another one is created. It is only
/// started at the wanted port. What is done is done about that very task, in its revision; and
/// wherever a task has yet to be replaced, another reconciliation follows soon.
pub proof fn law_tasks_are_replaced_step_by_step(
    metrics_port: Option<u16>,
    task: Option<ReportingTaskView>,
)
    ensures
        ({
            let (action, follows) = monitoring::monitoring_decision(metrics_port, task);
            let known = task.is_some() && task.unwrap().status.is_some();
            let runs = known && task.unwrap().status.unwrap().run_status
                == ReportingTaskState::Running;
            let fits = known && metrics_port.is_some() && task.unwrap().component.is_some()
                && task.unwrap().component.unwrap().properties.metrics_endpoint_port
                == text::decimal(metrics_port.unwrap() as nat);
            &&& action matches MonitoringActionView::Create { metrics_port: port } ==> !known
                && metrics_port == Some(port) && follows == (ReconcileFunctionAction::Requeue {
                seconds: 10,
            })
            &&& action matches MonitoringActionView::Stop { task_id, revision } ==> runs && !fits
                && revision == task.unwrap().revision && (task.unwrap().id.is_some() ==> task_id
                == task.unwrap().id.unwrap()) && follows == (ReconcileFunctionAction::Requeue {
                seconds: 5,
            })
            &&& action matches MonitoringActionView::Start { task_id, revision } ==> known && !runs
                && fits && revision == task.unwrap().revision && (task.unwrap().id.is_some()
                ==> task_id == task.unwrap().id.unwrap()) && follows
                == ReconcileFunctionAction::Continue
            &&& action matches MonitoringActionView::Delete { task_id, revision } ==> known
                && !runs && !fits && revision == task.unwrap().revision && (
            task.unwrap().id.is_some() ==> task_id == task.unwrap().id.unwrap()) && (
            metrics_port.is_some() ==> follows == (ReconcileFunctionAction::Requeue { seconds: 5 }))
                && (metrics_port.is_none() ==> follows == ReconcileFunctionAction::Continue)
            &&& action is Nothing <==> (runs && fits) || (!known && metrics_port.is_none())
            &&& action is Nothing ==> follows == ReconcileFunctionAction::Continue
        }),
{
}

/// The API of a node is reached at the node on which its pod runs, at the port that its container
/// opens under the name of HTTP.
pub proof fn law_nodes_are_reached_at_their_port(pod: PodView, endpoint: NifiRestEndpointView)
    requires
        monitoring::endpoint_outcome(pod) == Ok::<NifiRestEndpointView, NifiMonitoringErrorView>(
            endpoint,
        ),
    ensures
        pod.spec.is_some(),
        pod.spec.unwrap().node_name == Some(endpoint.node_name),
        exists|i: int, j: int|
            #![trigger pod.spec.unwrap().containers[i].ports[j]]
            0 <= i < pod.spec.unwrap().containers.len() && 0 <= j
                < pod.spec.unwrap().containers[i].ports.len()
                && pod.spec.unwrap().containers[i].name == "nifi"@
                && pod.spec.unwrap().containers[i].ports[j].name == Some("http"@)
                && pod.spec.unwrap().containers[i].ports[j].container_port == endpoint.http_port,
        endpoint.host() == "http://"@ + endpoint.node_name + ":"@ + text::decimal(
            endpoint.http_port as nat,
        ),
{
    let (i, j) = lemma_container_port(pod.spec.unwrap().containers, "nifi"@, "http"@);
    assert(pod.spec.unwrap().containers[i].ports[j].name == Some("http"@));
}

/// A port that is found is one of those names.
proof fn lemma_container_port(
    containers: Seq<ContainerView>,
    container_name: Seq<char>,
    port_name: Seq<char>,
) -> (found: (int, int))
    requires
        monitoring::container_port(containers, container_name, port_name).is_some(),
    ensures
        0 <= found.0 < containers.len(),
        0 <= found.1 < containers[found.0].ports.len(),
        containers[found.0].name == container_name,
        containers[found.0].ports[found.1].name == Some(port_name),
        containers[found.0].ports[found.1].container_port == monitoring::container_port(
            containers,
            container_name,
            port_name,
        ).unwrap(),
    decreases containers.len(),
{
    let front = containers.drop_last();
    if monitoring::container_port(front, container_name, port_name).is_some() {
        lemma_container_port(front, container_name, port_name)
    } else {
        (containers.len() - 1, lemma_named_port(containers.last().ports, port_name))
    }
}

/// A port that is found has the name.
proof fn lemma_named_port(ports: Seq<ContainerPortView>, port_name: Seq<char>) -> (j: int)
    requires
        monitoring::named_port(ports, port_name).is_some(),
    ensures
        0 <= j < ports.len(),
        ports[j].name == Some(port_name),
        ports[j].container_port == monitoring::named_port(ports, port_name).unwrap(),
    decreases ports.len(),
{
    if monitoring::named_port(ports.drop_last(), port_name).is_some() {
        lemma_named_port(ports.drop_last(), port_name)
    } else {
        ports.len() - 1
    }
}

/// Where the API of a node is not known, it is said what is missing of its pod.
pub proof fn law_unreachable_nodes_are_explained(pod: PodView)
    requires
        pod.metadata.name.is_some(),
    ensures
        ({
            let outcome = monitoring::endpoint_outcome(pod);
            let pod_name = pod.metadata.name.unwrap();
            &&& pod.spec.is_none() ==> outcome == Err::<
                NifiRestEndpointView,
                NifiMonitoringErrorView,
            >(NifiMonitoringErrorView::PodSpecMissing { pod_name })
            &&& pod.spec.is_some() && pod.spec.unwrap().node_name.is_none() ==> outcome == Err::<
                NifiRestEndpointView,
                NifiMonitoringErrorView,
            >(NifiMonitoringErrorView::PodNodeNameMissing { pod_name })
        }),
{
}

/// Every pod gives one address, in the order of the pods.
pub proof fn law_every_pod_has_its_address(
    pods: Seq<PodView>,
    endpoints: Seq<NifiRestEndpointView>,
    i: int,
)
    requires
        monitoring::endpoints_outcome(pods) == Ok::<
            Seq<NifiRestEndpointView>,
            NifiMonitoringErrorView,
        >(endpoints),
        0 <= i < pods.len(),
    ensures
        endpoints.len() == pods.len(),
        monitoring::endpoint_outcome(pods[i]) == Ok::<
            NifiRestEndpointView,
            NifiMonitoringErrorView,
        >(endpoints[i]),
    decreases pods.len(),
{
    let front = pods.drop_last();
    let some = monitoring::endpoints_outcome(front)->Ok_0;
    if front.len() > 0 {
        let at = if i < front.len() {
            i
        } else {
            0
        };
        law_every_pod_has_its_address(front, some, at);
    }
    assert(endpoints.drop_last() =~= some);
    if i < front.len() {
        assert(endpoints[i] == some[i]);
    }
}

/// A task is deleted in the name of the client that changed it last, or else of the first one.
pub proof fn law_deletions_name_their_client(revision: ReportingTaskRevisionView)
    ensures
        revision.client_id.is_some() ==> monitoring::client_of(revision)
            == revision.client_id.unwrap(),
        revision.client_id.is_none() ==> monitoring::client_of(revision) == "1"@,
{
}

/// The tasks are asked for where NiFi lists them, at the node whose turn it is; once all nodes were
/// asked, nothing is listed.
pub proof fn law_tasks_are_listed_by_the_api(endpoints: Seq<NifiRestEndpointView>, at: int)
    ensures
        0 <= at < endpoints.len() && endpoints.len() <= usize::MAX ==> monitoring::list_step_at(
            endpoints,
            at,
        ) == (monitoring::ListStepView::Query {
            at: at as usize,
            url: "http://"@ + endpoints[at].node_name + ":"@ + text::decimal(
                endpoints[at].http_port as nat,
            ) + "/nifi-api/flow/reporting-tasks"@,
        }),
        at >= endpoints.len() ==> monitoring::list_step_at(endpoints, at) == (
        monitoring::ListStepView::Done { tasks: Seq::empty() }),
{
}

} // verus!
