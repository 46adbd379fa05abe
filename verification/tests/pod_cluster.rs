//! Tests of clusters of single pods.

use nifi_operator::kubernetes::{ConfigMap, Container, ContainerPort, EnvVarSource, ObjectMeta};
use nifi_operator::ordered_map::{OrderedMap, StringMap};
use nifi_operator::pod_cluster::monitoring::{
    attempt_outcome, build_task_name, find_pod_container_port, first_attempt, first_list_step,
    next_attempt, next_list_step, nifi_rest_endpoint, process_monitoring, AttemptStep, ListStep,
    MonitoringAction, NifiMonitoringError, NifiRestClient, NifiRestEndpoint,
    ReconcileFunctionAction, ReportingTask, ReportingTaskRevision, ReportingTaskState,
    ReportingTaskStatus, ReportingTaskValidation, ReportingTasks,
};
use nifi_operator::pod_cluster::pod_utils::{build_nifi_start_command, build_pod_name};
use nifi_operator::pod_cluster::state::{
    config_for_role_group, config_map_name, create_config_map, create_missing_pods,
    create_node_pod_and_config_maps, create_pod_and_config_maps, next_stage, required_pod_labels,
    zookeeper_request, ConfigMapAction, ExistingConfigMap, NifiError, OperatorError, Pod,
    PodContext, PodSpec, RenderedFiles, Stage, ValidatedConfig,
};
use nifi_operator::pod_cluster::{
    NifiConfig, NifiRole, NifiSpec, NifiVersion, ZookeeperReference,
};

fn map(pairs: &[(&str, &str)]) -> StringMap {
    let mut map: StringMap = OrderedMap::new();
    for (key, value) in pairs {
        map.put(key, value);
    }
    map
}

fn metadata(name: Option<&str>) -> ObjectMeta {
    ObjectMeta {
        name: name.map(str::to_owned),
        namespace: None,
        uid: None,
        labels: OrderedMap::new(),
        annotations: OrderedMap::new(),
        owner_references: vec![],
    }
}

fn nifi_spec() -> NifiSpec {
    NifiSpec {
        version: NifiVersion::v1_13_2,
        zookeeper_reference: ZookeeperReference {
            name: "zk".to_owned(),
            namespace: "default".to_owned(),
            chroot: Some("/nifi".to_owned()),
        },
        metrics_port: Some(9505),
    }
}

fn context() -> PodContext {
    PodContext {
        cluster_name: "simple".to_owned(),
        cluster_uid: Some("uid".to_owned()),
        namespace: "default".to_owned(),
        spec: nifi_spec(),
        labels: map(&[("app.kubernetes.io/name", "nifi")]),
    }
}

fn validated_config(nifi_properties: &[(&str, &str)]) -> ValidatedConfig {
    let mut files: OrderedMap<StringMap> = OrderedMap::new();
    files.insert("bootstrap.conf", OrderedMap::new());
    files.insert("nifi.properties", map(nifi_properties));
    files.insert("other.properties", OrderedMap::new());
    ValidatedConfig {
        env: Some(map(&[("", "ignored"), ("JAVA_HOME", "/java"), ("metricsPort", "9505")])),
        files,
    }
}

fn rendered() -> RenderedFiles {
    RenderedFiles {
        bootstrap_conf: "bootstrap".to_owned(),
        nifi_properties: "properties".to_owned(),
        state_management_xml: "xml".to_owned(),
    }
}

#[test]
fn pod_names_are_in_lower_case() {
    assert_eq!(
        build_pod_name("NiFi", "Simple", "Node", "Default", "Worker-1"),
        "nifi-simple-default-node-worker-1"
    );
    assert_eq!(build_pod_name("\u{c4}", "b", "c", "d", "e"), "\u{e4}-b-d-c-e");
}

#[test]
fn nifi_is_started_by_its_script() {
    assert_eq!(build_nifi_start_command(&nifi_spec()), ["nifi-1.13.2/bin/nifi.sh run"]);
}

#[test]
fn a_pod_opens_the_configured_ports() {
    let config = NifiConfig {
        http_port: Some(10000),
        protocol_port: Some(10443),
        load_balance_port: None,
    };
    let settings = config.compute_files();
    let (http, _) = settings.entry(1);
    assert_eq!(http, "nifi.web.http.port");
    let port = |key: &str| settings.get(key).unwrap().clone().unwrap();
    let validated = validated_config(&[
        ("nifi.web.http.port", &port("nifi.web.http.port")),
        ("nifi.cluster.node.protocol.port", &port("nifi.cluster.node.protocol.port")),
    ]);
    let (pod, config_maps) =
        create_pod_and_config_maps(&context(), "pod", "worker-1", &validated, &rendered())
            .unwrap();
    assert_eq!(pod.metadata.name, Some("pod".to_owned()));
    assert_eq!(
        pod.metadata.annotations.get("monitoring.stackable.tech/should_be_scraped"),
        Some(&"true".to_owned())
    );
    assert_eq!(pod.metadata.owner_references[0].uid, "uid");
    let spec = pod.spec.unwrap();
    assert_eq!(spec.node_name, Some("worker-1".to_owned()));
    assert_eq!(spec.config_map_mounts[0].mount_path, "{{packageroot}}/nifi-1.13.2/conf");
    let container = &spec.containers[0];
    assert_eq!(container.image, Some("nifi:1.13.2".to_owned()));
    let ports: Vec<(&str, i32)> = container
        .ports
        .iter()
        .map(|port| (port.name.as_deref().unwrap(), port.container_port))
        .collect();
    assert_eq!(ports, [("http", 10000), ("protocol", 10443), ("metrics", 9505)]);
    assert_eq!(container.env.len(), 1);
    assert_eq!(container.env[0].name, "JAVA_HOME");
    assert_eq!(
        container.env[0].source,
        EnvVarSource::Literal { value: "/java".to_owned() }
    );
    assert_eq!(config_maps.len(), 1);
    assert_eq!(config_maps[0].metadata.name, Some("pod-config".to_owned()));
    assert_eq!(
        config_maps[0].data,
        map(&[("bootstrap.conf", "bootstrap"), ("nifi.properties", "properties")])
    );
}

#[test]
fn the_pod_of_a_node_has_its_name() {
    let (pod, config_maps) = create_node_pod_and_config_maps(
        &context(),
        &NifiRole::Node,
        "Default",
        "Worker-1",
        &validated_config(&[]),
        &rendered(),
    )
    .unwrap();
    assert_eq!(pod.metadata.name, Some("nifi-simple-default-node-worker-1".to_owned()));
    assert_eq!(pod.spec.unwrap().node_name, Some("Worker-1".to_owned()));
    assert_eq!(
        config_maps[0].metadata.name,
        Some("nifi-simple-default-node-worker-1-config".to_owned())
    );
    let mut ownerless = context();
    ownerless.cluster_uid = None;
    assert_eq!(
        create_node_pod_and_config_maps(
            &ownerless,
            &NifiRole::Node,
            "default",
            "worker-1",
            &validated_config(&[]),
            &rendered()
        )
        .unwrap_err(),
        NifiError::OperatorError { source: OperatorError::MissingOwner }
    );
}

#[test]
fn a_pod_needs_ports_that_are_numbers_and_an_owner() {
    let broken = validated_config(&[("nifi.web.http.port", "http")]);
    assert_eq!(
        create_pod_and_config_maps(&context(), "pod", "worker-1", &broken, &rendered())
            .unwrap_err(),
        NifiError::ParseError
    );
    let mut ownerless = context();
    ownerless.cluster_uid = None;
    assert_eq!(
        create_pod_and_config_maps(
            &ownerless,
            "pod",
            "worker-1",
            &validated_config(&[]),
            &rendered()
        )
        .unwrap_err(),
        NifiError::OperatorError { source: OperatorError::MissingOwner }
    );
}

#[test]
fn pods_need_their_labels() {
    let labels = required_pod_labels("simple", &NifiVersion::v1_13_2);
    assert_eq!(labels.len(), 5);
    assert_eq!(
        labels.get("app.kubernetes.io/component"),
        Some(&Some(vec!["node".to_owned()]))
    );
    assert_eq!(
        labels.get("app.kubernetes.io/version"),
        Some(&Some(vec!["1.13.2".to_owned()]))
    );
    assert_eq!(
        labels.get("app.kubernetes.io/managed-by"),
        Some(&Some(vec!["nifi-operator".to_owned()]))
    );
}

#[test]
fn zookeeper_is_asked_without_the_path() {
    let reference = nifi_spec().zookeeper_reference;
    assert_eq!(zookeeper_request(&reference, false).unwrap_err(), NifiError::ZookeeperError);
    let request = zookeeper_request(&reference, true).unwrap();
    assert_eq!(request.chroot, None);
    assert_eq!(request.name, "zk");
}

#[test]
fn config_maps_are_written_where_they_differ() {
    let config_map = |name: Option<&str>| ConfigMap {
        metadata: metadata(name),
        data: map(&[("a", "1")]),
    };
    let wanted = config_map(Some("config"));
    let found = |data: Option<StringMap>| ExistingConfigMap::Found { data };
    assert_eq!(
        create_config_map(&wanted, &ExistingConfigMap::NotFound),
        Ok(ConfigMapAction::Create)
    );
    assert_eq!(
        create_config_map(&wanted, &found(Some(map(&[("a", "1")])))),
        Ok(ConfigMapAction::Skip)
    );
    assert_eq!(
        create_config_map(&wanted, &found(Some(map(&[("a", "2")])))),
        Ok(ConfigMapAction::Update)
    );
    assert_eq!(create_config_map(&wanted, &found(None)), Ok(ConfigMapAction::Update));
    let failed = ExistingConfigMap::Failed { message: "forbidden".to_owned() };
    assert_eq!(
        create_config_map(&wanted, &failed),
        Err(NifiError::OperatorError {
            source: OperatorError::Kubernetes { message: "forbidden".to_owned() }
        })
    );
    assert_eq!(create_config_map(&config_map(None), &failed), Err(NifiError::InvalidConfigMap));
    assert_eq!(config_map_name(&wanted), Ok("config".to_owned()));
    assert_eq!(config_map_name(&config_map(None)), Err(NifiError::InvalidConfigMap));
}

#[test]
fn nodes_without_a_name_are_skipped() {
    let groups = vec![
        ("default".to_owned(), vec![Some("a".to_owned()), None, Some("b".to_owned())]),
        ("more".to_owned(), vec![Some("c".to_owned())]),
    ];
    let pods = create_missing_pods(&groups);
    let places: Vec<(&str, &str)> =
        pods.iter().map(|pod| (pod.role_group.as_str(), pod.node_name.as_str())).collect();
    assert_eq!(places, [("default", "a"), ("default", "b"), ("more", "c")]);
    let mut configs: OrderedMap<ValidatedConfig> = OrderedMap::new();
    configs.insert("default", validated_config(&[]));
    assert!(config_for_role_group(&configs, "default").is_ok());
    assert_eq!(
        config_for_role_group(&configs, "more").unwrap_err(),
        NifiError::OperatorError { source: OperatorError::MissingConfiguration }
    );
}

#[test]
fn stages_follow_each_other() {
    let mut stage = Some(Stage::HandleDeletion);
    let mut count = 0;
    while let Some(current) = stage {
        count += 1;
        stage = next_stage(current, ReconcileFunctionAction::Continue);
    }
    assert_eq!(count, 8);
    assert_eq!(next_stage(Stage::HandleDeletion, ReconcileFunctionAction::Done), None);
    assert_eq!(
        next_stage(Stage::DeleteExcessPods, ReconcileFunctionAction::Requeue { seconds: 5 }),
        None
    );
}

fn container(name: &str, port_name: &str, port: i32) -> Container {
    Container {
        name: name.to_owned(),
        image: None,
        image_pull_policy: None,
        command: vec![],
        args: vec![],
        env: vec![],
        ports: vec![ContainerPort { name: Some(port_name.to_owned()), container_port: port }],
        volume_mounts: vec![],
        resources: None,
        liveness_probe: None,
        readiness_probe: None,
        startup_probe: None,
    }
}

fn pod(node_name: Option<&str>, containers: Vec<Container>) -> Pod {
    Pod {
        metadata: metadata(Some("pod")),
        spec: Some(PodSpec {
            node_name: node_name.map(str::to_owned),
            containers,
            config_map_mounts: vec![],
            tolerates_stackable_agent: true,
        }),
    }
}

#[test]
fn endpoints_are_found_in_pods() {
    let good = pod(Some("worker-1"), vec![container("nifi", "http", 10000)]);
    let endpoint = nifi_rest_endpoint(&good).unwrap();
    assert_eq!(endpoint.http_host(), "http://worker-1:10000");
    assert_eq!(
        endpoint.list_reporting_tasks_url(),
        "http://worker-1:10000/nifi-api/flow/reporting-tasks"
    );
    let nodeless = pod(None, vec![container("nifi", "http", 10000)]);
    assert_eq!(
        nifi_rest_endpoint(&nodeless).unwrap_err(),
        NifiMonitoringError::PodNodeNameMissing { pod_name: "pod".to_owned() }
    );
    let mut specless = pod(None, vec![]);
    specless.spec = None;
    assert_eq!(
        nifi_rest_endpoint(&specless).unwrap_err(),
        NifiMonitoringError::PodSpecMissing { pod_name: "pod".to_owned() }
    );
    let portless = pod(Some("worker-1"), vec![container("nifi", "https", 1)]);
    assert_eq!(
        nifi_rest_endpoint(&portless).unwrap_err(),
        NifiMonitoringError::PodContainerPortMissing {
            container_name: "nifi".to_owned(),
            container_port_name: "http".to_owned(),
        }
    );
    let client = NifiRestClient::new();
    assert_eq!(client.list_nifi_rest_endpoints(&vec![good]).unwrap().len(), 1);
}

#[test]
fn ports_out_of_range_are_reported_as_std_does() {
    let reason = u16::try_from(70000i32).unwrap_err().to_string();
    assert_eq!(
        find_pod_container_port(&vec![container("nifi", "http", 70000)], "nifi", "http")
            .unwrap_err(),
        NifiMonitoringError::ParseIntError { reason }
    );
    assert_eq!(
        find_pod_container_port(&vec![container("nifi", "http", 65535)], "nifi", "http"),
        Ok(65535)
    );
}

fn endpoints() -> Vec<NifiRestEndpoint> {
    vec![
        NifiRestEndpoint { node_name: "a".to_owned(), http_port: 1 },
        NifiRestEndpoint { node_name: "b".to_owned(), http_port: 2 },
    ]
}

#[test]
fn endpoints_are_tried_one_after_the_other() {
    let endpoints = endpoints();
    let first = first_attempt(&endpoints);
    assert_eq!(first, AttemptStep::Call { at: 0 });
    let second = next_attempt(&endpoints, 0, false);
    assert_eq!(second, AttemptStep::Call { at: 1 });
    assert_eq!(attempt_outcome(&next_attempt(&endpoints, 1, false)), Ok(()));
    assert_eq!(attempt_outcome(&next_attempt(&endpoints, 1, true)), Ok(()));
    assert_eq!(
        attempt_outcome(&first_attempt(&vec![])),
        Err(NifiMonitoringError::NiFiRestApiUnreachable)
    );
}

/// The nodes that are called, given at which the call succeeds, and the outcome.
fn attempt_run(successes: &[bool]) -> (Vec<usize>, Result<(), NifiMonitoringError>) {
    let endpoints: Vec<NifiRestEndpoint> = successes
        .iter()
        .map(|_| NifiRestEndpoint { node_name: "a".to_owned(), http_port: 1 })
        .collect();
    let mut called = vec![];
    let mut step = first_attempt(&endpoints);
    while let AttemptStep::Call { at } = step {
        called.push(at);
        step = next_attempt(&endpoints, at, successes[at]);
    }
    (called, attempt_outcome(&step))
}

#[test]
fn calls_end_with_the_first_success() {
    assert_eq!(attempt_run(&[false, true, true]), (vec![0, 1], Ok(())));
    assert_eq!(attempt_run(&[false, false, false]), (vec![0, 1, 2], Ok(())));
    assert_eq!(attempt_run(&[]), (vec![], Err(NifiMonitoringError::NiFiRestApiUnreachable)));
}

/// The nodes that are asked for the tasks, given which of them reply, and how many are listed.
fn list_run(replies: &[bool]) -> (Vec<usize>, usize) {
    let endpoints: Vec<NifiRestEndpoint> = replies
        .iter()
        .map(|_| NifiRestEndpoint { node_name: "a".to_owned(), http_port: 1 })
        .collect();
    let mut asked = vec![];
    let mut step = first_list_step(&endpoints);
    loop {
        match step {
            ListStep::Done { tasks } => return (asked, tasks.len()),
            ListStep::Query { at, .. } => {
                asked.push(at);
                let task = NifiRestClient::new().create_reporting_task(9505, "1.13.2");
                let reply = ReportingTasks { reporting_tasks: vec![task] };
                step = next_list_step(&endpoints, at, replies[at].then_some(reply));
            }
        }
    }
}

#[test]
fn listing_ends_with_the_first_reply() {
    assert_eq!(list_run(&[false, true, true]), (vec![0, 1], 1));
    assert_eq!(list_run(&[false, false]), (vec![0, 1], 0));
    assert_eq!(list_run(&[]), (vec![], 0));
}

#[test]
fn the_first_reply_lists_the_tasks() {
    let endpoints = endpoints();
    assert_eq!(
        first_list_step(&endpoints),
        ListStep::Query {
            at: 0,
            url: "http://a:1/nifi-api/flow/reporting-tasks".to_owned(),
        }
    );
    assert_eq!(
        next_list_step(&endpoints, 0, None),
        ListStep::Query {
            at: 1,
            url: "http://b:2/nifi-api/flow/reporting-tasks".to_owned(),
        }
    );
    assert_eq!(next_list_step(&endpoints, 1, None), ListStep::Done { tasks: vec![] });
    let task = NifiRestClient::new().create_reporting_task(9505, "1.13.2");
    let reply = Some(ReportingTasks { reporting_tasks: vec![task] });
    match next_list_step(&endpoints, 0, reply) {
        ListStep::Done { tasks } => assert_eq!(tasks.len(), 1),
        ListStep::Query { .. } => panic!("the reply is enough"),
    }
}

fn task(state: ReportingTaskState) -> Option<ReportingTask> {
    let mut task = NifiRestClient::new().create_reporting_task(9505, "1.13.2");
    task.id = Some("task".to_owned());
    task.status = Some(ReportingTaskStatus {
        run_status: state,
        validation_status: ReportingTaskValidation::Valid,
        active_thread_count: 0,
    });
    Some(task)
}

#[test]
fn created_tasks_are_found_again() {
    let client = NifiRestClient::new();
    let task = client.create_reporting_task(9505, "1.13.2");
    assert_eq!(task.component.as_ref().unwrap().name, build_task_name());
    assert!(client.match_metric_and_reporting_task_port(9505, &task.component));
    assert!(!client.match_metric_and_reporting_task_port(9506, &task.component));
    assert!(client.find_reporting_task(&vec![task], "1.13.2").is_some());
    let other = client.create_reporting_task(9505, "1.13.1");
    assert!(client.find_reporting_task(&vec![other], "1.13.2").is_none());
}

#[test]
fn monitoring_follows_the_metrics_port() {
    let client = NifiRestClient::new();
    let decide = |port: Option<u16>, task: &Option<ReportingTask>| {
        process_monitoring(&client, port, task)
    };
    let running = task(ReportingTaskState::Running);
    let stopped = task(ReportingTaskState::Stopped);
    assert_eq!(
        decide(None, &None),
        (MonitoringAction::Nothing, ReconcileFunctionAction::Continue)
    );
    assert_eq!(
        decide(Some(9505), &None),
        (
            MonitoringAction::Create { metrics_port: 9505 },
            ReconcileFunctionAction::Requeue { seconds: 10 }
        )
    );
    assert_eq!(
        decide(Some(9505), &running),
        (MonitoringAction::Nothing, ReconcileFunctionAction::Continue)
    );
    let (action, next) = decide(Some(9506), &running);
    assert!(matches!(action, MonitoringAction::Stop { .. }));
    assert_eq!(next, ReconcileFunctionAction::Requeue { seconds: 5 });
    let (action, next) = decide(Some(9505), &stopped);
    assert!(matches!(action, MonitoringAction::Start { task_id, .. } if task_id == "task"));
    assert_eq!(next, ReconcileFunctionAction::Continue);
    let (action, next) = decide(Some(9506), &stopped);
    assert!(matches!(action, MonitoringAction::Delete { .. }));
    assert_eq!(next, ReconcileFunctionAction::Requeue { seconds: 5 });
    let (action, _) = decide(None, &running);
    assert!(matches!(action, MonitoringAction::Stop { .. }));
    let (action, next) = decide(None, &stopped);
    assert!(matches!(action, MonitoringAction::Delete { .. }));
    assert_eq!(next, ReconcileFunctionAction::Continue);
}

#[test]
fn deletion_names_the_revision() {
    let endpoint = NifiRestEndpoint { node_name: "a".to_owned(), http_port: 1 };
    let revision = ReportingTaskRevision { client_id: Some("client".to_owned()), version: 3 };
    let url = endpoint.delete_reporting_task_url("task", &revision);
    assert!(url.starts_with("http://a:1/nifi-api/reporting-tasks/task?"));
    assert!(url.contains("version=3"));
    let client = NifiRestClient::new();
    let update = client.update_reporting_task_status(&revision, ReportingTaskState::Stopped);
    assert_eq!(update.state, Some(ReportingTaskState::Stopped));
    assert_eq!(update.revision, revision);
}
