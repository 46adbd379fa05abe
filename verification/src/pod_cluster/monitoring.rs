//! Monitoring: the task inside of NiFi that reports metrics to Prometheus.

use crate::contents::{Copied, SameContents};
use crate::kubernetes::{Container, ContainerPort, ContainerPortView, ContainerView};
use crate::list::{add_item, empty_list};
use crate::pod_cluster::state::{Pod, PodView, CONTAINER_NAME, HTTP_PORT_NAME};
use crate::text;
use crate::text::{number_text, same_text};
use vstd::prelude::*;

verus! {

pub const PROMETHEUS_REPORTING_TASK_NAME: &'static str = "StackablePrometheusReportingTask";

pub const PROMETHEUS_REPORTING_TASK_TYPE: &'static str =
    "org.apache.nifi.reporting.prometheus.PrometheusReportingTask";

pub const PROMETHEUS_REPORTING_TASK_BUNDLE_GROUP: &'static str = "org.apache.nifi";

pub const PROMETHEUS_REPORTING_TASK_BUNDLE_ARTIFACT: &'static str = "nifi-prometheus-nar";

/// What stands for the identifier of a task that has none.
pub const NO_TASK_ID: &'static str = "<no-task-id>";

/// Why a number is not a port.
pub const PORT_OUT_OF_RANGE: &'static str = "out of range integral type conversion attempted";

/// Why NiFi cannot be monitored.
#[derive(Debug, PartialEq, Eq)]
pub enum NifiMonitoringError {
    /// The pod is not placed on a node.
    PodNodeNameMissing {
        pod_name: String,
    },
    /// The pod has no specification.
    PodSpecMissing {
        pod_name: String,
    },
    /// The container has no such port.
    PodContainerPortMissing {
        container_name: String,
        container_port_name: String,
    },
    /// A number is not a port.
    ParseIntError {
        reason: String,
    },
    /// There is no node whose API could be called.
    NiFiRestApiUnreachable,
}

/// The contents of a [`NifiMonitoringError`].
#[verifier::ext_equal]
pub enum NifiMonitoringErrorView {
    PodNodeNameMissing { pod_name: Seq<char> },
    PodSpecMissing { pod_name: Seq<char> },
    PodContainerPortMissing { container_name: Seq<char>, container_port_name: Seq<char> },
    ParseIntError { reason: Seq<char> },
    NiFiRestApiUnreachable,
}

impl DeepView for NifiMonitoringError {
    type V = NifiMonitoringErrorView;

    open spec fn deep_view(&self) -> NifiMonitoringErrorView {
        match self {
            NifiMonitoringError::PodNodeNameMissing { pod_name } =>
                NifiMonitoringErrorView::PodNodeNameMissing {
                    pod_name: pod_name.deep_view(),
                },
            NifiMonitoringError::PodSpecMissing { pod_name } =>
                NifiMonitoringErrorView::PodSpecMissing {
                    pod_name: pod_name.deep_view(),
                },
            NifiMonitoringError::PodContainerPortMissing {
                container_name,
                container_port_name,
            } => NifiMonitoringErrorView::PodContainerPortMissing {
                container_name: container_name.deep_view(),
                container_port_name: container_port_name.deep_view(),
            },
            NifiMonitoringError::ParseIntError { reason } =>
                NifiMonitoringErrorView::ParseIntError {
                    reason: reason.deep_view(),
                },
            NifiMonitoringError::NiFiRestApiUnreachable =>
                NifiMonitoringErrorView::NiFiRestApiUnreachable,
        }
    }
}

/// Whether a task runs.
#[derive(Clone, Copy, Debug, PartialEq, Eq, Structural)]
pub enum ReportingTaskState {
    Running,
    Stopped,
}

impl DeepView for ReportingTaskState {
    type V = ReportingTaskState;

    open spec fn deep_view(&self) -> ReportingTaskState {
        *self
    }
}

impl Copied for ReportingTaskState {
    fn copied(&self) -> (copy: ReportingTaskState) {
        *self
    }
}

impl SameContents for ReportingTaskState {
    fn same(&self, other: &ReportingTaskState) -> (same: bool) {
        *self == *other
    }
}

impl ReportingTaskState {
    /// The text that stands for the value.
    pub open spec fn text(self) -> Seq<char> {
        match self {
            ReportingTaskState::Running => "RUNNING"@,
            ReportingTaskState::Stopped => "STOPPED"@,
        }
    }

    /// The text that stands for the value.
    pub fn as_str(&self) -> (text: &'static str)
        ensures
            text@ == self.text(),
    {
        match self {
            ReportingTaskState::Running => "RUNNING",
            ReportingTaskState::Stopped => "STOPPED",
        }
    }
}

/// Whether a task is valid.
#[derive(Clone, Copy, Debug, PartialEq, Eq, Structural)]
pub enum ReportingTaskValidation {
    Valid,
}

impl DeepView for ReportingTaskValidation {
    type V = ReportingTaskValidation;

    open spec fn deep_view(&self) -> ReportingTaskValidation {
        *self
    }
}

impl Copied for ReportingTaskValidation {
    fn copied(&self) -> (copy: ReportingTaskValidation) {
        *self
    }
}

impl SameContents for ReportingTaskValidation {
    fn same(&self, other: &ReportingTaskValidation) -> (same: bool) {
        *self == *other
    }
}

impl ReportingTaskValidation {
    /// The text that stands for the value.
    pub open spec fn text(self) -> Seq<char> {
        match self {
            ReportingTaskValidation::Valid => "VALID"@,
        }
    }

    /// The text that stands for the value.
    pub fn as_str(&self) -> (text: &'static str)
        ensures
            text@ == self.text(),
    {
        match self {
            ReportingTaskValidation::Valid => "VALID",
        }
    }
}

/// The revision of a task, against which changes are made.
#[derive(Debug, PartialEq, Eq)]
pub struct ReportingTaskRevision {
    pub client_id: Option<String>,
    pub version: usize,
}

/// The contents of a [`ReportingTaskRevision`].
#[verifier::ext_equal]
pub struct ReportingTaskRevisionView {
    pub client_id: Option<Seq<char>>,
    pub version: usize,
}

impl DeepView for ReportingTaskRevision {
    type V = ReportingTaskRevisionView;

    open spec fn deep_view(&self) -> ReportingTaskRevisionView {
        ReportingTaskRevisionView {
            client_id: self.client_id.deep_view(),
            version: self.version.deep_view(),
        }
    }
}

impl Copied for ReportingTaskRevision {
    fn copied(&self) -> (copy: ReportingTaskRevision) {
        ReportingTaskRevision {
            client_id: self.client_id.copied(),
            version: self.version,
        }
    }
}

/// Where the code of a task comes from.
#[derive(Debug, PartialEq, Eq)]
pub struct ReportingTaskComponentBundle {
    pub group: String,
    pub artifact: String,
    pub version: String,
}

/// The contents of a [`ReportingTaskComponentBundle`].
#[verifier::ext_equal]
pub struct ReportingTaskComponentBundleView {
    pub group: Seq<char>,
    pub artifact: Seq<char>,
    pub version: Seq<char>,
}

impl DeepView for ReportingTaskComponentBundle {
    type V = ReportingTaskComponentBundleView;

    open spec fn deep_view(&self) -> ReportingTaskComponentBundleView {
        ReportingTaskComponentBundleView {
            group: self.group.deep_view(),
            artifact: self.artifact.deep_view(),
            version: self.version.deep_view(),
        }
    }
}

impl Copied for ReportingTaskComponentBundle {
    fn copied(&self) -> (copy: ReportingTaskComponentBundle) {
        ReportingTaskComponentBundle {
            group: self.group.copied(),
            artifact: self.artifact.copied(),
            version: self.version.copied(),
        }
    }
}

/// The settings of a task.
#[derive(Debug, PartialEq, Eq)]
pub struct ReportingTaskComponentProperties {
    pub metrics_endpoint_port: String,
    pub instance_id: String,
    pub metrics_strategy: String,
    pub send_jvm: String,
    pub ssl_context: Option<String>,
    pub client_auth: String,
}

/// The contents of a [`ReportingTaskComponentProperties`].
#[verifier::ext_equal]
pub struct ReportingTaskComponentPropertiesView {
    pub metrics_endpoint_port: Seq<char>,
    pub instance_id: Seq<char>,
    pub metrics_strategy: Seq<char>,
    pub send_jvm: Seq<char>,
    pub ssl_context: Option<Seq<char>>,
    pub client_auth: Seq<char>,
}

impl DeepView for ReportingTaskComponentProperties {
    type V = ReportingTaskComponentPropertiesView;

    open spec fn deep_view(&self) -> ReportingTaskComponentPropertiesView {
        ReportingTaskComponentPropertiesView {
            metrics_endpoint_port: self.metrics_endpoint_port.deep_view(),
            instance_id: self.instance_id.deep_view(),
            metrics_strategy: self.metrics_strategy.deep_view(),
            send_jvm: self.send_jvm.deep_view(),
            ssl_context: self.ssl_context.deep_view(),
            client_auth: self.client_auth.deep_view(),
        }
    }
}

impl Copied for ReportingTaskComponentProperties {
    fn copied(&self) -> (copy: ReportingTaskComponentProperties) {
        ReportingTaskComponentProperties {
            metrics_endpoint_port: self.metrics_endpoint_port.copied(),
            instance_id: self.instance_id.copied(),
            metrics_strategy: self.metrics_strategy.copied(),
            send_jvm: self.send_jvm.copied(),
            ssl_context: self.ssl_context.copied(),
            client_auth: self.client_auth.copied(),
        }
    }
}

/// What a task does.
#[derive(Debug, PartialEq, Eq)]
pub struct ReportingTaskComponent {
    pub typ: String,
    pub name: String,
    pub bundle: ReportingTaskComponentBundle,
    pub properties: ReportingTaskComponentProperties,
}

/// The contents of a [`ReportingTaskComponent`].
#[verifier::ext_equal]
pub struct ReportingTaskComponentView {
    pub typ: Seq<char>,
    pub name: Seq<char>,
    pub bundle: ReportingTaskComponentBundleView,
    pub properties: ReportingTaskComponentPropertiesView,
}

impl DeepView for ReportingTaskComponent {
    type V = ReportingTaskComponentView;

    open spec fn deep_view(&self) -> ReportingTaskComponentView {
        ReportingTaskComponentView {
            typ: self.typ.deep_view(),
            name: self.name.deep_view(),
            bundle: self.bundle.deep_view(),
            properties: self.properties.deep_view(),
        }
    }
}

impl Copied for ReportingTaskComponent {
    fn copied(&self) -> (copy: ReportingTaskComponent) {
        ReportingTaskComponent {
            typ: self.typ.copied(),
            name: self.name.copied(),
            bundle: self.bundle.copied(),
            properties: self.properties.copied(),
        }
    }
}

/// The status of a task.
#[derive(Debug, PartialEq, Eq)]
pub struct ReportingTaskStatus {
    pub run_status: ReportingTaskState,
    pub validation_status: ReportingTaskValidation,
    pub active_thread_count: usize,
}

/// The contents of a [`ReportingTaskStatus`].
#[verifier::ext_equal]
pub struct ReportingTaskStatusView {
    pub run_status: ReportingTaskState,
    pub validation_status: ReportingTaskValidation,
    pub active_thread_count: usize,
}

impl DeepView for ReportingTaskStatus {
    type V = ReportingTaskStatusView;

    open spec fn deep_view(&self) -> ReportingTaskStatusView {
        ReportingTaskStatusView {
            run_status: self.run_status.deep_view(),
            validation_status: self.validation_status.deep_view(),
            active_thread_count: self.active_thread_count.deep_view(),
        }
    }
}

impl Copied for ReportingTaskStatus {
    fn copied(&self) -> (copy: ReportingTaskStatus) {
        ReportingTaskStatus {
            run_status: self.run_status.copied(),
            validation_status: self.validation_status.copied(),
            active_thread_count: self.active_thread_count,
        }
    }
}

/// A task that reports on NiFi.
#[derive(Debug, PartialEq, Eq)]
pub struct ReportingTask {
    pub revision: ReportingTaskRevision,
    pub id: Option<String>,
    pub disconnected_node_acknowledged: Option<bool>,
    pub component: Option<ReportingTaskComponent>,
    pub state: Option<ReportingTaskState>,
    pub status: Option<ReportingTaskStatus>,
}

/// The contents of a [`ReportingTask`].
#[verifier::ext_equal]
pub struct ReportingTaskView {
    pub revision: ReportingTaskRevisionView,
    pub id: Option<Seq<char>>,
    pub disconnected_node_acknowledged: Option<bool>,
    pub component: Option<ReportingTaskComponentView>,
    pub state: Option<ReportingTaskState>,
    pub status: Option<ReportingTaskStatusView>,
}

impl DeepView for ReportingTask {
    type V = ReportingTaskView;

    open spec fn deep_view(&self) -> ReportingTaskView {
        ReportingTaskView {
            revision: self.revision.deep_view(),
            id: self.id.deep_view(),
            disconnected_node_acknowledged: self.disconnected_node_acknowledged.deep_view(),
            component: self.component.deep_view(),
            state: self.state.deep_view(),
            status: self.status.deep_view(),
        }
    }
}

impl Copied for ReportingTask {
    fn copied(&self) -> (copy: ReportingTask) {
        ReportingTask {
            revision: self.revision.copied(),
            id: self.id.copied(),
            disconnected_node_acknowledged: self.disconnected_node_acknowledged.copied(),
            component: self.component.copied(),
            state: self.state.copied(),
            status: self.status.copied(),
        }
    }
}

/// All tasks.
#[derive(Debug, PartialEq, Eq)]
pub struct ReportingTasks {
    pub reporting_tasks: Vec<ReportingTask>,
}

/// The contents of a [`ReportingTasks`].
#[verifier::ext_equal]
pub struct ReportingTasksView {
    pub reporting_tasks: Seq<ReportingTaskView>,
}

impl DeepView for ReportingTasks {
    type V = ReportingTasksView;

    open spec fn deep_view(&self) -> ReportingTasksView {
        ReportingTasksView {
            reporting_tasks: self.reporting_tasks.deep_view(),
        }
    }
}

impl Copied for ReportingTasks {
    fn copied(&self) -> (copy: ReportingTasks) {
        ReportingTasks {
            reporting_tasks: self.reporting_tasks.copied(),
        }
    }
}

/// Where the API of a node is reached.
#[derive(Debug, PartialEq, Eq)]
pub struct NifiRestEndpoint {
    pub node_name: String,
    pub http_port: u16,
}

/// The contents of a [`NifiRestEndpoint`].
#[verifier::ext_equal]
pub struct NifiRestEndpointView {
    pub node_name: Seq<char>,
    pub http_port: u16,
}

impl DeepView for NifiRestEndpoint {
    type V = NifiRestEndpointView;

    open spec fn deep_view(&self) -> NifiRestEndpointView {
        NifiRestEndpointView {
            node_name: self.node_name.deep_view(),
            http_port: self.http_port.deep_view(),
        }
    }
}

impl Copied for NifiRestEndpoint {
    fn copied(&self) -> (copy: NifiRestEndpoint) {
        NifiRestEndpoint {
            node_name: self.node_name.copied(),
            http_port: self.http_port,
        }
    }
}

impl NifiRestEndpointView {
    /// The address of the node.
    pub open spec fn host(self) -> Seq<char> {
        "http://"@ + self.node_name + ":"@ + text::decimal(self.http_port as nat)
    }
}

/// The client that a revision names.
pub open spec fn client_of(revision: ReportingTaskRevisionView) -> Seq<char> {
    match revision.client_id {
        Some(client_id) => client_id,
        None => "1"@,
    }
}

impl NifiRestEndpoint {
    /// The address of the node.
    pub fn http_host(&self) -> (host: String)
        ensures
            host@ == self.deep_view().host(),
    {
        "http://".to_owned().concat(self.node_name.as_str()).concat(":").concat(
            number_text(self.http_port as u64).as_str(),
        )
    }

    /// Where the tasks are listed.
    pub fn list_reporting_tasks_url(&self) -> (url: String)
        ensures
            url@ == self.deep_view().host() + "/nifi-api/flow/reporting-tasks"@,
    {
        self.http_host().concat("/nifi-api/flow/reporting-tasks")
    }

    /// Where tasks are created.
    pub fn create_reporting_task_url(&self) -> (url: String)
        ensures
            url@ == self.deep_view().host() + "/nifi-api/controller/reporting-tasks"@,
    {
        self.http_host().concat("/nifi-api/controller/reporting-tasks")
    }

    /// Where a revision of a task is deleted.
    pub fn delete_reporting_task_url(&self, task_id: &str, revision: &ReportingTaskRevision) -> (
        url: String)
        ensures
            url@ == self.deep_view().host() + "/nifi-api/reporting-tasks/"@ + task_id@
                + "?version="@ + text::decimal(revision.version as nat) + "&clientId="@
                + client_of(revision.deep_view()) + "&disconnectedNodeAcknowledged=false"@,
    {
        let client_id: &str = match &revision.client_id {
            Some(client_id) => client_id.as_str(),
            None => "1",
        };
        self.http_host().concat("/nifi-api/reporting-tasks/").concat(task_id).concat(
            "?version=",
        ).concat(number_text(revision.version as u64).as_str()).concat("&clientId=").concat(
            client_id,
        ).concat("&disconnectedNodeAcknowledged=false")
    }

    /// Where the status of a task is changed.
    pub fn update_reporting_task_status_url(&self, task_id: &str) -> (url: String)
        ensures
            url@ == self.deep_view().host() + "/nifi-api/reporting-tasks/"@ + task_id@
                + "/run-status"@,
    {
        self.http_host().concat("/nifi-api/reporting-tasks/").concat(task_id).concat(
            "/run-status",
        )
    }
}

/// Whether a task is the one that reports to Prometheus, in a version of NiFi.
pub open spec fn reports_to_prometheus(task: ReportingTaskView, nifi_version: Seq<char>) -> bool {
    match task.component {
        Some(component) => {
            &&& component.typ == PROMETHEUS_REPORTING_TASK_TYPE@
            &&& component.name == PROMETHEUS_REPORTING_TASK_NAME@
            &&& component.bundle.group == PROMETHEUS_REPORTING_TASK_BUNDLE_GROUP@
            &&& component.bundle.artifact == PROMETHEUS_REPORTING_TASK_BUNDLE_ARTIFACT@
            &&& component.bundle.version == nifi_version
        },
        None => false,
    }
}

/// The name of the task.
pub fn build_task_name() -> (name: String)
    ensures
        name@ == PROMETHEUS_REPORTING_TASK_NAME@,
{
    PROMETHEUS_REPORTING_TASK_NAME.to_owned()
}

/// The task that reports to Prometheus, as it is created.
pub open spec fn new_task(metrics_port: u16, nifi_version: Seq<char>) -> ReportingTaskView {
    ReportingTaskView {
        revision: ReportingTaskRevisionView { client_id: None, version: 0 },
        id: None,
        disconnected_node_acknowledged: Some(false),
        component: Some(
            ReportingTaskComponentView {
                typ: PROMETHEUS_REPORTING_TASK_TYPE@,
                name: PROMETHEUS_REPORTING_TASK_NAME@,
                bundle: ReportingTaskComponentBundleView {
                    group: PROMETHEUS_REPORTING_TASK_BUNDLE_GROUP@,
                    artifact: PROMETHEUS_REPORTING_TASK_BUNDLE_ARTIFACT@,
                    version: nifi_version,
                },
                properties: ReportingTaskComponentPropertiesView {
                    metrics_endpoint_port: text::decimal(metrics_port as nat),
                    instance_id: "${hostname(true)}"@,
                    metrics_strategy: "All Components"@,
                    send_jvm: "true"@,
                    ssl_context: None,
                    client_auth: "No Authentication"@,
                },
            },
        ),
        state: None,
        status: None,
    }
}

/// What is sent to start or stop a task.
pub open spec fn status_change(
    revision: ReportingTaskRevisionView,
    state: ReportingTaskState,
) -> ReportingTaskView {
    ReportingTaskView {
        revision,
        id: None,
        disconnected_node_acknowledged: Some(false),
        component: None,
        state: Some(state),
        status: None,
    }
}

/// Whether a task offers the metrics at a port.
pub open spec fn offers_metrics_at(
    metrics_port: u16,
    component: Option<ReportingTaskComponentView>,
) -> bool {
    match component {
        Some(component) => component.properties.metrics_endpoint_port == text::decimal(
            metrics_port as nat,
        ),
        None => false,
    }
}

/// The port with a name, where there is one.
pub open spec fn named_port(ports: Seq<ContainerPortView>, port_name: Seq<char>) -> Option<i32>
    decreases ports.len(),
{
    if ports.len() == 0 {
        None
    } else {
        match named_port(ports.drop_last(), port_name) {
            Some(port) => Some(port),
            None => if ports.last().name == Some(port_name) {
                Some(ports.last().container_port)
            } else {
                None
            },
        }
    }
}

/// The first port with a name of the containers with a name, where there is one.
pub open spec fn container_port(
    containers: Seq<ContainerView>,
    container_name: Seq<char>,
    port_name: Seq<char>,
) -> Option<i32>
    decreases containers.len(),
{
    if containers.len() == 0 {
        None
    } else {
        match container_port(containers.drop_last(), container_name, port_name) {
            Some(port) => Some(port),
            None => if containers.last().name == container_name {
                named_port(containers.last().ports, port_name)
            } else {
                None
            },
        }
    }
}

/// The number of a port, or why there is none.
pub open spec fn port_outcome(
    containers: Seq<ContainerView>,
    container_name: Seq<char>,
    port_name: Seq<char>,
) -> Result<u16, NifiMonitoringErrorView> {
    match container_port(containers, container_name, port_name) {
        Some(port) => if 0 <= port <= u16::MAX {
            Ok(port as u16)
        } else {
            Err(NifiMonitoringErrorView::ParseIntError { reason: PORT_OUT_OF_RANGE@ })
        },
        None => Err(
            NifiMonitoringErrorView::PodContainerPortMissing {
                container_name,
                container_port_name: port_name,
            },
        ),
    }
}

/// Once a port is found, further ones do not count.
proof fn lemma_named_port_stays(ports: Seq<ContainerPortView>, port_name: Seq<char>, at: int)
    requires
        0 <= at <= ports.len(),
        named_port(ports.take(at), port_name).is_some(),
    ensures
        named_port(ports, port_name) == named_port(ports.take(at), port_name),
    decreases ports.len() - at,
{
    if at == ports.len() {
        assert(ports.take(at) =~= ports);
    } else {
        assert(ports.take(at + 1).drop_last() =~= ports.take(at));
        lemma_named_port_stays(ports, port_name, at + 1);
    }
}

/// Once a port is found, further containers do not count.
proof fn lemma_container_port_stays(
    containers: Seq<ContainerView>,
    container_name: Seq<char>,
    port_name: Seq<char>,
    at: int,
)
    requires
        0 <= at <= containers.len(),
        container_port(containers.take(at), container_name, port_name).is_some(),
    ensures
        container_port(containers, container_name, port_name) == container_port(
            containers.take(at),
            container_name,
            port_name,
        ),
    decreases containers.len() - at,
{
    if at == containers.len() {
        assert(containers.take(at) =~= containers);
    } else {
        assert(containers.take(at + 1).drop_last() =~= containers.take(at));
        lemma_container_port_stays(containers, container_name, port_name, at + 1);
    }
}

/// The port with a name, where there is one.
fn find_named_port(ports: &Vec<ContainerPort>, port_name: &str) -> (found: Option<i32>)
    ensures
        found == named_port(ports.deep_view(), port_name@),
{
    let ghost all = ports.deep_view();
    let mut i: usize = 0;
    proof {
        assert(all.take(0) =~= Seq::empty());
    }
    while i < ports.len()
        invariant
            i <= ports.len(),
            all == ports.deep_view(),
            named_port(all.take(i as int), port_name@).is_none(),
        decreases ports.len() - i,
    {
        proof {
            let next = all.take(i + 1);
            assert(next.drop_last() =~= all.take(i as int));
            assert(next.last() == ports[i as int].deep_view());
        }
        if let Some(name) = &ports[i].name {
            if same_text(name.as_str(), port_name) {
                proof {
                    lemma_named_port_stays(all, port_name@, i + 1);
                }
                return Some(ports[i].container_port);
            }
        }
        i = i + 1;
    }
    proof {
        assert(all.take(i as int) =~= all);
    }
    None
}

/// The number of a port with a name, in a container with a name.
pub fn find_pod_container_port(
    containers: &Vec<Container>,
    container_name: &str,
    port_name: &str,
) -> (result: Result<u16, NifiMonitoringError>)
    ensures
        match result {
            Ok(port) => port_outcome(containers.deep_view(), container_name@, port_name@) == Ok::<
                u16,
                NifiMonitoringErrorView,
            >(port),
            Err(error) => port_outcome(containers.deep_view(), container_name@, port_name@)
                == Err::<u16, NifiMonitoringErrorView>(error.deep_view()),
        },
{
    let ghost all = containers.deep_view();
    let mut i: usize = 0;
    proof {
        assert(all.take(0) =~= Seq::empty());
    }
    while i < containers.len()
        invariant
            i <= containers.len(),
            all == containers.deep_view(),
            container_port(all.take(i as int), container_name@, port_name@).is_none(),
        decreases containers.len() - i,
    {
        proof {
            let next = all.take(i + 1);
            assert(next.drop_last() =~= all.take(i as int));
            assert(next.last() == containers[i as int].deep_view());
        }
        if same_text(containers[i].name.as_str(), container_name) {
            if let Some(port) = find_named_port(&containers[i].ports, port_name) {
                proof {
                    lemma_container_port_stays(all, container_name@, port_name@, i + 1);
                }
                return if 0 <= port && port <= u16::MAX as i32 {
                    Ok(port as u16)
                } else {
                    Err(NifiMonitoringError::ParseIntError { reason: PORT_OUT_OF_RANGE.to_owned() })
                };
            }
        }
        i = i + 1;
    }
    proof {
        assert(all.take(i as int) =~= all);
    }
    Err(
        NifiMonitoringError::PodContainerPortMissing {
            container_name: container_name.to_owned(),
            container_port_name: port_name.to_owned(),
        },
    )
}

/// Where the API of the node in a pod is reached, or why that is unknown.
pub open spec fn endpoint_outcome(pod: PodView) -> Result<
    NifiRestEndpointView,
    NifiMonitoringErrorView,
> {
    let pod_name = pod.metadata.name.unwrap();
    match pod.spec {
        None => Err(NifiMonitoringErrorView::PodSpecMissing { pod_name }),
        Some(pod_spec) => match pod_spec.node_name {
            None => Err(NifiMonitoringErrorView::PodNodeNameMissing { pod_name }),
            Some(node_name) => match port_outcome(
                pod_spec.containers,
                CONTAINER_NAME@,
                HTTP_PORT_NAME@,
            ) {
                Ok(http_port) => Ok(NifiRestEndpointView { node_name, http_port }),
                Err(error) => Err(error),
            },
        },
    }
}

/// Where the API of the node in a pod is reached.
pub fn nifi_rest_endpoint(pod: &Pod) -> (result: Result<NifiRestEndpoint, NifiMonitoringError>)
    requires
        pod.deep_view().metadata.name.is_some(),
    ensures
        match result {
            Ok(endpoint) => endpoint_outcome(pod.deep_view()) == Ok::<
                NifiRestEndpointView,
                NifiMonitoringErrorView,
            >(endpoint.deep_view()),
            Err(error) => endpoint_outcome(pod.deep_view()) == Err::<
                NifiRestEndpointView,
                NifiMonitoringErrorView,
            >(error.deep_view()),
        },
{
    let pod_name = pod.metadata.name.as_ref().unwrap();
    let pod_spec = match &pod.spec {
        Some(pod_spec) => pod_spec,
        None => {
            return Err(NifiMonitoringError::PodSpecMissing { pod_name: pod_name.copied() });
        },
    };
    let node_name = match &pod_spec.node_name {
        Some(node_name) => node_name,
        None => {
            return Err(NifiMonitoringError::PodNodeNameMissing { pod_name: pod_name.copied() });
        },
    };
    match find_pod_container_port(&pod_spec.containers, CONTAINER_NAME, HTTP_PORT_NAME) {
        Ok(http_port) => Ok(NifiRestEndpoint { node_name: node_name.copied(), http_port }),
        Err(error) => Err(error),
    }
}

/// Where the APIs of the nodes in some pods are reached, or the first reason for which that is
/// unknown.
pub open spec fn endpoints_outcome(pods: Seq<PodView>) -> Result<
    Seq<NifiRestEndpointView>,
    NifiMonitoringErrorView,
>
    decreases pods.len(),
{
    if pods.len() == 0 {
        Ok(Seq::empty())
    } else {
        match endpoints_outcome(pods.drop_last()) {
            Err(error) => Err(error),
            Ok(endpoints) => match endpoint_outcome(pods.last()) {
                Err(error) => Err(error),
                Ok(endpoint) => Ok(endpoints.push(endpoint)),
            },
        }
    }
}

/// Once a pod fails, further ones do not mend it.
proof fn lemma_endpoints_failure_stays(pods: Seq<PodView>, at: int)
    requires
        0 <= at <= pods.len(),
        endpoints_outcome(pods.take(at)).is_err(),
    ensures
        endpoints_outcome(pods) == endpoints_outcome(pods.take(at)),
    decreases pods.len() - at,
{
    if at == pods.len() {
        assert(pods.take(at) =~= pods);
    } else {
        assert(pods.take(at + 1).drop_last() =~= pods.take(at));
        lemma_endpoints_failure_stays(pods, at + 1);
    }
}

/// What the API of NiFi is asked, and what follows from its replies. The requests themselves are
/// made elsewhere.
#[derive(Debug, PartialEq, Eq)]
pub struct NifiRestClient {
    /// The headers of all requests.
    pub headers: Vec<(String, String)>,
}

impl NifiRestClient {
    /// A client that asks for JSON.
    pub fn new() -> (client: NifiRestClient)
        ensures
            client.headers.deep_view() == seq![
                ("Accept-Encoding"@, "gzip, deflate, br"@),
                ("Content-Type"@, "application/json"@),
                ("Accept"@, "application/json"@),
            ],
    {
        let mut headers: Vec<(String, String)> = empty_list();
        add_item(&mut headers, ("Accept-Encoding".to_owned(), "gzip, deflate, br".to_owned()));
        add_item(&mut headers, ("Content-Type".to_owned(), "application/json".to_owned()));
        add_item(&mut headers, ("Accept".to_owned(), "application/json".to_owned()));
        NifiRestClient { headers }
    }

    /// The task that reports to Prometheus, among all tasks. If there are several, it is the first.
    pub fn find_reporting_task(&self, tasks: &Vec<ReportingTask>, nifi_version: &str) -> (found:
        Option<ReportingTask>)
        ensures
            match found {
                Some(task) => exists|i: int|
                    #![trigger tasks.deep_view()[i]]
                    0 <= i < tasks.len() && task.deep_view() == tasks.deep_view()[i]
                        && reports_to_prometheus(tasks.deep_view()[i], nifi_version@) && forall|
                        j: int,
                    |
                        0 <= j < i ==> !reports_to_prometheus(
                            #[trigger] tasks.deep_view()[j],
                            nifi_version@,
                        ),
                None => forall|j: int|
                    0 <= j < tasks.len() ==> !reports_to_prometheus(
                        #[trigger] tasks.deep_view()[j],
                        nifi_version@,
                    ),
            },
    {
        let ghost all = tasks.deep_view();
        let mut i: usize = 0;
        while i < tasks.len()
            invariant
                i <= tasks.len(),
                all == tasks.deep_view(),
                forall|j: int|
                    0 <= j < i ==> !reports_to_prometheus(#[trigger] all[j], nifi_version@),
            decreases tasks.len() - i,
        {
            proof {
                assert(all[i as int] == tasks[i as int].deep_view());
            }
            if let Some(component) = &tasks[i].component {
                if same_text(component.typ.as_str(), PROMETHEUS_REPORTING_TASK_TYPE)
                    && same_text(component.name.as_str(), build_task_name().as_str())
                    && same_text(
                    component.bundle.group.as_str(),
                    PROMETHEUS_REPORTING_TASK_BUNDLE_GROUP,
                ) && same_text(
                    component.bundle.artifact.as_str(),
                    PROMETHEUS_REPORTING_TASK_BUNDLE_ARTIFACT,
                ) && same_text(component.bundle.version.as_str(), nifi_version) {
                    return Some(tasks[i].copied());
                }
            }
            i = i + 1;
        }
        None
    }

    /// Where the APIs of all nodes are reached.
    pub fn list_nifi_rest_endpoints(&self, pods: &Vec<Pod>) -> (result: Result<
        Vec<NifiRestEndpoint>,
        NifiMonitoringError,
    >)
        requires
            forall|i: int|
                0 <= i < pods.len() ==> (#[trigger] pods.deep_view()[i]).metadata.name.is_some(),
        ensures
            match result {
                Ok(endpoints) => endpoints_outcome(pods.deep_view()) == Ok::<
                    Seq<NifiRestEndpointView>,
                    NifiMonitoringErrorView,
                >(endpoints.deep_view()),
                Err(error) => endpoints_outcome(pods.deep_view()) == Err::<
                    Seq<NifiRestEndpointView>,
                    NifiMonitoringErrorView,
                >(error.deep_view()),
            },
    {
        let ghost all = pods.deep_view();
        let mut endpoints: Vec<NifiRestEndpoint> = empty_list();
        let mut i: usize = 0;
        proof {
            assert(all.take(0) =~= Seq::empty());
        }
        while i < pods.len()
            invariant
                i <= pods.len(),
                all == pods.deep_view(),
                forall|j: int| 0 <= j < pods.len() ==> (#[trigger] all[j]).metadata.name.is_some(),
                endpoints_outcome(all.take(i as int)) == Ok::<
                    Seq<NifiRestEndpointView>,
                    NifiMonitoringErrorView,
                >(endpoints.deep_view()),
            decreases pods.len() - i,
        {
            proof {
                let next = all.take(i + 1);
                assert(next.drop_last() =~= all.take(i as int));
                assert(next.last() == all[i as int]);
                assert(all[i as int] == pods[i as int].deep_view());
            }
            match nifi_rest_endpoint(&pods[i]) {
                Ok(endpoint) => {
                    add_item(&mut endpoints, endpoint);
                },
                Err(error) => {
                    proof {
                        lemma_endpoints_failure_stays(all, i + 1);
                    }
                    return Err(error);
                },
            }
            i = i + 1;
        }
        proof {
            assert(all.take(i as int) =~= all);
        }
        Ok(endpoints)
    }

    /// What is sent to create the task.
    pub fn create_reporting_task(&self, metrics_port: u16, nifi_version: &str) -> (task:
        ReportingTask)
        ensures
            task.deep_view() == new_task(metrics_port, nifi_version@),
    {
        ReportingTask {
            revision: ReportingTaskRevision { client_id: None, version: 0 },
            id: None,
            disconnected_node_acknowledged: Some(false),
            component: Some(
                ReportingTaskComponent {
                    typ: PROMETHEUS_REPORTING_TASK_TYPE.to_owned(),
                    name: build_task_name(),
                    bundle: ReportingTaskComponentBundle {
                        group: PROMETHEUS_REPORTING_TASK_BUNDLE_GROUP.to_owned(),
                        artifact: PROMETHEUS_REPORTING_TASK_BUNDLE_ARTIFACT.to_owned(),
                        version: nifi_version.to_owned(),
                    },
                    properties: ReportingTaskComponentProperties {
                        metrics_endpoint_port: number_text(metrics_port as u64),
                        instance_id: "${hostname(true)}".to_owned(),
                        metrics_strategy: "All Components".to_owned(),
                        send_jvm: "true".to_owned(),
                        ssl_context: None,
                        client_auth: "No Authentication".to_owned(),
                    },
                },
            ),
            state: None,
            status: None,
        }
    }

    /// What is sent to start or stop a task.
    pub fn update_reporting_task_status(
        &self,
        task_revision: &ReportingTaskRevision,
        state: ReportingTaskState,
    ) -> (task: ReportingTask)
        ensures
            task.deep_view() == status_change(task_revision.deep_view(), state),
    {
        ReportingTask {
            revision: task_revision.copied(),
            id: None,
            disconnected_node_acknowledged: Some(false),
            component: None,
            state: Some(state),
            status: None,
        }
    }

    /// Whether a task offers the metrics at the port of the containers, which is the same for all
    /// nodes.
    pub fn match_metric_and_reporting_task_port(
        &self,
        metrics_port: u16,
        task_component: &Option<ReportingTaskComponent>,
    ) -> (same: bool)
        ensures
            same == offers_metrics_at(metrics_port, task_component.deep_view()),
    {
        match task_component {
            Some(component) => same_text(
                component.properties.metrics_endpoint_port.as_str(),
                number_text(metrics_port as u64).as_str(),
            ),
            None => false,
        }
    }
}

/// A step in listing the tasks.
#[derive(Debug, PartialEq, Eq)]
pub enum ListStep {
    /// A node is asked for the tasks.
    Query {
        /// Which node is asked.
        at: usize,
        url: String,
    },
    /// The tasks are known, or no node replies.
    Done {
        tasks: Vec<ReportingTask>,
    },
}

/// The contents of a [`ListStep`].
#[verifier::ext_equal]
pub enum ListStepView {
    Query { at: usize, url: Seq<char> },
    Done { tasks: Seq<ReportingTaskView> },
}

impl DeepView for ListStep {
    type V = ListStepView;

    open spec fn deep_view(&self) -> ListStepView {
        match self {
            ListStep::Query { at, url } => ListStepView::Query {
                at: at.deep_view(),
                url: url.deep_view(),
            },
            ListStep::Done { tasks } => ListStepView::Done {
                tasks: tasks.deep_view(),
            },
        }
    }
}

/// The step at which a node is asked, or at which all were.
pub open spec fn list_step_at(endpoints: Seq<NifiRestEndpointView>, at: int) -> ListStepView {
    if 0 <= at < endpoints.len() {
        ListStepView::Query {
            at: at as usize,
            url: endpoints[at].host() + "/nifi-api/flow/reporting-tasks"@,
        }
    } else {
        ListStepView::Done { tasks: Seq::empty() }
    }
}

/// The step after a node was asked, by its reply.
pub open spec fn list_step_after(
    endpoints: Seq<NifiRestEndpointView>,
    at: int,
    reply: Option<ReportingTasksView>,
) -> ListStepView {
    match reply {
        Some(tasks) => ListStepView::Done { tasks: tasks.reporting_tasks },
        None => list_step_at(endpoints, at + 1),
    }
}

/// The first step in listing the tasks.
pub fn first_list_step(endpoints: &Vec<NifiRestEndpoint>) -> (step: ListStep)
    ensures
        step.deep_view() == list_step_at(endpoints.deep_view(), 0),
{
    if endpoints.len() == 0 {
        return ListStep::Done { tasks: empty_list() };
    }
    ListStep::Query { at: 0, url: endpoints[0].list_reporting_tasks_url() }
}

/// The step after a node was asked. A node that does not reply is skipped. The tasks are the same
/// at all nodes, so the first reply counts.
pub fn next_list_step(
    endpoints: &Vec<NifiRestEndpoint>,
    at: usize,
    reply: Option<ReportingTasks>,
) -> (step: ListStep)
    requires
        at < endpoints.len(),
    ensures
        step.deep_view() == list_step_after(endpoints.deep_view(), at as int, reply.deep_view()),
{
    match reply {
        Some(tasks) => ListStep::Done { tasks: tasks.reporting_tasks },
        None => if at + 1 < endpoints.len() {
            ListStep::Query { at: at + 1, url: endpoints[at + 1].list_reporting_tasks_url() }
        } else {
            ListStep::Done { tasks: empty_list() }
        },
    }
}

/// What is listed from a node on, given what each node would reply.
pub open spec fn listed_from(replies: Seq<Option<ReportingTasksView>>, at: int) -> Seq<
    ReportingTaskView,
>
    decreases replies.len() - at,
{
    if 0 <= at < replies.len() {
        match replies[at] {
            Some(tasks) => tasks.reporting_tasks,
            None => listed_from(replies, at + 1),
        }
    } else {
        Seq::empty()
    }
}

/// Whether a step of listing the tasks asks a node, and the next one is made by its reply.
pub open spec fn list_goes_on(
    endpoints: Seq<NifiRestEndpointView>,
    replies: Seq<Option<ReportingTasksView>>,
    steps: Seq<ListStepView>,
    i: int,
) -> bool {
    steps[i] is Query && steps[i + 1] == list_step_after(
        endpoints,
        steps[i]->at as int,
        replies[steps[i]->at as int],
    )
}

/// Whether steps are those of a whole run of listing the tasks, given what each node would reply.
pub open spec fn is_list_run(
    endpoints: Seq<NifiRestEndpointView>,
    replies: Seq<Option<ReportingTasksView>>,
    steps: Seq<ListStepView>,
) -> bool {
    &&& steps.len() > 0
    &&& steps[0] == list_step_at(endpoints, 0)
    &&& forall|i: int|
        0 <= i < steps.len() - 1 ==> #[trigger] list_goes_on(endpoints, replies, steps, i)
    &&& steps.last() is Done
}

/// A run of listing the tasks asks the nodes in their order, each once. It ends with the first
/// node that replies, or when all were asked, and lists what that node lists.
pub proof fn law_listing_asks_in_order(
    endpoints: Seq<NifiRestEndpointView>,
    replies: Seq<Option<ReportingTasksView>>,
    steps: Seq<ListStepView>,
)
    requires
        replies.len() == endpoints.len() <= usize::MAX,
        is_list_run(endpoints, replies, steps),
    ensures
        steps.len() - 1 <= endpoints.len(),
        forall|i: int|
            0 <= i < steps.len() - 1 ==> #[trigger] steps[i] == list_step_at(endpoints, i),
        forall|i: int| 0 <= i < steps.len() - 2 ==> (#[trigger] replies[i]).is_none(),
        steps.len() - 1 < endpoints.len() ==> steps.len() >= 2 && replies[steps.len()
            - 2].is_some(),
        steps.last() == (ListStepView::Done { tasks: listed_from(replies, 0) }),
{
    let asked = steps.len() - 1;
    assert forall|i: int| 0 <= i < asked implies i < endpoints.len() && #[trigger] steps[i]
        == list_step_at(endpoints, i) by {
        lemma_asked_in_order(endpoints, replies, steps, i);
    }
    assert forall|i: int| 0 <= i < asked - 1 implies (#[trigger] replies[i]).is_none() by {
        lemma_asked_in_order(endpoints, replies, steps, i + 1);
    }
    if asked > 0 {
        assert(list_goes_on(endpoints, replies, steps, asked - 1));
        if replies[asked - 1].is_some() {
            lemma_skip_silent(replies, 0, asked - 1);
        } else {
            lemma_nobody_replies(replies, 0);
        }
    }
}

proof fn lemma_asked_in_order(
    endpoints: Seq<NifiRestEndpointView>,
    replies: Seq<Option<ReportingTasksView>>,
    steps: Seq<ListStepView>,
    i: int,
)
    requires
        replies.len() == endpoints.len() <= usize::MAX,
        is_list_run(endpoints, replies, steps),
        0 <= i < steps.len() - 1,
    ensures
        i < endpoints.len(),
        steps[i] == list_step_at(endpoints, i),
        i > 0 ==> replies[i - 1].is_none(),
    decreases i,
{
    assert(list_goes_on(endpoints, replies, steps, i));
    if i > 0 {
        lemma_asked_in_order(endpoints, replies, steps, i - 1);
        assert(list_goes_on(endpoints, replies, steps, i - 1));
    }
}

/// What is listed is what the first node that replies lists, whatever the nodes before it do. The
/// nodes after it are not asked.
pub proof fn law_first_reply_counts(
    endpoints: Seq<NifiRestEndpointView>,
    replies: Seq<Option<ReportingTasksView>>,
    steps: Seq<ListStepView>,
    first: int,
)
    requires
        replies.len() == endpoints.len() <= usize::MAX,
        is_list_run(endpoints, replies, steps),
        0 <= first < replies.len(),
        replies[first].is_some(),
        forall|i: int| 0 <= i < first ==> (#[trigger] replies[i]).is_none(),
    ensures
        steps.len() == first + 2,
        steps.last() == (ListStepView::Done { tasks: replies[first].unwrap().reporting_tasks }),
{
    law_listing_asks_in_order(endpoints, replies, steps);
    lemma_skip_silent(replies, 0, first);
    if first < steps.len() - 2 {
        assert(replies[first].is_none());
    }
    if steps.len() - 2 < first {
        assert(replies[steps.len() - 2].is_none());
    }
}

proof fn lemma_skip_silent(replies: Seq<Option<ReportingTasksView>>, at: int, first: int)
    requires
        0 <= at <= first < replies.len(),
        replies[first].is_some(),
        forall|i: int| 0 <= i < first ==> (#[trigger] replies[i]).is_none(),
    ensures
        listed_from(replies, at) == replies[first].unwrap().reporting_tasks,
    decreases first - at,
{
    if at < first {
        lemma_skip_silent(replies, at + 1, first);
    }
}

proof fn lemma_nobody_replies(replies: Seq<Option<ReportingTasksView>>, at: int)
    requires
        0 <= at <= replies.len(),
        forall|i: int| 0 <= i < replies.len() ==> (#[trigger] replies[i]).is_none(),
    ensures
        listed_from(replies, at) == Seq::<ReportingTaskView>::empty(),
    decreases replies.len() - at,
{
    if at < replies.len() {
        lemma_nobody_replies(replies, at + 1);
    }
}

/// A step in calling the API of any node.
#[derive(Debug, PartialEq, Eq)]
pub enum AttemptStep {
    /// A node is called.
    Call {
        /// Which node is called.
        at: usize,
    },
    /// The call is made, or every node was called.
    Succeeded,
    /// There is no node to call.
    Unreachable,
}

/// The contents of a [`AttemptStep`].
#[verifier::ext_equal]
pub enum AttemptStepView {
    Call { at: usize },
    Succeeded,
    Unreachable,
}

impl DeepView for AttemptStep {
    type V = AttemptStepView;

    open spec fn deep_view(&self) -> AttemptStepView {
        match self {
            AttemptStep::Call { at } => AttemptStepView::Call {
                at: at.deep_view(),
            },
            AttemptStep::Succeeded => AttemptStepView::Succeeded,
            AttemptStep::Unreachable => AttemptStepView::Unreachable,
        }
    }
}

/// The first step in calling the API of any of so many nodes.
pub open spec fn attempt_start(nodes: nat) -> AttemptStepView {
    if nodes == 0 {
        AttemptStepView::Unreachable
    } else {
        AttemptStepView::Call { at: 0 }
    }
}

/// The step after one of so many nodes was called.
pub open spec fn attempt_after(nodes: nat, at: int, succeeded: bool) -> AttemptStepView {
    if !succeeded && at + 1 < nodes {
        AttemptStepView::Call { at: (at + 1) as usize }
    } else {
        AttemptStepView::Succeeded
    }
}

/// The first step in calling the API of any node.
pub fn first_attempt(endpoints: &Vec<NifiRestEndpoint>) -> (step: AttemptStep)
    ensures
        step.deep_view() == attempt_start(endpoints.deep_view().len()),
{
    if endpoints.len() == 0 {
        AttemptStep::Unreachable
    } else {
        AttemptStep::Call { at: 0 }
    }
}

/// The step after a node was called. Where the call fails, the next node is called. Where it fails
/// at all nodes, there is nothing more to do: the next reconciliation tries again.
pub fn next_attempt(endpoints: &Vec<NifiRestEndpoint>, at: usize, succeeded: bool) -> (step:
    AttemptStep)
    requires
        at < endpoints.len(),
    ensures
        step.deep_view() == attempt_after(endpoints.deep_view().len(), at as int, succeeded),
{
    if !succeeded && at + 1 < endpoints.len() {
        AttemptStep::Call { at: at + 1 }
    } else {
        AttemptStep::Succeeded
    }
}

/// The outcome of an attempt.
pub fn attempt_outcome(step: &AttemptStep) -> (result: Result<(), NifiMonitoringError>)
    requires
        !(step.deep_view() is Call),
    ensures
        match result {
            Ok(()) => step.deep_view() is Succeeded,
            Err(error) => step.deep_view() is Unreachable && error.deep_view()
                == NifiMonitoringErrorView::NiFiRestApiUnreachable,
        },
{
    match step {
        AttemptStep::Unreachable => Err(NifiMonitoringError::NiFiRestApiUnreachable),
        _ => Ok(()),
    }
}

/// Whether a step calls a node, and the next one is made by whether the call succeeds.
pub open spec fn attempt_goes_on(
    nodes: nat,
    successes: Seq<bool>,
    steps: Seq<AttemptStepView>,
    i: int,
) -> bool {
    steps[i] is Call && steps[i + 1] == attempt_after(
        nodes,
        steps[i]->at as int,
        successes[steps[i]->at as int],
    )
}

/// Whether steps are those of a whole run of calling the API of any of so many nodes, given at
/// which of them the call would succeed.
pub open spec fn is_attempt_run(
    nodes: nat,
    successes: Seq<bool>,
    steps: Seq<AttemptStepView>,
) -> bool {
    &&& steps.len() > 0
    &&& steps[0] == attempt_start(nodes)
    &&& forall|i: int|
        0 <= i < steps.len() - 1 ==> #[trigger] attempt_goes_on(nodes, successes, steps, i)
    &&& !(steps.last() is Call)
}

/// A run of calls goes to the nodes in their order, to each once. It ends with the first node at
/// which the call succeeds, or when all were called, and it fails exactly where there is no node.
pub proof fn law_calls_are_made_in_order(
    nodes: nat,
    successes: Seq<bool>,
    steps: Seq<AttemptStepView>,
)
    requires
        successes.len() == nodes <= usize::MAX,
        is_attempt_run(nodes, successes, steps),
    ensures
        steps.len() - 1 <= nodes,
        forall|i: int|
            0 <= i < steps.len() - 1 ==> #[trigger] steps[i] == (AttemptStepView::Call {
                at: i as usize,
            }),
        forall|i: int| 0 <= i < steps.len() - 2 ==> !#[trigger] successes[i],
        steps.len() - 1 < nodes ==> steps.len() >= 2 && successes[steps.len() - 2],
        steps.last() == (if nodes == 0 {
            AttemptStepView::Unreachable
        } else {
            AttemptStepView::Succeeded
        }),
{
    let called = steps.len() - 1;
    assert forall|i: int| 0 <= i < called implies i < nodes && #[trigger] steps[i] == (
    AttemptStepView::Call { at: i as usize }) by {
        lemma_called_in_order(nodes, successes, steps, i);
    }
    assert forall|i: int| 0 <= i < called - 1 implies !#[trigger] successes[i] by {
        lemma_called_in_order(nodes, successes, steps, i + 1);
    }
    if called > 0 {
        assert(attempt_goes_on(nodes, successes, steps, called - 1));
    }
}

proof fn lemma_called_in_order(
    nodes: nat,
    successes: Seq<bool>,
    steps: Seq<AttemptStepView>,
    i: int,
)
    requires
        successes.len() == nodes <= usize::MAX,
        is_attempt_run(nodes, successes, steps),
        0 <= i < steps.len() - 1,
    ensures
        i < nodes,
        steps[i] == (AttemptStepView::Call { at: i as usize }),
        i > 0 ==> !successes[i - 1],
    decreases i,
{
    assert(attempt_goes_on(nodes, successes, steps, i));
    if i > 0 {
        lemma_called_in_order(nodes, successes, steps, i - 1);
        assert(attempt_goes_on(nodes, successes, steps, i - 1));
    }
}

/// What is done about the task.
#[derive(Debug, PartialEq, Eq)]
pub enum MonitoringAction {
    /// All is as it should be.
    Nothing,
    /// The task is created.
    Create {
        metrics_port: u16,
    },
    /// The task is started.
    Start {
        task_id: String,
        revision: ReportingTaskRevision,
    },
    /// The task is stopped.
    Stop {
        task_id: String,
        revision: ReportingTaskRevision,
    },
    /// The task is deleted.
    Delete {
        task_id: String,
        revision: ReportingTaskRevision,
    },
}

/// The contents of a [`MonitoringAction`].
#[verifier::ext_equal]
pub enum MonitoringActionView {
    Nothing,
    Create { metrics_port: u16 },
    Start { task_id: Seq<char>, revision: ReportingTaskRevisionView },
    Stop { task_id: Seq<char>, revision: ReportingTaskRevisionView },
    Delete { task_id: Seq<char>, revision: ReportingTaskRevisionView },
}

impl DeepView for MonitoringAction {
    type V = MonitoringActionView;

    open spec fn deep_view(&self) -> MonitoringActionView {
        match self {
            MonitoringAction::Nothing => MonitoringActionView::Nothing,
            MonitoringAction::Create { metrics_port } => MonitoringActionView::Create {
                metrics_port: metrics_port.deep_view(),
            },
            MonitoringAction::Start { task_id, revision } => MonitoringActionView::Start {
                task_id: task_id.deep_view(),
                revision: revision.deep_view(),
            },
            MonitoringAction::Stop { task_id, revision } => MonitoringActionView::Stop {
                task_id: task_id.deep_view(),
                revision: revision.deep_view(),
            },
            MonitoringAction::Delete { task_id, revision } => MonitoringActionView::Delete {
                task_id: task_id.deep_view(),
                revision: revision.deep_view(),
            },
        }
    }
}

/// What a reconciliation does after one of its stages.
#[derive(Clone, Copy, Debug, PartialEq, Eq, Structural)]
pub enum ReconcileFunctionAction {
    /// The next stage follows.
    Continue,
    /// The reconciliation is over.
    Done,
    /// The reconciliation is over, and another one follows.
    Requeue { seconds: u64 },
}

/// The identifier of a task.
pub open spec fn id_of(task: ReportingTaskView) -> Seq<char> {
    match task.id {
        Some(id) => id,
        None => NO_TASK_ID@,
    }
}

/// What is done about the task, and what follows.
///
/// A task whose status is unknown counts as missing.
pub open spec fn monitoring_decision(
    metrics_port: Option<u16>,
    task: Option<ReportingTaskView>,
) -> (MonitoringActionView, ReconcileFunctionAction) {
    match task {
        Some(ReportingTaskView { status: Some(status), revision, component, .. }) => {
            let task_id = id_of(task.unwrap());
            match (metrics_port, status.run_status) {
                (Some(port), ReportingTaskState::Running) => if offers_metrics_at(
                    port,
                    component,
                ) {
                    (MonitoringActionView::Nothing, ReconcileFunctionAction::Continue)
                } else {
                    (
                        MonitoringActionView::Stop { task_id, revision },
                        ReconcileFunctionAction::Requeue { seconds: 5 },
                    )
                },
                (Some(port), ReportingTaskState::Stopped) => if offers_metrics_at(
                    port,
                    component,
                ) {
                    (
                        MonitoringActionView::Start { task_id, revision },
                        ReconcileFunctionAction::Continue,
                    )
                } else {
                    (
                        MonitoringActionView::Delete { task_id, revision },
                        ReconcileFunctionAction::Requeue { seconds: 5 },
                    )
                },
                (None, ReportingTaskState::Running) => (
                    MonitoringActionView::Stop { task_id, revision },
                    ReconcileFunctionAction::Requeue { seconds: 5 },
                ),
                (None, ReportingTaskState::Stopped) => (
                    MonitoringActionView::Delete { task_id, revision },
                    ReconcileFunctionAction::Continue,
                ),
            }
        },
        _ => match metrics_port {
            Some(metrics_port) => (
                MonitoringActionView::Create { metrics_port },
                ReconcileFunctionAction::Requeue { seconds: 10 },
            ),
            None => (MonitoringActionView::Nothing, ReconcileFunctionAction::Continue),
        },
    }
}

/// Decides what is done about the task that reports to Prometheus. There is one for the whole
/// cluster, which NiFi keeps the same at all nodes.
///
/// The port of a task cannot be changed while it runs, and a running task cannot be deleted. So a
/// task with another port is stopped first, then deleted, and then created anew.
pub fn process_monitoring(
    client: &NifiRestClient,
    metrics_port: Option<u16>,
    reporting_task: &Option<ReportingTask>,
) -> (decision: (MonitoringAction, ReconcileFunctionAction))
    ensures
        (decision.0.deep_view(), decision.1) == monitoring_decision(
            metrics_port,
            reporting_task.deep_view(),
        ),
{
    let (task, status) = match reporting_task {
        Some(task) => match &task.status {
            Some(status) => (task, status),
            None => {
                return create_if_wanted(metrics_port);
            },
        },
        None => {
            return create_if_wanted(metrics_port);
        },
    };
    let task_id = match &task.id {
        Some(id) => id.copied(),
        None => NO_TASK_ID.to_owned(),
    };
    let revision = task.revision.copied();
    match (metrics_port, status.run_status) {
        (Some(port), ReportingTaskState::Running) => {
            if client.match_metric_and_reporting_task_port(port, &task.component) {
                (MonitoringAction::Nothing, ReconcileFunctionAction::Continue)
            } else {
                (
                    MonitoringAction::Stop { task_id, revision },
                    ReconcileFunctionAction::Requeue { seconds: 5 },
                )
            }
        },
        (Some(port), ReportingTaskState::Stopped) => {
            if client.match_metric_and_reporting_task_port(port, &task.component) {
                (
                    MonitoringAction::Start { task_id, revision },
                    ReconcileFunctionAction::Continue,
                )
            } else {
                (
                    MonitoringAction::Delete { task_id, revision },
                    ReconcileFunctionAction::Requeue { seconds: 5 },
                )
            }
        },
        (None, ReportingTaskState::Running) => (
            MonitoringAction::Stop { task_id, revision },
            ReconcileFunctionAction::Requeue { seconds: 5 },
        ),
        (None, ReportingTaskState::Stopped) => (
            MonitoringAction::Delete { task_id, revision },
            ReconcileFunctionAction::Continue,
        ),
    }
}

/// Without a task, one is created where metrics are wanted.
fn create_if_wanted(metrics_port: Option<u16>) -> (decision: (
    MonitoringAction,
    ReconcileFunctionAction,
))
    ensures
        (decision.0.deep_view(), decision.1) == monitoring_decision(metrics_port, None),
{
    match metrics_port {
        Some(metrics_port) => (
            MonitoringAction::Create { metrics_port },
            ReconcileFunctionAction::Requeue { seconds: 10 },
        ),
        None => (MonitoringAction::Nothing, ReconcileFunctionAction::Continue),
    }
}

/// The task after an action that NiFi carries out as it is asked to. A new task is stopped.
pub open spec fn after_action(
    task: Option<ReportingTaskView>,
    action: MonitoringActionView,
    nifi_version: Seq<char>,
) -> Option<ReportingTaskView> {
    match (action, task) {
        (MonitoringActionView::Create { metrics_port }, _) => Some(
            ReportingTaskView {
                status: Some(
                    ReportingTaskStatusView {
                        run_status: ReportingTaskState::Stopped,
                        validation_status: ReportingTaskValidation::Valid,
                        active_thread_count: 0,
                    },
                ),
                ..new_task(metrics_port, nifi_version)
            },
        ),
        (MonitoringActionView::Delete { .. }, _) => None,
        (MonitoringActionView::Start { .. }, Some(task)) => Some(
            with_run_status(task, ReportingTaskState::Running),
        ),
        (MonitoringActionView::Stop { .. }, Some(task)) => Some(
            with_run_status(task, ReportingTaskState::Stopped),
        ),
        _ => task,
    }
}

/// A task that runs or does not.
pub open spec fn with_run_status(
    task: ReportingTaskView,
    run_status: ReportingTaskState,
) -> ReportingTaskView {
    match task.status {
        Some(status) => ReportingTaskView {
            status: Some(ReportingTaskStatusView { run_status, ..status }),
            ..task
        },
        None => task,
    }
}

/// The task after some reconciliations in which NiFi carries out what it is asked to.
pub open spec fn after_reconciliations(
    metrics_port: Option<u16>,
    task: Option<ReportingTaskView>,
    nifi_version: Seq<char>,
    count: nat,
) -> Option<ReportingTaskView>
    decreases count,
{
    if count == 0 {
        task
    } else {
        let before = after_reconciliations(metrics_port, task, nifi_version, (count - 1) as nat);
        after_action(before, monitoring_decision(metrics_port, before).0, nifi_version)
    }
}

/// Whether metrics are offered as the user wants: at the port, by a task that runs, or, without a
/// port, not at all.
pub open spec fn monitored_as_wanted(
    metrics_port: Option<u16>,
    task: Option<ReportingTaskView>,
) -> bool {
    match metrics_port {
        Some(port) => match task {
            Some(task) => task.status.is_some() && task.status.unwrap().run_status
                == ReportingTaskState::Running && offers_metrics_at(port, task.component),
            None => false,
        },
        None => match task {
            Some(task) => task.status.is_none(),
            None => true,
        },
    }
}

/// Whatever task there is at first, after at most four reconciliations in which NiFi carries out
/// what it is asked to, metrics are offered as the user wants.
pub proof fn law_monitoring_converges(
    metrics_port: Option<u16>,
    task: Option<ReportingTaskView>,
    nifi_version: Seq<char>,
)
    ensures
        monitored_as_wanted(
            metrics_port,
            after_reconciliations(metrics_port, task, nifi_version, 4),
        ),
{
    let task_1 = after_action(task, monitoring_decision(metrics_port, task).0, nifi_version);
    let task_2 = after_action(task_1, monitoring_decision(metrics_port, task_1).0, nifi_version);
    let task_3 = after_action(task_2, monitoring_decision(metrics_port, task_2).0, nifi_version);
    let task_4 = after_action(task_3, monitoring_decision(metrics_port, task_3).0, nifi_version);
    reveal_with_fuel(after_reconciliations, 5);
    assert(after_reconciliations(metrics_port, task, nifi_version, 1) == task_1);
    assert(after_reconciliations(metrics_port, task, nifi_version, 2) == task_2);
    assert(after_reconciliations(metrics_port, task, nifi_version, 3) == task_3);
    assert(after_reconciliations(metrics_port, task, nifi_version, 4) == task_4);
}

/// Once metrics are offered as the user wants, nothing more is done about the task.
pub proof fn law_monitoring_settles(metrics_port: Option<u16>, task: Option<ReportingTaskView>)
    requires
        monitored_as_wanted(metrics_port, task),
    ensures
        monitoring_decision(metrics_port, task) == (
            MonitoringActionView::Nothing,
            ReconcileFunctionAction::Continue,
        ),
{
}

/// The task that is created is the one that is looked for.
pub proof fn law_created_task_is_found(metrics_port: u16, nifi_version: Seq<char>)
    ensures
        reports_to_prometheus(new_task(metrics_port, nifi_version), nifi_version),
        offers_metrics_at(metrics_port, new_task(metrics_port, nifi_version).component),
{
}

} // verus!
