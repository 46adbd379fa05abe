//! What a reconciliation decides: which pods are legal, what a pod and its ConfigMap are, and which
//! stage comes next.

use crate::contents::{Copied, SameContents};
use crate::kubernetes::{
    ConfigMap, ConfigMapView, Container, ContainerPort, ContainerPortView, ContainerView, EnvVar,
    EnvVarSource, EnvVarSourceView, EnvVarView, ObjectMeta, ObjectMetaView, OwnerReference,
    OwnerReferenceView,
};
use crate::list::{add_item, empty_list, list_of};
use crate::ordered_map;
use crate::ordered_map::{OrderedMap, StringMap};
use crate::pod_cluster::monitoring::ReconcileFunctionAction;
use crate::pod_cluster::pod_utils;
use crate::pod_cluster::pod_utils::{build_nifi_start_command, build_pod_name};
use crate::pod_cluster::{
    NifiConfig, NifiRole, NifiSpec, NifiSpecView, NifiVersion, ZookeeperReference,
    ZookeeperReferenceView, APP_NAME, MANAGED_BY, NIFI_CLUSTER_LOAD_BALANCE_PORT,
    NIFI_CLUSTER_NODE_PROTOCOL_PORT, NIFI_WEB_HTTP_PORT,
};
use crate::text;
use crate::text::{concat2, concat3, parse_u16, same_text};
use vstd::prelude::*;

verus! {

pub const SHOULD_BE_SCRAPED: &'static str = "monitoring.stackable.tech/should_be_scraped";

pub const HTTP_PORT_NAME: &'static str = "http";

pub const PROTOCOL_PORT_NAME: &'static str = "protocol";

pub const LOAD_BALANCE_PORT_NAME: &'static str = "loadbalance";

pub const METRICS_PORT_NAME: &'static str = "metrics";

/// The container that runs NiFi.
pub const CONTAINER_NAME: &'static str = "nifi";

/// The environment variable by which users set the port for metrics.
pub const NIFI_CLUSTER_METRICS_PORT: &'static str = "metricsPort";

pub const NIFI_BOOTSTRAP_CONF: &'static str = "bootstrap.conf";

pub const NIFI_PROPERTIES: &'static str = "nifi.properties";

pub const NIFI_STATE_MANAGEMENT_XML: &'static str = "state-management.xml";

pub const APP_COMPONENT_LABEL: &'static str = "app.kubernetes.io/component";

pub const APP_INSTANCE_LABEL: &'static str = "app.kubernetes.io/instance";

pub const APP_VERSION_LABEL: &'static str = "app.kubernetes.io/version";

pub const APP_NAME_LABEL: &'static str = "app.kubernetes.io/name";

pub const APP_MANAGED_BY_LABEL: &'static str = "app.kubernetes.io/managed-by";

/// Why the operator framework fails.
#[derive(Debug, PartialEq, Eq)]
pub enum OperatorError {
    /// Nothing is configured for a role group.
    MissingConfiguration,
    /// The cluster has no name or no UID, so nothing can refer to it as its owner.
    MissingOwner,
    /// Kubernetes refuses a request.
    Kubernetes {
        message: String,
    },
}

/// The contents of a [`OperatorError`].
#[verifier::ext_equal]
pub enum OperatorErrorView {
    MissingConfiguration,
    MissingOwner,
    Kubernetes { message: Seq<char> },
}

impl DeepView for OperatorError {
    type V = OperatorErrorView;

    open spec fn deep_view(&self) -> OperatorErrorView {
        match self {
            OperatorError::MissingConfiguration => OperatorErrorView::MissingConfiguration,
            OperatorError::MissingOwner => OperatorErrorView::MissingOwner,
            OperatorError::Kubernetes { message } => OperatorErrorView::Kubernetes {
                message: message.deep_view(),
            },
        }
    }
}

/// Why a reconciliation fails.
#[derive(Debug, PartialEq, Eq)]
pub enum NifiError {
    /// The operator framework fails.
    OperatorError {
        source: OperatorError,
    },
    /// A port is not a number.
    ParseError,
    /// The path in ZooKeeper is not valid.
    ZookeeperError,
    /// A ConfigMap has no name, so it cannot be looked up.
    InvalidConfigMap,
}

/// The contents of a [`NifiError`].
#[verifier::ext_equal]
pub enum NifiErrorView {
    OperatorError { source: OperatorErrorView },
    ParseError,
    ZookeeperError,
    InvalidConfigMap,
}

impl DeepView for NifiError {
    type V = NifiErrorView;

    open spec fn deep_view(&self) -> NifiErrorView {
        match self {
            NifiError::OperatorError { source } => NifiErrorView::OperatorError {
                source: source.deep_view(),
            },
            NifiError::ParseError => NifiErrorView::ParseError,
            NifiError::ZookeeperError => NifiErrorView::ZookeeperError,
            NifiError::InvalidConfigMap => NifiErrorView::InvalidConfigMap,
        }
    }
}

/// A ConfigMap that is mounted.
#[derive(Debug, PartialEq, Eq)]
pub struct ConfigMapMount {
    pub config_map: String,
    pub mount_path: String,
}

/// The contents of a [`ConfigMapMount`].
#[verifier::ext_equal]
pub struct ConfigMapMountView {
    pub config_map: Seq<char>,
    pub mount_path: Seq<char>,
}

impl DeepView for ConfigMapMount {
    type V = ConfigMapMountView;

    open spec fn deep_view(&self) -> ConfigMapMountView {
        ConfigMapMountView {
            config_map: self.config_map.deep_view(),
            mount_path: self.mount_path.deep_view(),
        }
    }
}

impl Copied for ConfigMapMount {
    fn copied(&self) -> (copy: ConfigMapMount) {
        ConfigMapMount {
            config_map: self.config_map.copied(),
            mount_path: self.mount_path.copied(),
        }
    }
}

/// What a pod runs, and where.
#[derive(Debug, PartialEq, Eq)]
pub struct PodSpec {
    pub node_name: Option<String>,
    pub containers: Vec<Container>,
    pub config_map_mounts: Vec<ConfigMapMount>,
    /// Whether the pod may run on nodes of the Stackable agent.
    pub tolerates_stackable_agent: bool,
}

/// The contents of a [`PodSpec`].
#[verifier::ext_equal]
pub struct PodSpecView {
    pub node_name: Option<Seq<char>>,
    pub containers: Seq<ContainerView>,
    pub config_map_mounts: Seq<ConfigMapMountView>,
    pub tolerates_stackable_agent: bool,
}

impl DeepView for PodSpec {
    type V = PodSpecView;

    open spec fn deep_view(&self) -> PodSpecView {
        PodSpecView {
            node_name: self.node_name.deep_view(),
            containers: self.containers.deep_view(),
            config_map_mounts: self.config_map_mounts.deep_view(),
            tolerates_stackable_agent: self.tolerates_stackable_agent.deep_view(),
        }
    }
}

impl Copied for PodSpec {
    fn copied(&self) -> (copy: PodSpec) {
        PodSpec {
            node_name: self.node_name.copied(),
            containers: self.containers.copied(),
            config_map_mounts: self.config_map_mounts.copied(),
            tolerates_stackable_agent: self.tolerates_stackable_agent,
        }
    }
}

/// A pod.
#[derive(Debug, PartialEq, Eq)]
pub struct Pod {
    pub metadata: ObjectMeta,
    pub spec: Option<PodSpec>,
}

/// The contents of a [`Pod`].
#[verifier::ext_equal]
pub struct PodView {
    pub metadata: ObjectMetaView,
    pub spec: Option<PodSpecView>,
}

impl DeepView for Pod {
    type V = PodView;

    open spec fn deep_view(&self) -> PodView {
        PodView {
            metadata: self.metadata.deep_view(),
            spec: self.spec.deep_view(),
        }
    }
}

impl Copied for Pod {
    fn copied(&self) -> (copy: Pod) {
        Pod {
            metadata: self.metadata.copied(),
            spec: self.spec.copied(),
        }
    }
}

/// What the product configuration makes of a role group.
#[derive(Debug, PartialEq, Eq)]
pub struct ValidatedConfig {
    /// The environment variables.
    pub env: Option<StringMap>,
    /// The properties of each file.
    pub files: OrderedMap<StringMap>,
}

/// The contents of a [`ValidatedConfig`].
#[verifier::ext_equal]
pub struct ValidatedConfigView {
    pub env: Option<Map<Seq<char>, Seq<char>>>,
    pub files: Map<Seq<char>, Map<Seq<char>, Seq<char>>>,
}

impl DeepView for ValidatedConfig {
    type V = ValidatedConfigView;

    open spec fn deep_view(&self) -> ValidatedConfigView {
        ValidatedConfigView {
            env: self.env.deep_view(),
            files: self.files.deep_view(),
        }
    }
}

/// The texts of the files of a node.
#[derive(Debug, PartialEq, Eq)]
pub struct RenderedFiles {
    pub bootstrap_conf: String,
    pub nifi_properties: String,
    pub state_management_xml: String,
}

/// The contents of a [`RenderedFiles`].
#[verifier::ext_equal]
pub struct RenderedFilesView {
    pub bootstrap_conf: Seq<char>,
    pub nifi_properties: Seq<char>,
    pub state_management_xml: Seq<char>,
}

impl DeepView for RenderedFiles {
    type V = RenderedFilesView;

    open spec fn deep_view(&self) -> RenderedFilesView {
        RenderedFilesView {
            bootstrap_conf: self.bootstrap_conf.deep_view(),
            nifi_properties: self.nifi_properties.deep_view(),
            state_management_xml: self.state_management_xml.deep_view(),
        }
    }
}

/// The ports of a node, as the product configuration writes them.
#[derive(Debug, PartialEq, Eq)]
pub struct NodePorts {
    pub http_port: Option<String>,
    pub protocol_port: Option<String>,
    pub load_balance_port: Option<String>,
}

/// The contents of a [`NodePorts`].
#[verifier::ext_equal]
pub struct NodePortsView {
    pub http_port: Option<Seq<char>>,
    pub protocol_port: Option<Seq<char>>,
    pub load_balance_port: Option<Seq<char>>,
}

impl DeepView for NodePorts {
    type V = NodePortsView;

    open spec fn deep_view(&self) -> NodePortsView {
        NodePortsView {
            http_port: self.http_port.deep_view(),
            protocol_port: self.protocol_port.deep_view(),
            load_balance_port: self.load_balance_port.deep_view(),
        }
    }
}

/// The legal values of each label that a pod has to have.
pub open spec fn required_labels(cluster_name: Seq<char>, version: NifiVersion) -> Map<
    Seq<char>,
    Option<Seq<Seq<char>>>,
> {
    Map::empty().insert(APP_COMPONENT_LABEL@, Some(seq![NifiRole::Node.text()])).insert(
        APP_INSTANCE_LABEL@,
        Some(seq![cluster_name]),
    ).insert(APP_VERSION_LABEL@, Some(seq![version.text()])).insert(
        APP_NAME_LABEL@,
        Some(seq![APP_NAME@]),
    ).insert(APP_MANAGED_BY_LABEL@, Some(seq![MANAGED_BY@]))
}

/// The legal values of each label that a pod has to have. Pods without one of them are replaced.
pub fn required_pod_labels(cluster_name: &str, version: &NifiVersion) -> (labels: OrderedMap<
    Option<Vec<String>>,
>)
    ensures
        labels@ == required_labels(cluster_name@, *version),
{
    let mut labels: OrderedMap<Option<Vec<String>>> = OrderedMap::new();
    labels.insert(APP_COMPONENT_LABEL, Some(list_of(NifiRole::Node.as_str().to_owned())));
    labels.insert(APP_INSTANCE_LABEL, Some(list_of(cluster_name.to_owned())));
    labels.insert(APP_VERSION_LABEL, Some(list_of(version.as_str().to_owned())));
    labels.insert(APP_NAME_LABEL, Some(list_of(APP_NAME.to_owned())));
    labels.insert(APP_MANAGED_BY_LABEL, Some(list_of(MANAGED_BY.to_owned())));
    labels
}

/// What is asked of ZooKeeper: its address without the path. NiFi takes the path as a setting of
/// its own and refuses addresses with one.
pub fn zookeeper_request(reference: &ZookeeperReference, chroot_is_valid: bool) -> (result: Result<
    ZookeeperReference,
    NifiError,
>)
    ensures
        match result {
            Ok(request) => (reference.chroot.is_none() || chroot_is_valid) && request.deep_view()
                == (ZookeeperReferenceView { chroot: None, ..reference.deep_view() }),
            Err(error) => reference.chroot.is_some() && !chroot_is_valid
                && error.deep_view() == NifiErrorView::ZookeeperError,
        },
{
    if reference.chroot.is_some() && !chroot_is_valid {
        return Err(NifiError::ZookeeperError);
    }
    Ok(
        ZookeeperReference {
            name: reference.name.copied(),
            namespace: reference.namespace.copied(),
            chroot: None,
        },
    )
}

/// What Kubernetes says of a ConfigMap.
#[derive(Debug, PartialEq, Eq)]
pub enum ExistingConfigMap {
    /// It exists, with these contents.
    Found {
        data: Option<StringMap>,
    },
    /// It does not exist.
    NotFound,
    /// Asking for it fails for another reason.
    Failed {
        message: String,
    },
}

/// The contents of a [`ExistingConfigMap`].
#[verifier::ext_equal]
pub enum ExistingConfigMapView {
    Found { data: Option<Map<Seq<char>, Seq<char>>> },
    NotFound,
    Failed { message: Seq<char> },
}

impl DeepView for ExistingConfigMap {
    type V = ExistingConfigMapView;

    open spec fn deep_view(&self) -> ExistingConfigMapView {
        match self {
            ExistingConfigMap::Found { data } => ExistingConfigMapView::Found {
                data: data.deep_view(),
            },
            ExistingConfigMap::NotFound => ExistingConfigMapView::NotFound,
            ExistingConfigMap::Failed { message } => ExistingConfigMapView::Failed {
                message: message.deep_view(),
            },
        }
    }
}

/// What is done about a ConfigMap.
#[derive(Clone, Copy, Debug, PartialEq, Eq, Structural)]
pub enum ConfigMapAction {
    /// It is as it should be.
    Skip,
    /// Its contents differ.
    Update,
    /// It does not exist.
    Create,
}

impl DeepView for ConfigMapAction {
    type V = ConfigMapAction;

    open spec fn deep_view(&self) -> ConfigMapAction {
        *self
    }
}

impl Copied for ConfigMapAction {
    fn copied(&self) -> (copy: ConfigMapAction) {
        *self
    }
}

impl SameContents for ConfigMapAction {
    fn same(&self, other: &ConfigMapAction) -> (same: bool) {
        *self == *other
    }
}

/// What is done about a ConfigMap, or the error with which nothing is done.
pub open spec fn config_map_action(
    config_map: ConfigMapView,
    existing: ExistingConfigMapView,
) -> Result<ConfigMapAction, NifiErrorView> {
    if config_map.metadata.name.is_none() {
        Err(NifiErrorView::InvalidConfigMap)
    } else {
        match existing {
            ExistingConfigMapView::Found { data } => if data == Some(config_map.data) {
                Ok(ConfigMapAction::Skip)
            } else {
                Ok(ConfigMapAction::Update)
            },
            ExistingConfigMapView::NotFound => Ok(ConfigMapAction::Create),
            ExistingConfigMapView::Failed { message } => Err(
                NifiErrorView::OperatorError { source: OperatorErrorView::Kubernetes { message } },
            ),
        }
    }
}

/// The name under which a ConfigMap is looked up.
pub fn config_map_name(config_map: &ConfigMap) -> (result: Result<String, NifiError>)
    ensures
        match result {
            Ok(name) => config_map.deep_view().metadata.name == Some(name@),
            Err(error) => config_map.deep_view().metadata.name.is_none()
                && error.deep_view() == NifiErrorView::InvalidConfigMap,
        },
{
    match &config_map.metadata.name {
        Some(name) => Ok(name.copied()),
        None => Err(NifiError::InvalidConfigMap),
    }
}

/// Decides what is done about a ConfigMap: it is created where it does not exist, and updated where
/// its contents differ. Any other error of Kubernetes is handed on, and nothing is written.
pub fn create_config_map(config_map: &ConfigMap, existing: &ExistingConfigMap) -> (result: Result<
    ConfigMapAction,
    NifiError,
>)
    ensures
        match result {
            Ok(action) => config_map_action(config_map.deep_view(), existing.deep_view()) == Ok::<
                ConfigMapAction,
                NifiErrorView,
            >(action),
            Err(error) => config_map_action(config_map.deep_view(), existing.deep_view()) == Err::<
                ConfigMapAction,
                NifiErrorView,
            >(error.deep_view()),
        },
{
    if config_map.metadata.name.is_none() {
        return Err(NifiError::InvalidConfigMap);
    }
    match existing {
        ExistingConfigMap::Found { data } => match data {
            Some(data) => if data.same(&config_map.data) {
                Ok(ConfigMapAction::Skip)
            } else {
                Ok(ConfigMapAction::Update)
            },
            None => Ok(ConfigMapAction::Update),
        },
        ExistingConfigMap::NotFound => Ok(ConfigMapAction::Create),
        ExistingConfigMap::Failed { message } => Err(
            NifiError::OperatorError {
                source: OperatorError::Kubernetes { message: message.copied() },
            },
        ),
    }
}

/// After what is decided was done, a ConfigMap has the wanted contents, and nothing more is done.
pub proof fn law_config_map_settles(config_map: ConfigMapView)
    requires
        config_map.metadata.name.is_some(),
    ensures
        config_map_action(config_map, ExistingConfigMapView::Found { data: Some(config_map.data) })
            == Ok::<ConfigMapAction, NifiErrorView>(ConfigMapAction::Skip),
{
}

/// A pod that has to be created.
#[derive(Debug, PartialEq, Eq)]
pub struct MissingPod {
    pub role_group: String,
    pub node_name: String,
}

/// The contents of a [`MissingPod`].
#[verifier::ext_equal]
pub struct MissingPodView {
    pub role_group: Seq<char>,
    pub node_name: Seq<char>,
}

impl DeepView for MissingPod {
    type V = MissingPodView;

    open spec fn deep_view(&self) -> MissingPodView {
        MissingPodView {
            role_group: self.role_group.deep_view(),
            node_name: self.node_name.deep_view(),
        }
    }
}

/// The pods that are missing on the nodes of a role group: one on each node that has a name.
pub open spec fn missing_in_group(role_group: Seq<char>, nodes: Seq<Option<Seq<char>>>) -> Seq<
    MissingPodView,
>
    decreases nodes.len(),
{
    if nodes.len() == 0 {
        Seq::empty()
    } else {
        match nodes.last() {
            Some(node_name) => missing_in_group(role_group, nodes.drop_last()).push(
                MissingPodView { role_group, node_name },
            ),
            None => missing_in_group(role_group, nodes.drop_last()),
        }
    }
}

/// The pods that are missing, role group by role group.
pub open spec fn missing_pods(groups: Seq<(Seq<char>, Seq<Option<Seq<char>>>)>) -> Seq<
    MissingPodView,
>
    decreases groups.len(),
{
    if groups.len() == 0 {
        Seq::empty()
    } else {
        missing_pods(groups.drop_last()) + missing_in_group(groups.last().0, groups.last().1)
    }
}

/// Appends the pods that are missing on the nodes of a role group.
fn add_missing_pods(pods: &mut Vec<MissingPod>, role_group: &str, nodes: &Vec<Option<String>>)
    ensures
        final(pods).deep_view() == old(pods).deep_view() + missing_in_group(
            role_group@,
            nodes.deep_view(),
        ),
{
    let ghost before = pods.deep_view();
    let ghost all = nodes.deep_view();
    let mut i: usize = 0;
    proof {
        assert(all.take(0) =~= Seq::empty());
        assert(before + missing_in_group(role_group@, all.take(0)) =~= before);
    }
    while i < nodes.len()
        invariant
            i <= nodes.len(),
            all == nodes.deep_view(),
            pods.deep_view() == before + missing_in_group(role_group@, all.take(i as int)),
        decreases nodes.len() - i,
    {
        proof {
            let next = all.take(i + 1);
            assert(next.drop_last() =~= all.take(i as int));
            assert(next.last() == nodes[i as int].deep_view());
        }
        if let Some(node_name) = &nodes[i] {
            add_item(
                pods,
                MissingPod { role_group: role_group.to_owned(), node_name: node_name.copied() },
            );
        }
        i = i + 1;
    }
    proof {
        assert(all.take(i as int) =~= all);
    }
}

/// The pods that have to be created, given the nodes of each role group that need one. Nodes without
/// a name are skipped.
pub fn create_missing_pods(groups: &Vec<(String, Vec<Option<String>>)>) -> (pods: Vec<MissingPod>)
    ensures
        pods.deep_view() == missing_pods(groups.deep_view()),
{
    let ghost all = groups.deep_view();
    let mut pods: Vec<MissingPod> = empty_list();
    let mut i: usize = 0;
    proof {
        assert(all.take(0) =~= Seq::empty());
    }
    while i < groups.len()
        invariant
            i <= groups.len(),
            all == groups.deep_view(),
            pods.deep_view() == missing_pods(all.take(i as int)),
        decreases groups.len() - i,
    {
        add_missing_pods(&mut pods, groups[i].0.as_str(), &groups[i].1);
        proof {
            let next = all.take(i + 1);
            assert(next.drop_last() =~= all.take(i as int));
            assert(next.last() == groups[i as int].deep_view());
        }
        i = i + 1;
    }
    proof {
        assert(all.take(i as int) =~= all);
    }
    pods
}

/// What the product configuration makes of a role group. It has to know every role group.
pub fn config_for_role_group<'a>(
    configs: &'a OrderedMap<ValidatedConfig>,
    role_group: &str,
) -> (result: Result<&'a ValidatedConfig, NifiError>)
    ensures
        match result {
            Ok(config) => configs@.dom().contains(role_group@) && config.deep_view()
                == configs@[role_group@],
            Err(error) => !configs@.dom().contains(role_group@)
                && error.deep_view() == (NifiErrorView::OperatorError {
                source: OperatorErrorView::MissingConfiguration,
            }),
        },
{
    match configs.get(role_group) {
        Some(config) => Ok(config),
        None => Err(
            NifiError::OperatorError { source: OperatorError::MissingConfiguration },
        ),
    }
}

/// Every named node of every role group gets a pod.
pub proof fn law_every_named_node_gets_a_pod(
    groups: Seq<(Seq<char>, Seq<Option<Seq<char>>>)>,
    i: int,
    j: int,
)
    requires
        0 <= i < groups.len(),
        0 <= j < groups[i].1.len(),
        groups[i].1[j].is_some(),
    ensures
        missing_pods(groups).contains(
            MissingPodView { role_group: groups[i].0, node_name: groups[i].1[j].unwrap() },
        ),
    decreases groups.len(),
{
    let pod = MissingPodView { role_group: groups[i].0, node_name: groups[i].1[j].unwrap() };
    let front = missing_pods(groups.drop_last());
    let back = missing_in_group(groups.last().0, groups.last().1);
    if i < groups.len() - 1 {
        law_every_named_node_gets_a_pod(groups.drop_last(), i, j);
        let k = choose|k: int| 0 <= k < front.len() && front[k] == pod;
        assert((front + back)[k] == pod);
    } else {
        lemma_missing_in_group(groups[i].0, groups[i].1, j);
        let k = choose|k: int| 0 <= k < back.len() && back[k] == pod;
        assert((front + back)[front.len() + k] == pod);
    }
}

/// Every named node of a role group gets a pod.
proof fn lemma_missing_in_group(role_group: Seq<char>, nodes: Seq<Option<Seq<char>>>, j: int)
    requires
        0 <= j < nodes.len(),
        nodes[j].is_some(),
    ensures
        missing_in_group(role_group, nodes).contains(
            MissingPodView { role_group, node_name: nodes[j].unwrap() },
        ),
    decreases nodes.len(),
{
    let pod = MissingPodView { role_group, node_name: nodes[j].unwrap() };
    let front = missing_in_group(role_group, nodes.drop_last());
    let all = missing_in_group(role_group, nodes);
    if j < nodes.len() - 1 {
        lemma_missing_in_group(role_group, nodes.drop_last(), j);
        let k = choose|k: int| 0 <= k < front.len() && front[k] == pod;
        assert(all[k] == pod);
    } else {
        assert(all[front.len() as int] == pod);
    }
}

/// A setting of `nifi.properties`, where there is one.
pub open spec fn nifi_property(config: ValidatedConfigView, key: Seq<char>) -> Option<Seq<char>> {
    if config.files.dom().contains(NIFI_PROPERTIES@)
        && config.files[NIFI_PROPERTIES@].dom().contains(key) {
        Some(config.files[NIFI_PROPERTIES@][key])
    } else {
        None
    }
}

/// The ports of a node.
pub open spec fn ports_of(config: ValidatedConfigView) -> NodePortsView {
    NodePortsView {
        http_port: nifi_property(config, NIFI_WEB_HTTP_PORT@),
        protocol_port: nifi_property(config, NIFI_CLUSTER_NODE_PROTOCOL_PORT@),
        load_balance_port: nifi_property(config, NIFI_CLUSTER_LOAD_BALANCE_PORT@),
    }
}

/// A setting of `nifi.properties`, where there is one.
fn get_nifi_property(config: &ValidatedConfig, key: &str) -> (value: Option<String>)
    ensures
        value.deep_view() == nifi_property(config.deep_view(), key@),
{
    match config.files.get(NIFI_PROPERTIES) {
        Some(properties) => match properties.get(key) {
            Some(value) => Some(value.copied()),
            None => None,
        },
        None => None,
    }
}

/// The ports of a node, from which also its `nifi.properties` is made.
pub fn node_ports(config: &ValidatedConfig) -> (ports: NodePorts)
    ensures
        ports.deep_view() == ports_of(config.deep_view()),
{
    NodePorts {
        http_port: get_nifi_property(config, NIFI_WEB_HTTP_PORT),
        protocol_port: get_nifi_property(config, NIFI_CLUSTER_NODE_PROTOCOL_PORT),
        load_balance_port: get_nifi_property(config, NIFI_CLUSTER_LOAD_BALANCE_PORT),
    }
}

/// The ports that the user sets are the ports of the pod, where the product configuration keeps
/// what the user sets.
pub proof fn law_configured_ports_are_opened(config: NifiConfig, validated: ValidatedConfigView)
    requires
        validated.files.dom().contains(NIFI_PROPERTIES@),
        forall|key: Seq<char>| #[trigger]
            config.file_settings().dom().contains(key)
                ==> validated.files[NIFI_PROPERTIES@].dom().contains(key) && Some(
                validated.files[NIFI_PROPERTIES@][key],
            ) == config.file_settings()[key],
    ensures
        config.http_port.is_some() ==> text::parsed_u16(ports_of(validated).http_port.unwrap())
            == config.http_port,
        config.protocol_port.is_some() ==> text::parsed_u16(
            ports_of(validated).protocol_port.unwrap(),
        ) == config.protocol_port,
        config.load_balance_port.is_some() ==> text::parsed_u16(
            ports_of(validated).load_balance_port.unwrap(),
        ) == config.load_balance_port,
{
    reveal_strlit("nifi.web.http.port");
    reveal_strlit("nifi.cluster.node.protocol.port");
    reveal_strlit("nifi.cluster.load.balance.port");
    let settings = config.file_settings();
    assert(NIFI_WEB_HTTP_PORT@.len() == 18);
    assert(NIFI_CLUSTER_NODE_PROTOCOL_PORT@.len() == 31);
    assert(NIFI_CLUSTER_LOAD_BALANCE_PORT@.len() == 30);
    if let Some(port) = config.http_port {
        text::law_number_round_trip(port);
        assert(settings.dom().contains(NIFI_WEB_HTTP_PORT@));
    }
    if let Some(port) = config.protocol_port {
        text::law_number_round_trip(port);
        assert(settings.dom().contains(NIFI_CLUSTER_NODE_PROTOCOL_PORT@));
    }
    if let Some(port) = config.load_balance_port {
        text::law_number_round_trip(port);
        assert(settings.dom().contains(NIFI_CLUSTER_LOAD_BALANCE_PORT@));
    }
}

/// The environment variables, without those that have no name and without the port for metrics.
pub open spec fn env_of(entries: Seq<(Seq<char>, Seq<char>)>) -> Seq<EnvVarView>
    decreases entries.len(),
{
    if entries.len() == 0 {
        Seq::empty()
    } else {
        let (name, value) = entries.last();
        if name.len() == 0 || name == NIFI_CLUSTER_METRICS_PORT@ {
            env_of(entries.drop_last())
        } else {
            env_of(entries.drop_last()).push(
                EnvVarView { name, source: EnvVarSourceView::Literal { value } },
            )
        }
    }
}

/// The environment variables of the product configuration.
pub open spec fn env_entries(config: ValidatedConfigView) -> Map<Seq<char>, Seq<char>> {
    match config.env {
        Some(env) => env,
        None => Map::empty(),
    }
}

/// The port for metrics, where the user sets one.
pub open spec fn metrics_port_of(config: ValidatedConfigView) -> Option<Seq<char>> {
    if env_entries(config).dom().contains(NIFI_CLUSTER_METRICS_PORT@) {
        Some(env_entries(config)[NIFI_CLUSTER_METRICS_PORT@])
    } else {
        None
    }
}

/// The environment variables of the container.
fn build_env(env: &StringMap) -> (env_vars: Vec<EnvVar>)
    ensures
        env_vars.deep_view() == env_of(ordered_map::ordered_entries(env@)),
{
    let ghost entries = ordered_map::ordered_entries(env@);
    let mut env_vars: Vec<EnvVar> = empty_list();
    let count: usize = env.len();
    let mut i: usize = 0;
    proof {
        assert(entries.take(0) =~= Seq::empty());
    }
    while i < count
        invariant
            i <= count,
            count == entries.len(),
            entries == ordered_map::ordered_entries(env@),
            env_vars.deep_view() == env_of(entries.take(i as int)),
        decreases count - i,
    {
        let (name, value) = env.entry(i);
        proof {
            let next = entries.take(i + 1);
            assert(next.drop_last() =~= entries.take(i as int));
            assert(next.last() == entries[i as int]);
        }
        if name.as_str().unicode_len() != 0 && !same_text(
            name.as_str(),
            NIFI_CLUSTER_METRICS_PORT,
        ) {
            add_item(
                &mut env_vars,
                EnvVar {
                    name: name.copied(),
                    source: EnvVarSource::Literal { value: value.copied() },
                },
            );
        }
        i = i + 1;
    }
    proof {
        assert(entries.take(i as int) =~= entries);
    }
    env_vars
}

/// The ports of a container with one more, or nothing where it is not a number.
pub open spec fn with_port(
    ports: Option<Seq<ContainerPortView>>,
    name: Seq<char>,
    port: Option<Seq<char>>,
) -> Option<Seq<ContainerPortView>> {
    match (ports, port) {
        (Some(ports), Some(port)) => match text::parsed_u16(port) {
            Some(number) => Some(
                ports.push(
                    ContainerPortView { name: Some(name), container_port: number as i32 },
                ),
            ),
            None => None,
        },
        _ => ports,
    }
}

/// The ports of the container, or nothing where one is not a number.
pub open spec fn container_ports(
    ports: NodePortsView,
    metrics_port: Option<Seq<char>>,
) -> Option<Seq<ContainerPortView>> {
    with_port(
        with_port(
            with_port(
                with_port(Some(Seq::empty()), HTTP_PORT_NAME@, ports.http_port),
                PROTOCOL_PORT_NAME@,
                ports.protocol_port,
            ),
            LOAD_BALANCE_PORT_NAME@,
            ports.load_balance_port,
        ),
        METRICS_PORT_NAME@,
        metrics_port,
    )
}

/// Appends a port, where there is one. Fails where it is not a number.
fn add_port(ports: &mut Vec<ContainerPort>, name: &str, port: &Option<String>) -> (ok: bool)
    ensures
        ok == with_port(Some(old(ports).deep_view()), name@, port.deep_view()).is_some(),
        ok ==> Some(final(ports).deep_view()) == with_port(
            Some(old(ports).deep_view()),
            name@,
            port.deep_view(),
        ),
{
    match port {
        Some(port) => match parse_u16(port.as_str()) {
            Some(number) => {
                add_item(
                    ports,
                    ContainerPort { name: Some(name.to_owned()), container_port: number as i32 },
                );
                true
            },
            None => false,
        },
        None => true,
    }
}

/// The ports of the container.
fn build_container_ports(ports: &NodePorts, metrics_port: &Option<String>) -> (result: Result<
    Vec<ContainerPort>,
    NifiError,
>)
    ensures
        match result {
            Ok(container_ports_) => container_ports(
                ports.deep_view(),
                metrics_port.deep_view(),
            ) == Some(container_ports_.deep_view()),
            Err(error) => container_ports(
                ports.deep_view(),
                metrics_port.deep_view(),
            ).is_none() && error.deep_view() == NifiErrorView::ParseError,
        },
{
    let mut all: Vec<ContainerPort> = empty_list();
    if !add_port(&mut all, HTTP_PORT_NAME, &ports.http_port) {
        return Err(NifiError::ParseError);
    }
    if !add_port(&mut all, PROTOCOL_PORT_NAME, &ports.protocol_port) {
        return Err(NifiError::ParseError);
    }
    if !add_port(&mut all, LOAD_BALANCE_PORT_NAME, &ports.load_balance_port) {
        return Err(NifiError::ParseError);
    }
    if !add_port(&mut all, METRICS_PORT_NAME, metrics_port) {
        return Err(NifiError::ParseError);
    }
    Ok(all)
}

/// A file that stands in the ConfigMap where the product configuration knows it.
pub open spec fn with_file(
    data: Map<Seq<char>, Seq<char>>,
    config: ValidatedConfigView,
    name: Seq<char>,
    file: Seq<char>,
) -> Map<Seq<char>, Seq<char>> {
    if config.files.dom().contains(name) {
        data.insert(name, file)
    } else {
        data
    }
}

/// The files of a node. Other files that the product configuration knows are left out.
pub open spec fn config_map_data(
    config: ValidatedConfigView,
    files: RenderedFilesView,
) -> Map<Seq<char>, Seq<char>> {
    with_file(
        with_file(
            with_file(Map::empty(), config, NIFI_BOOTSTRAP_CONF@, files.bootstrap_conf),
            config,
            NIFI_PROPERTIES@,
            files.nifi_properties,
        ),
        config,
        NIFI_STATE_MANAGEMENT_XML@,
        files.state_management_xml,
    )
}

/// Puts a file into the ConfigMap where the product configuration knows it.
fn add_file(data: &mut StringMap, config: &ValidatedConfig, name: &str, file: &str)
    ensures
        final(data)@ == with_file(old(data)@, config.deep_view(), name@, file@),
{
    if config.files.contains_key(name) {
        data.put(name, file);
    }
}

/// The cluster of a pod.
#[derive(Debug, PartialEq, Eq)]
pub struct PodContext {
    pub cluster_name: String,
    pub cluster_uid: Option<String>,
    /// Where the objects are created.
    pub namespace: String,
    pub spec: NifiSpec,
    /// The labels of the pod.
    pub labels: StringMap,
}

/// The contents of a [`PodContext`].
#[verifier::ext_equal]
pub struct PodContextView {
    pub cluster_name: Seq<char>,
    pub cluster_uid: Option<Seq<char>>,
    pub namespace: Seq<char>,
    pub spec: NifiSpecView,
    pub labels: Map<Seq<char>, Seq<char>>,
}

impl DeepView for PodContext {
    type V = PodContextView;

    open spec fn deep_view(&self) -> PodContextView {
        PodContextView {
            cluster_name: self.cluster_name.deep_view(),
            cluster_uid: self.cluster_uid.deep_view(),
            namespace: self.namespace.deep_view(),
            spec: self.spec.deep_view(),
            labels: self.labels.deep_view(),
        }
    }
}

/// The reference to the cluster that its objects carry.
pub open spec fn owner(context: PodContextView) -> OwnerReferenceView {
    OwnerReferenceView {
        api_version: "nifi.stackable.tech/v1alpha1"@,
        kind: "NifiCluster"@,
        name: context.cluster_name,
        uid: context.cluster_uid.unwrap(),
        block_owner_deletion: Some(true),
        controller: Some(true),
    }
}

/// The metadata of an object of the cluster.
pub open spec fn metadata_of(
    context: PodContextView,
    name: Seq<char>,
    labels: Map<Seq<char>, Seq<char>>,
    annotations: Map<Seq<char>, Seq<char>>,
) -> ObjectMetaView {
    ObjectMetaView {
        name: Some(name),
        namespace: Some(context.namespace),
        uid: None,
        labels,
        annotations,
        owner_references: seq![owner(context)],
    }
}

/// The container of a pod, with its ports.
pub open spec fn nifi_container(
    context: PodContextView,
    config: ValidatedConfigView,
    ports: Seq<ContainerPortView>,
) -> ContainerView {
    ContainerView {
        name: CONTAINER_NAME@,
        image: Some(CONTAINER_NAME@ + ":"@ + context.spec.version.text()),
        image_pull_policy: None,
        command: seq!["nifi-"@ + context.spec.version.text() + "/bin/nifi.sh run"@],
        args: Seq::empty(),
        env: env_of(ordered_map::ordered_entries(env_entries(config))),
        ports,
        volume_mounts: Seq::empty(),
        resources: None,
        liveness_probe: None,
        readiness_probe: None,
        startup_probe: None,
    }
}

/// The annotations of a pod: it is scraped where it offers metrics.
pub open spec fn pod_annotations(config: ValidatedConfigView) -> Map<Seq<char>, Seq<char>> {
    match metrics_port_of(config) {
        Some(_) => Map::empty().insert(SHOULD_BE_SCRAPED@, "true"@),
        None => Map::empty(),
    }
}

/// The pod on a node, with its ports.
pub open spec fn pod_on(
    context: PodContextView,
    pod_name: Seq<char>,
    node_name: Seq<char>,
    config: ValidatedConfigView,
    ports: Seq<ContainerPortView>,
) -> PodView {
    PodView {
        metadata: metadata_of(context, pod_name, context.labels, pod_annotations(config)),
        spec: Some(
            PodSpecView {
                node_name: Some(node_name),
                containers: seq![nifi_container(context, config, ports)],
                config_map_mounts: seq![
                    ConfigMapMountView {
                        config_map: pod_name + "-config"@,
                        mount_path: "{{packageroot}}/nifi-"@ + context.spec.version.text()
                            + "/conf"@,
                    },
                ],
                tolerates_stackable_agent: true,
            },
        ),
    }
}

/// The ConfigMap of a pod.
pub open spec fn config_map_of(
    context: PodContextView,
    pod_name: Seq<char>,
    config: ValidatedConfigView,
    files: RenderedFilesView,
) -> ConfigMapView {
    ConfigMapView {
        metadata: metadata_of(
            context,
            pod_name + "-config"@,
            Map::empty(),
            Map::empty(),
        ),
        data: config_map_data(config, files),
    }
}

/// The pod on a node and its ConfigMap, or why they cannot be built.
pub open spec fn pod_outcome(
    context: PodContextView,
    pod_name: Seq<char>,
    node_name: Seq<char>,
    config: ValidatedConfigView,
    files: RenderedFilesView,
) -> Result<(PodView, Seq<ConfigMapView>), NifiErrorView> {
    match container_ports(ports_of(config), metrics_port_of(config)) {
        None => Err(NifiErrorView::ParseError),
        Some(ports) => if context.cluster_uid.is_none() {
            Err(NifiErrorView::OperatorError { source: OperatorErrorView::MissingOwner })
        } else {
            Ok(
                (
                    pod_on(context, pod_name, node_name, config, ports),
                    seq![config_map_of(context, pod_name, config, files)],
                ),
            )
        },
    }
}

/// The metadata of an object of the cluster.
fn build_metadata(
    context: &PodContext,
    uid: &str,
    name: String,
    labels: StringMap,
    annotations: StringMap,
) -> (metadata: ObjectMeta)
    requires
        context.deep_view().cluster_uid == Some(uid@),
    ensures
        metadata.deep_view() == metadata_of(
            context.deep_view(),
            name@,
            labels@,
            annotations@,
        ),
{
    ObjectMeta {
        name: Some(name),
        namespace: Some(context.namespace.copied()),
        uid: None,
        labels,
        annotations,
        owner_references: list_of(
            OwnerReference {
                api_version: "nifi.stackable.tech/v1alpha1".to_owned(),
                kind: "NifiCluster".to_owned(),
                name: context.cluster_name.copied(),
                uid: uid.to_owned(),
                block_owner_deletion: Some(true),
                controller: Some(true),
            },
        ),
    }
}

/// The container of a pod, with its ports.
fn build_nifi_container(context: &PodContext, env: &StringMap, ports: Vec<ContainerPort>, Ghost(
    config,
): Ghost<ValidatedConfigView>) -> (container: Container)
    requires
        env@ == env_entries(config),
    ensures
        container.deep_view() == nifi_container(context.deep_view(), config, ports.deep_view()),
{
    Container {
        name: CONTAINER_NAME.to_owned(),
        image: Some(concat3(CONTAINER_NAME, ":", context.spec.version.as_str())),
        image_pull_policy: None,
        command: build_nifi_start_command(&context.spec),
        args: empty_list(),
        env: build_env(env),
        ports,
        volume_mounts: empty_list(),
        resources: None,
        liveness_probe: None,
        readiness_probe: None,
        startup_probe: None,
    }
}

/// Builds the pod on a node, under a given name, and its ConfigMap.
pub fn create_pod_and_config_maps(
    context: &PodContext,
    pod_name: &str,
    node_name: &str,
    validated_config: &ValidatedConfig,
    files: &RenderedFiles,
) -> (result: Result<(Pod, Vec<ConfigMap>), NifiError>)
    ensures
        match result {
            Ok((pod, config_maps)) => pod_outcome(
                context.deep_view(),
                pod_name@,
                node_name@,
                validated_config.deep_view(),
                files.deep_view(),
            ) == Ok::<(PodView, Seq<ConfigMapView>), NifiErrorView>(
                (pod.deep_view(), config_maps.deep_view()),
            ),
            Err(error) => pod_outcome(
                context.deep_view(),
                pod_name@,
                node_name@,
                validated_config.deep_view(),
                files.deep_view(),
            ) == Err::<(PodView, Seq<ConfigMapView>), NifiErrorView>(
                error.deep_view(),
            ),
        },
{
    let mut data: StringMap = OrderedMap::new();
    add_file(&mut data, validated_config, NIFI_BOOTSTRAP_CONF, files.bootstrap_conf.as_str());
    add_file(&mut data, validated_config, NIFI_PROPERTIES, files.nifi_properties.as_str());
    add_file(
        &mut data,
        validated_config,
        NIFI_STATE_MANAGEMENT_XML,
        files.state_management_xml.as_str(),
    );
    let env: StringMap = match &validated_config.env {
        Some(env) => env.copied(),
        None => OrderedMap::new(),
    };
    let metrics_port: Option<String> = match env.get(NIFI_CLUSTER_METRICS_PORT) {
        Some(port) => Some(port.copied()),
        None => None,
    };
    let ports = match build_container_ports(&node_ports(validated_config), &metrics_port) {
        Ok(ports) => ports,
        Err(error) => {
            return Err(error);
        },
    };
    let uid = match &context.cluster_uid {
        Some(uid) => uid,
        None => {
            return Err(NifiError::OperatorError { source: OperatorError::MissingOwner });
        },
    };
    let config_map_name = concat2(pod_name, "-config");
    let mut annotations: StringMap = OrderedMap::new();
    if metrics_port.is_some() {
        annotations.put(SHOULD_BE_SCRAPED, "true");
    }
    let container = build_nifi_container(
        context,
        &env,
        ports,
        Ghost(validated_config.deep_view()),
    );
    let config_map_mount = ConfigMapMount {
        config_map: config_map_name.copied(),
        mount_path: concat3("{{packageroot}}/nifi-", context.spec.version.as_str(), "/conf"),
    };
    let pod = Pod {
        metadata: build_metadata(
            context,
            uid.as_str(),
            pod_name.to_owned(),
            context.labels.copied(),
            annotations,
        ),
        spec: Some(
            PodSpec {
                node_name: Some(node_name.to_owned()),
                containers: list_of(container),
                config_map_mounts: list_of(config_map_mount),
                tolerates_stackable_agent: true,
            },
        ),
    };
    let config_map = ConfigMap {
        metadata: build_metadata(
            context,
            uid.as_str(),
            config_map_name,
            OrderedMap::new(),
            OrderedMap::new(),
        ),
        data,
    };
    Ok((pod, list_of(config_map)))
}

/// The name of the pod that a role group has on a node.
pub open spec fn node_pod_name(
    context: PodContextView,
    role: NifiRole,
    role_group: Seq<char>,
    node_name: Seq<char>,
) -> Seq<char> {
    pod_utils::pod_name(APP_NAME@, context.cluster_name, role.text(), role_group, node_name)
}

/// Builds the pod that a role group has on a node, and its ConfigMap, under their names.
pub fn create_node_pod_and_config_maps(
    context: &PodContext,
    role: &NifiRole,
    role_group: &str,
    node_name: &str,
    validated_config: &ValidatedConfig,
    files: &RenderedFiles,
) -> (result: Result<(Pod, Vec<ConfigMap>), NifiError>)
    ensures
        match result {
            Ok((pod, config_maps)) => pod_outcome(
                context.deep_view(),
                node_pod_name(context.deep_view(), *role, role_group@, node_name@),
                node_name@,
                validated_config.deep_view(),
                files.deep_view(),
            ) == Ok::<(PodView, Seq<ConfigMapView>), NifiErrorView>(
                (pod.deep_view(), config_maps.deep_view()),
            ),
            Err(error) => pod_outcome(
                context.deep_view(),
                node_pod_name(context.deep_view(), *role, role_group@, node_name@),
                node_name@,
                validated_config.deep_view(),
                files.deep_view(),
            ) == Err::<(PodView, Seq<ConfigMapView>), NifiErrorView>(
                error.deep_view(),
            ),
        },
{
    let pod_name = build_pod_name(
        APP_NAME,
        context.cluster_name.as_str(),
        role.as_str(),
        role_group,
        node_name,
    );
    create_pod_and_config_maps(context, pod_name.as_str(), node_name, validated_config, files)
}

/// The stages of a reconciliation.
#[derive(Clone, Copy, Debug, PartialEq, Eq, Structural)]
pub enum Stage {
    /// All pods are deleted where the cluster is.
    HandleDeletion,
    GetZookeeperConnectionInformation,
    /// Pods without the required labels are deleted.
    DeleteIllegalPods,
    WaitForTerminatingPods,
    WaitForRunningAndReadyPods,
    /// Pods on nodes that are not eligible are deleted.
    DeleteExcessPods,
    CreateMissingPods,
    ProcessMonitoring,
}

impl DeepView for Stage {
    type V = Stage;

    open spec fn deep_view(&self) -> Stage {
        *self
    }
}

impl Copied for Stage {
    fn copied(&self) -> (copy: Stage) {
        *self
    }
}

impl SameContents for Stage {
    fn same(&self, other: &Stage) -> (same: bool) {
        *self == *other
    }
}

/// The stage after one that lets the reconciliation continue.
pub open spec fn stage_after(stage: Stage) -> Option<Stage> {
    match stage {
        Stage::HandleDeletion => Some(Stage::GetZookeeperConnectionInformation),
        Stage::GetZookeeperConnectionInformation => Some(Stage::DeleteIllegalPods),
        Stage::DeleteIllegalPods => Some(Stage::WaitForTerminatingPods),
        Stage::WaitForTerminatingPods => Some(Stage::WaitForRunningAndReadyPods),
        Stage::WaitForRunningAndReadyPods => Some(Stage::DeleteExcessPods),
        Stage::DeleteExcessPods => Some(Stage::CreateMissingPods),
        Stage::CreateMissingPods => Some(Stage::ProcessMonitoring),
        Stage::ProcessMonitoring => None,
    }
}

/// The next stage, or nothing where the reconciliation is over.
pub fn next_stage(stage: Stage, outcome: ReconcileFunctionAction) -> (next: Option<Stage>)
    ensures
        next == (if outcome == ReconcileFunctionAction::Continue {
            stage_after(stage)
        } else {
            None
        }),
{
    match outcome {
        ReconcileFunctionAction::Continue => match stage {
            Stage::HandleDeletion => Some(Stage::GetZookeeperConnectionInformation),
            Stage::GetZookeeperConnectionInformation => Some(Stage::DeleteIllegalPods),
            Stage::DeleteIllegalPods => Some(Stage::WaitForTerminatingPods),
            Stage::WaitForTerminatingPods => Some(Stage::WaitForRunningAndReadyPods),
            Stage::WaitForRunningAndReadyPods => Some(Stage::DeleteExcessPods),
            Stage::DeleteExcessPods => Some(Stage::CreateMissingPods),
            Stage::CreateMissingPods => Some(Stage::ProcessMonitoring),
            Stage::ProcessMonitoring => None,
        },
        _ => None,
    }
}

/// How many stages are left, with the given one.
pub open spec fn stages_left(stage: Option<Stage>) -> int {
    match stage {
        Some(Stage::HandleDeletion) => 8,
        Some(Stage::GetZookeeperConnectionInformation) => 7,
        Some(Stage::DeleteIllegalPods) => 6,
        Some(Stage::WaitForTerminatingPods) => 5,
        Some(Stage::WaitForRunningAndReadyPods) => 4,
        Some(Stage::DeleteExcessPods) => 3,
        Some(Stage::CreateMissingPods) => 2,
        Some(Stage::ProcessMonitoring) => 1,
        None => 0,
    }
}

/// Every reconciliation ends, as each stage leaves fewer.
pub proof fn law_stages_end(stage: Stage)
    ensures
        stages_left(stage_after(stage)) == stages_left(Some(stage)) - 1,
{
}

} // verus!
