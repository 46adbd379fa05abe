//! The decisions of a reconciliation: which step comes next, how a change of the version is rolled
//! out, and when to try again.

use crate::contents::{Copied, SameContents};
use crate::controller::ValidatedCluster;
use crate::crd::{
    ClusterCondition, NifiCluster, NifiClusteringBackend, NifiClusteringBackendView, NifiStatus,
    NifiStatusView,
};
use crate::text::{has_prefix, same_text};
use vstd::prelude::*;

verus! {

/// After how many seconds a failed reconciliation is tried again.
pub const RETRY_SECONDS: u64 = 10;

/// What happens after a reconciliation.
#[derive(Clone, Copy, Debug, PartialEq, Eq, Structural)]
pub enum Action {
    /// Nothing, until an object changes.
    AwaitChange,
    /// It is tried again.
    Requeue { seconds: u64 },
}

/// Why a reconciliation fails.
#[derive(Clone, Copy, Debug, PartialEq, Eq, Structural)]
pub enum Error {
    /// The cluster is not a valid object.
    InvalidNifiCluster,
    /// What the cluster refers to cannot be fetched.
    Dereference,
    /// The cluster is not valid.
    ValidateCluster,
    /// The objects cannot be built.
    BuildResources,
    /// The objects cannot be applied.
    ApplyResources,
    /// The status cannot be updated.
    UpdateStatus,
}

impl DeepView for Error {
    type V = Error;

    open spec fn deep_view(&self) -> Error {
        *self
    }
}

impl Copied for Error {
    fn copied(&self) -> (copy: Error) {
        *self
    }
}

impl SameContents for Error {
    fn same(&self, other: &Error) -> (same: bool) {
        *self == *other
    }
}

impl Error {
    /// The text that stands for the value.
    pub open spec fn text(self) -> Seq<char> {
        match self {
            Error::InvalidNifiCluster => "InvalidNifiCluster"@,
            Error::Dereference => "Dereference"@,
            Error::ValidateCluster => "ValidateCluster"@,
            Error::BuildResources => "BuildResources"@,
            Error::ApplyResources => "ApplyResources"@,
            Error::UpdateStatus => "UpdateStatus"@,
        }
    }

    /// The text that stands for the value.
    pub fn as_str(&self) -> (text: &'static str)
        ensures
            text@ == self.text(),
    {
        match self {
            Error::InvalidNifiCluster => "InvalidNifiCluster",
            Error::Dereference => "Dereference",
            Error::ValidateCluster => "ValidateCluster",
            Error::BuildResources => "BuildResources",
            Error::ApplyResources => "ApplyResources",
            Error::UpdateStatus => "UpdateStatus",
        }
    }
}

/// The steps of a reconciliation.
#[derive(Clone, Copy, Debug, PartialEq, Eq, Structural)]
pub enum Step {
    /// The cluster was read.
    Start,
    Dereference,
    Validate,
    Build,
    Apply,
    UpdateStatus,
    Finished,
}

impl DeepView for Step {
    type V = Step;

    open spec fn deep_view(&self) -> Step {
        *self
    }
}

impl Copied for Step {
    fn copied(&self) -> (copy: Step) {
        *self
    }
}

impl SameContents for Step {
    fn same(&self, other: &Step) -> (same: bool) {
        *self == *other
    }
}

/// How many steps are left.
pub open spec fn steps_left(step: Step) -> int {
    match step {
        Step::Start => 6,
        Step::Dereference => 5,
        Step::Validate => 4,
        Step::Build => 3,
        Step::Apply => 2,
        Step::UpdateStatus => 1,
        Step::Finished => 0,
    }
}

/// The step after one that succeeded.
pub open spec fn step_after(step: Step) -> Step {
    match step {
        Step::Start => Step::Dereference,
        Step::Dereference => Step::Validate,
        Step::Validate => Step::Build,
        Step::Build => Step::Apply,
        Step::Apply => Step::UpdateStatus,
        Step::UpdateStatus => Step::Finished,
        Step::Finished => Step::Finished,
    }
}

/// The error of a step that failed.
pub open spec fn error_of(step: Step) -> Error {
    match step {
        Step::Start => Error::InvalidNifiCluster,
        Step::Dereference => Error::Dereference,
        Step::Validate => Error::ValidateCluster,
        Step::Build => Error::BuildResources,
        Step::Apply => Error::ApplyResources,
        Step::UpdateStatus => Error::UpdateStatus,
        Step::Finished => Error::UpdateStatus,
    }
}

/// The next step, or the error with which the reconciliation ends.
pub fn next_step(step: Step, succeeded: bool) -> (result: Result<Step, Error>)
    requires
        step != Step::Finished,
    ensures
        result == (if succeeded {
            Ok::<Step, Error>(step_after(step))
        } else {
            Err::<Step, Error>(error_of(step))
        }),
{
    match step {
        Step::Start => if succeeded {
            Ok(Step::Dereference)
        } else {
            Err(Error::InvalidNifiCluster)
        },
        Step::Dereference => if succeeded {
            Ok(Step::Validate)
        } else {
            Err(Error::Dereference)
        },
        Step::Validate => if succeeded {
            Ok(Step::Build)
        } else {
            Err(Error::ValidateCluster)
        },
        Step::Build => if succeeded {
            Ok(Step::Apply)
        } else {
            Err(Error::BuildResources)
        },
        Step::Apply => if succeeded {
            Ok(Step::UpdateStatus)
        } else {
            Err(Error::ApplyResources)
        },
        Step::UpdateStatus => if succeeded {
            Ok(Step::Finished)
        } else {
            Err(Error::UpdateStatus)
        },
        Step::Finished => Ok(Step::Finished),
    }
}

/// What happens after a failed reconciliation. One of an invalid object is not tried again: it has
/// to be changed first.
pub fn error_policy(error: &Error) -> (action: Action)
    ensures
        action == (if *error == Error::InvalidNifiCluster {
            Action::AwaitChange
        } else {
            Action::Requeue { seconds: RETRY_SECONDS }
        }),
{
    match error {
        Error::InvalidNifiCluster => Action::AwaitChange,
        _ => Action::Requeue { seconds: RETRY_SECONDS },
    }
}

/// Every successful step brings the end of the reconciliation closer.
pub proof fn law_reconciliation_ends(step: Step)
    requires
        step != Step::Finished,
    ensures
        steps_left(step_after(step)) == steps_left(step) - 1,
        steps_left(step_after(step)) == 0 <==> step_after(step) == Step::Finished,
{
}

/// How far a change of the version has come.
#[derive(Clone, Copy, Debug, PartialEq, Eq, Structural)]
pub enum ClusterVersionUpdateState {
    /// Another version is requested, and nodes still run.
    UpdateRequested,
    /// The nodes are being stopped.
    UpdateInProgress,
    /// The version does not change, or all nodes are stopped.
    NoVersionChange,
}

impl DeepView for ClusterVersionUpdateState {
    type V = ClusterVersionUpdateState;

    open spec fn deep_view(&self) -> ClusterVersionUpdateState {
        *self
    }
}

impl Copied for ClusterVersionUpdateState {
    fn copied(&self) -> (copy: ClusterVersionUpdateState) {
        *self
    }
}

impl SameContents for ClusterVersionUpdateState {
    fn same(&self, other: &ClusterVersionUpdateState) -> (same: bool) {
        *self == *other
    }
}

/// What a reconciliation does about the version.
#[derive(Debug, PartialEq, Eq)]
pub enum UpdatePlan {
    /// The nodes have to stop first.
    Wait,
    /// The objects are built. Where an update rolls, nodes are restarted one by one.
    Proceed {
        state: ClusterVersionUpdateState,
        rolling: bool,
    },
}

/// The contents of a [`UpdatePlan`].
#[verifier::ext_equal]
pub enum UpdatePlanView {
    Wait,
    Proceed { state: ClusterVersionUpdateState, rolling: bool },
}

impl DeepView for UpdatePlan {
    type V = UpdatePlanView;

    open spec fn deep_view(&self) -> UpdatePlanView {
        match self {
            UpdatePlan::Wait => UpdatePlanView::Wait,
            UpdatePlan::Proceed { state, rolling } => UpdatePlanView::Proceed {
                state: state.deep_view(),
                rolling: rolling.deep_view(),
            },
        }
    }
}

/// Whether a version is a 2.x version.
pub open spec fn is_nifi_2(version: Seq<char>) -> bool {
    "2."@.is_prefix_of(version)
}

/// Whether nodes of the two versions can run side by side.
pub open spec fn rolling_supported(version: Seq<char>, deployed: Option<Seq<char>>) -> bool {
    is_nifi_2(version) && match deployed {
        Some(deployed) => is_nifi_2(deployed),
        None => false,
    }
}

/// What a reconciliation does about the version.
pub open spec fn update_plan(
    version: Seq<char>,
    deployed: Option<Seq<char>>,
    state: ClusterVersionUpdateState,
) -> UpdatePlanView {
    if rolling_supported(version, deployed) {
        UpdatePlanView::Proceed {
            state: ClusterVersionUpdateState::NoVersionChange,
            rolling: true,
        }
    } else if state == ClusterVersionUpdateState::UpdateInProgress {
        UpdatePlanView::Wait
    } else {
        UpdatePlanView::Proceed { state, rolling: false }
    }
}

/// The number of nodes of a role group: none while another version is requested.
pub open spec fn replicas_of(
    state: ClusterVersionUpdateState,
    replicas: Option<u16>,
) -> Option<i32> {
    if state == ClusterVersionUpdateState::UpdateRequested {
        Some(0)
    } else {
        match replicas {
            Some(replicas) => Some(replicas as i32),
            None => None,
        }
    }
}

/// The version that the status reports: the one before while another one is requested.
pub open spec fn reported_version(
    state: ClusterVersionUpdateState,
    version: Seq<char>,
    status: Option<NifiStatusView>,
) -> Option<Seq<char>> {
    if state == ClusterVersionUpdateState::UpdateRequested {
        match status {
            Some(status) => status.deployed_version,
            None => None,
        }
    } else {
        Some(version)
    }
}

/// Whether nodes of the two versions can run side by side. Then Kubernetes replaces them one by
/// one; otherwise the operator stops them all first.
pub fn rolling_upgrade_supported(
    product_version: &str,
    deployed_version: &Option<String>,
) -> (supported: bool)
    ensures
        supported == rolling_supported(product_version@, deployed_version.deep_view()),
{
    has_prefix(product_version, "2.") && match deployed_version {
        Some(deployed) => has_prefix(deployed.as_str(), "2."),
        None => false,
    }
}

/// What a reconciliation does about the version. The state of the update counts only where nodes
/// of the two versions cannot run side by side.
pub fn plan_update(
    product_version: &str,
    deployed_version: &Option<String>,
    state: ClusterVersionUpdateState,
) -> (plan: UpdatePlan)
    ensures
        plan.deep_view() == update_plan(product_version@, deployed_version.deep_view(), state),
{
    if rolling_upgrade_supported(product_version, deployed_version) {
        return UpdatePlan::Proceed {
            state: ClusterVersionUpdateState::NoVersionChange,
            rolling: true,
        };
    }
    match state {
        ClusterVersionUpdateState::UpdateInProgress => UpdatePlan::Wait,
        _ => UpdatePlan::Proceed { state, rolling: false },
    }
}

/// The number of nodes of a role group.
pub fn effective_replicas(state: ClusterVersionUpdateState, replicas: Option<u16>) -> (effective:
    Option<i32>)
    ensures
        effective == replicas_of(state, replicas),
{
    match state {
        ClusterVersionUpdateState::UpdateRequested => Some(0),
        _ => match replicas {
            Some(replicas) => Some(replicas as i32),
            None => None,
        },
    }
}

/// The version that the status reports.
pub fn version_to_report(
    state: ClusterVersionUpdateState,
    product_version: &str,
    status: &Option<NifiStatus>,
) -> (version: Option<String>)
    ensures
        version.deep_view() == reported_version(state, product_version@, status.deep_view()),
{
    match state {
        ClusterVersionUpdateState::UpdateRequested => match status {
            Some(status) => status.deployed_version.copied(),
            None => None,
        },
        _ => Some(product_version.to_owned()),
    }
}

/// The status once all objects are applied.
pub fn status_after(
    state: ClusterVersionUpdateState,
    product_version: &str,
    status: &Option<NifiStatus>,
    conditions: Vec<ClusterCondition>,
) -> (next: NifiStatus)
    ensures
        next.deep_view() == (NifiStatusView {
            deployed_version: reported_version(state, product_version@, status.deep_view()),
            conditions: conditions.deep_view(),
        }),
{
    let deployed_version = version_to_report(state, product_version, status);
    NifiStatus { deployed_version, conditions }
}

/// The status of a validated cluster once all objects are applied.
pub fn applied_status(cluster: &ValidatedCluster, conditions: Vec<ClusterCondition>) -> (status:
    NifiStatus)
    ensures
        status.deep_view() == (NifiStatusView {
            deployed_version: Some(cluster.deep_view().deployed_product_version),
            conditions: conditions.deep_view(),
        }),
{
    NifiStatus { deployed_version: Some(cluster.deployed_product_version.copied()), conditions }
}

/// Whether a Service for metrics is needed: newer versions offer them at the user interface.
pub fn needs_metrics_service(product_version: &str) -> (needed: bool)
    ensures
        needed == "1."@.is_prefix_of(product_version@),
{
    has_prefix(product_version, "1.")
}

/// Whether a cluster has to be reconciled when a ConfigMap changes: it finds ZooKeeper by it. One
/// that cannot be read refers to none.
pub fn references_config_map(nifi: &Option<NifiCluster>, config_map: &str) -> (references: bool)
    ensures
        references == match nifi.deep_view() {
            Some(nifi) => match nifi.spec.cluster_config.clustering_backend {
                NifiClusteringBackendView::ZooKeeper { zookeeper_config_map_name } =>
                    zookeeper_config_map_name == config_map@,
                NifiClusteringBackendView::Kubernetes => false,
            },
            None => false,
        },
{
    match nifi {
        Some(nifi) => match &nifi.spec.cluster_config.clustering_backend {
            NifiClusteringBackend::ZooKeeper { zookeeper_config_map_name } => same_text(
                zookeeper_config_map_name.as_str(),
                config_map,
            ),
            NifiClusteringBackend::Kubernetes => false,
        },
        None => false,
    }
}

/// Nodes of different versions never run side by side unless both are 2.x: where the operator asks
/// for nodes of a version, either the update rolls, or no other version is requested.
pub proof fn law_versions_do_not_mix(
    version: Seq<char>,
    deployed: Option<Seq<char>>,
    requested: ClusterVersionUpdateState,
    replicas: Option<u16>,
)
    ensures
        match update_plan(version, deployed, requested) {
            UpdatePlanView::Wait => !rolling_supported(version, deployed),
            UpdatePlanView::Proceed { state, rolling } => {
                &&& rolling == rolling_supported(version, deployed)
                &&& state != ClusterVersionUpdateState::UpdateInProgress
                &&& !rolling && requested == ClusterVersionUpdateState::UpdateRequested
                    ==> replicas_of(state, replicas) == Some(0i32)
            },
        },
{
}

} // verus!
