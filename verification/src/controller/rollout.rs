//! The course of a reconciliation that stops and restarts clusters around updates: which object is
//! applied next, and with which error it ends.

use crate::contents::Copied;
use crate::controller::reconcile;
use crate::controller::reconcile::{
    effective_replicas, plan_update, version_to_report, ClusterVersionUpdateState, UpdatePlan,
};
use crate::crd::{NifiStatus, NifiStatusView};
use crate::text::has_prefix;
use vstd::prelude::*;

verus! {

/// A role group of a cluster.
#[derive(Debug, PartialEq, Eq)]
pub struct RolloutGroup {
    pub name: String,
    /// How many nodes the user wants.
    pub replicas: Option<u16>,
}

/// The contents of a [`RolloutGroup`].
#[verifier::ext_equal]
pub struct RolloutGroupView {
    pub name: Seq<char>,
    pub replicas: Option<u16>,
}

impl DeepView for RolloutGroup {
    type V = RolloutGroupView;

    open spec fn deep_view(&self) -> RolloutGroupView {
        RolloutGroupView { name: self.name.deep_view(), replicas: self.replicas }
    }
}

/// What is known of a cluster.
#[derive(Debug, PartialEq, Eq)]
pub struct RolloutFacts {
    /// The requested version.
    pub product_version: String,
    /// The status that the last reconciliation left.
    pub status: Option<NifiStatus>,
    /// Whether the cluster has nodes.
    pub nodes_defined: bool,
    /// The role groups, in the order in which they are handled.
    pub role_groups: Vec<RolloutGroup>,
    /// Whether the user wants the job that creates the reporting task.
    pub reporting_task_enabled: bool,
}

/// The contents of a [`RolloutFacts`].
#[verifier::ext_equal]
pub struct RolloutFactsView {
    pub product_version: Seq<char>,
    pub status: Option<NifiStatusView>,
    pub nodes_defined: bool,
    pub role_groups: Seq<RolloutGroupView>,
    pub reporting_task_enabled: bool,
}

impl DeepView for RolloutFacts {
    type V = RolloutFactsView;

    open spec fn deep_view(&self) -> RolloutFactsView {
        RolloutFactsView {
            product_version: self.product_version.deep_view(),
            status: self.status.deep_view(),
            nodes_defined: self.nodes_defined.deep_view(),
            role_groups: self.role_groups.deep_view(),
            reporting_task_enabled: self.reporting_task_enabled.deep_view(),
        }
    }
}

/// What the operator does next.
#[derive(Debug, PartialEq, Eq)]
pub enum RolloutStep {
    /// The definition of the cluster is read.
    ReadCluster,
    /// The Secret with the key of the sensitive properties is checked, and generated if need be.
    CheckSensitiveKey,
    /// The nodes that run decide how far an update has come.
    AskUpdateState,
    LoadProductConfig,
    CreateClusterResources,
    /// The authentication class is fetched and resolved.
    ResolveAuthentication,
    /// What was resolved has to be supported.
    CheckAuthentication,
    /// The Secret with the password of the single user is checked, and generated if need be.
    CheckAdminPassword,
    FindRequiredLabels,
    BuildRbacResources,
    ApplyServiceAccount,
    ApplyRoleBinding,
    /// The objects of a role group are built.
    BuildRoleGroup {
        at: usize,
        /// The number of nodes.
        replicas: Option<i32>,
        /// Whether nodes are replaced one by one.
        rolling: bool,
    },
    ApplyMetricsService {
        at: usize,
    },
    ApplyHeadlessService {
        at: usize,
    },
    ApplyConfigMap {
        at: usize,
    },
    ApplyStatefulSet {
        at: usize,
        /// The number of nodes.
        replicas: Option<i32>,
    },
    ApplyDisruptionBudget,
    BuildListener,
    ApplyListener,
    BuildReportingTask,
    ApplyReportingTaskService,
    ApplyReportingTaskJob,
    /// Objects of earlier reconciliations that are not needed any more are deleted.
    DeleteOrphans,
    UpdateStatus {
        /// The version that the status reports from then on.
        deployed_version: Option<String>,
    },
    /// Nothing is done until an object changes.
    AwaitChange,
}

/// The contents of a [`RolloutStep`].
#[verifier::ext_equal]
pub enum RolloutStepView {
    ReadCluster,
    CheckSensitiveKey,
    AskUpdateState,
    LoadProductConfig,
    CreateClusterResources,
    ResolveAuthentication,
    CheckAuthentication,
    CheckAdminPassword,
    FindRequiredLabels,
    BuildRbacResources,
    ApplyServiceAccount,
    ApplyRoleBinding,
    BuildRoleGroup { at: usize, replicas: Option<i32>, rolling: bool },
    ApplyMetricsService { at: usize },
    ApplyHeadlessService { at: usize },
    ApplyConfigMap { at: usize },
    ApplyStatefulSet { at: usize, replicas: Option<i32> },
    ApplyDisruptionBudget,
    BuildListener,
    ApplyListener,
    BuildReportingTask,
    ApplyReportingTaskService,
    ApplyReportingTaskJob,
    DeleteOrphans,
    UpdateStatus { deployed_version: Option<Seq<char>> },
    AwaitChange,
}

impl DeepView for RolloutStep {
    type V = RolloutStepView;

    open spec fn deep_view(&self) -> RolloutStepView {
        match self {
            RolloutStep::ReadCluster => RolloutStepView::ReadCluster,
            RolloutStep::CheckSensitiveKey => RolloutStepView::CheckSensitiveKey,
            RolloutStep::AskUpdateState => RolloutStepView::AskUpdateState,
            RolloutStep::LoadProductConfig => RolloutStepView::LoadProductConfig,
            RolloutStep::CreateClusterResources => RolloutStepView::CreateClusterResources,
            RolloutStep::ResolveAuthentication => RolloutStepView::ResolveAuthentication,
            RolloutStep::CheckAuthentication => RolloutStepView::CheckAuthentication,
            RolloutStep::CheckAdminPassword => RolloutStepView::CheckAdminPassword,
            RolloutStep::FindRequiredLabels => RolloutStepView::FindRequiredLabels,
            RolloutStep::BuildRbacResources => RolloutStepView::BuildRbacResources,
            RolloutStep::ApplyServiceAccount => RolloutStepView::ApplyServiceAccount,
            RolloutStep::ApplyRoleBinding => RolloutStepView::ApplyRoleBinding,
            RolloutStep::BuildRoleGroup { at, replicas, rolling } =>
                RolloutStepView::BuildRoleGroup {
                    at: *at,
                    replicas: *replicas,
                    rolling: *rolling,
                },
            RolloutStep::ApplyMetricsService { at } => RolloutStepView::ApplyMetricsService {
                at: *at,
            },
            RolloutStep::ApplyHeadlessService { at } => RolloutStepView::ApplyHeadlessService {
                at: *at,
            },
            RolloutStep::ApplyConfigMap { at } => RolloutStepView::ApplyConfigMap {
                at: *at,
            },
            RolloutStep::ApplyStatefulSet { at, replicas } => RolloutStepView::ApplyStatefulSet {
                at: *at,
                replicas: *replicas,
            },
            RolloutStep::ApplyDisruptionBudget => RolloutStepView::ApplyDisruptionBudget,
            RolloutStep::BuildListener => RolloutStepView::BuildListener,
            RolloutStep::ApplyListener => RolloutStepView::ApplyListener,
            RolloutStep::BuildReportingTask => RolloutStepView::BuildReportingTask,
            RolloutStep::ApplyReportingTaskService => RolloutStepView::ApplyReportingTaskService,
            RolloutStep::ApplyReportingTaskJob => RolloutStepView::ApplyReportingTaskJob,
            RolloutStep::DeleteOrphans => RolloutStepView::DeleteOrphans,
            RolloutStep::UpdateStatus { deployed_version } => RolloutStepView::UpdateStatus {
                deployed_version: deployed_version.deep_view(),
            },
            RolloutStep::AwaitChange => RolloutStepView::AwaitChange,
        }
    }
}

/// Why a reconciliation ends early.
#[derive(Clone, Copy, Debug, PartialEq, Eq, Structural)]
pub enum RolloutError {
    InvalidNifiCluster,
    Security,
    ClusterVersionUpdateState,
    NoNodesDefined,
    ProductConfigLoadFailed,
    CreateClusterResources,
    FailedResolveNifiAuthenticationConfig,
    InvalidNifiAuthenticationConfig,
    GetRequiredLabels,
    BuildRbacResources,
    ApplyServiceAccount,
    ApplyRoleBinding,
    /// The objects of a role group cannot be built. The functions that build them say why.
    BuildRoleGroup { at: usize },
    ApplyRoleGroupService { at: usize },
    ApplyRoleGroupConfig { at: usize },
    ApplyRoleGroupStatefulSet { at: usize },
    FailedToCreatePdb,
    ListenerConfiguration,
    ApplyGroupListener,
    ReportingTask,
    ApplyCreateReportingTaskService,
    ApplyCreateReportingTaskJob,
    DeleteOrphanedResources,
    StatusUpdate,
}

/// Where a reconciliation stands.
#[derive(Debug, PartialEq, Eq)]
pub struct RolloutState {
    pub step: RolloutStep,
    /// How far an update has come.
    pub update: ClusterVersionUpdateState,
}

/// The contents of a [`RolloutState`].
#[verifier::ext_equal]
pub struct RolloutStateView {
    pub step: RolloutStepView,
    pub update: ClusterVersionUpdateState,
}

impl DeepView for RolloutState {
    type V = RolloutStateView;

    open spec fn deep_view(&self) -> RolloutStateView {
        RolloutStateView { step: self.step.deep_view(), update: self.update }
    }
}

/// How a step went.
#[derive(Clone, Copy, Debug, PartialEq, Eq, Structural)]
pub struct RolloutReply {
    pub succeeded: bool,
    /// How far an update has come. It counts only where it was asked for.
    pub update_state: ClusterVersionUpdateState,
    /// Whether users are authenticated by OpenID Connect. It counts only where authentication was
    /// checked.
    pub uses_oidc: bool,
}

impl RolloutFactsView {
    /// The version that the last reconciliation left.
    pub open spec fn deployed_version(self) -> Option<Seq<char>> {
        match self.status {
            Some(status) => status.deployed_version,
            None => None,
        }
    }

    /// Whether nodes are replaced one by one.
    pub open spec fn rolling(self) -> bool {
        reconcile::rolling_supported(self.product_version, self.deployed_version())
    }

    /// The number of nodes of a role group: those that the user wants, or none while another
    /// version is requested.
    pub open spec fn replicas(self, at: int, update: ClusterVersionUpdateState) -> Option<i32> {
        reconcile::replicas_of(update, self.role_groups[at].replicas)
    }

    /// The version that the status reports in the end: the requested one, or the one before while
    /// another one is requested.
    pub open spec fn version_in_the_end(self, update: ClusterVersionUpdateState) -> Option<
        Seq<char>,
    > {
        reconcile::reported_version(update, self.product_version, self.status)
    }
}

impl RolloutFacts {
    /// The version that the last reconciliation left.
    fn deployed(&self) -> (version: Option<String>)
        ensures
            version.deep_view() == self.deep_view().deployed_version(),
    {
        match &self.status {
            Some(status) => status.deployed_version.copied(),
            None => None,
        }
    }
}

/// Whether a version is a 1.x version.
pub open spec fn is_nifi_1(version: Seq<char>) -> bool {
    "1."@.is_prefix_of(version)
}

impl RolloutStepView {
    /// Whether a step on a role group speaks of one that there is.
    pub open spec fn fits(self, facts: RolloutFactsView) -> bool {
        match self {
            RolloutStepView::BuildRoleGroup { at, .. } => at < facts.role_groups.len(),
            RolloutStepView::ApplyMetricsService { at } => at < facts.role_groups.len(),
            RolloutStepView::ApplyHeadlessService { at } => at < facts.role_groups.len(),
            RolloutStepView::ApplyConfigMap { at } => at < facts.role_groups.len(),
            RolloutStepView::ApplyStatefulSet { at, .. } => at < facts.role_groups.len(),
            _ => true,
        }
    }

    /// The error of a step that failed.
    pub open spec fn error(self) -> RolloutError {
        match self {
            RolloutStepView::ReadCluster => RolloutError::InvalidNifiCluster,
            RolloutStepView::CheckSensitiveKey => RolloutError::Security,
            RolloutStepView::AskUpdateState => RolloutError::ClusterVersionUpdateState,
            RolloutStepView::LoadProductConfig => RolloutError::ProductConfigLoadFailed,
            RolloutStepView::CreateClusterResources => RolloutError::CreateClusterResources,
            RolloutStepView::ResolveAuthentication =>
                RolloutError::FailedResolveNifiAuthenticationConfig,
            RolloutStepView::CheckAuthentication => RolloutError::InvalidNifiAuthenticationConfig,
            RolloutStepView::CheckAdminPassword => RolloutError::Security,
            RolloutStepView::FindRequiredLabels => RolloutError::GetRequiredLabels,
            RolloutStepView::BuildRbacResources => RolloutError::BuildRbacResources,
            RolloutStepView::ApplyServiceAccount => RolloutError::ApplyServiceAccount,
            RolloutStepView::ApplyRoleBinding => RolloutError::ApplyRoleBinding,
            RolloutStepView::BuildRoleGroup { at, .. } => RolloutError::BuildRoleGroup { at },
            RolloutStepView::ApplyMetricsService { at } => RolloutError::ApplyRoleGroupService { at },
            RolloutStepView::ApplyHeadlessService { at } => RolloutError::ApplyRoleGroupService { at },
            RolloutStepView::ApplyConfigMap { at } => RolloutError::ApplyRoleGroupConfig { at },
            RolloutStepView::ApplyStatefulSet { at, .. } => RolloutError::ApplyRoleGroupStatefulSet { at },
            RolloutStepView::ApplyDisruptionBudget => RolloutError::FailedToCreatePdb,
            RolloutStepView::BuildListener => RolloutError::ListenerConfiguration,
            RolloutStepView::ApplyListener => RolloutError::ApplyGroupListener,
            RolloutStepView::BuildReportingTask => RolloutError::ReportingTask,
            RolloutStepView::ApplyReportingTaskService =>
                RolloutError::ApplyCreateReportingTaskService,
            RolloutStepView::ApplyReportingTaskJob => RolloutError::ApplyCreateReportingTaskJob,
            RolloutStepView::DeleteOrphans => RolloutError::DeleteOrphanedResources,
            RolloutStepView::UpdateStatus { .. } => RolloutError::StatusUpdate,
            RolloutStepView::AwaitChange => RolloutError::StatusUpdate,
        }
    }
}

impl RolloutStep {
    /// The error of a step that failed.
    fn error_of(&self) -> (error: RolloutError)
        ensures
            error == self.deep_view().error(),
    {
        match self {
            RolloutStep::ReadCluster => RolloutError::InvalidNifiCluster,
            RolloutStep::CheckSensitiveKey => RolloutError::Security,
            RolloutStep::AskUpdateState => RolloutError::ClusterVersionUpdateState,
            RolloutStep::LoadProductConfig => RolloutError::ProductConfigLoadFailed,
            RolloutStep::CreateClusterResources => RolloutError::CreateClusterResources,
            RolloutStep::ResolveAuthentication =>
                RolloutError::FailedResolveNifiAuthenticationConfig,
            RolloutStep::CheckAuthentication => RolloutError::InvalidNifiAuthenticationConfig,
            RolloutStep::CheckAdminPassword => RolloutError::Security,
            RolloutStep::FindRequiredLabels => RolloutError::GetRequiredLabels,
            RolloutStep::BuildRbacResources => RolloutError::BuildRbacResources,
            RolloutStep::ApplyServiceAccount => RolloutError::ApplyServiceAccount,
            RolloutStep::ApplyRoleBinding => RolloutError::ApplyRoleBinding,
            RolloutStep::BuildRoleGroup { at, .. } => RolloutError::BuildRoleGroup { at: *at },
            RolloutStep::ApplyMetricsService { at } => RolloutError::ApplyRoleGroupService { at: *at },
            RolloutStep::ApplyHeadlessService { at } => RolloutError::ApplyRoleGroupService { at: *at },
            RolloutStep::ApplyConfigMap { at } => RolloutError::ApplyRoleGroupConfig { at: *at },
            RolloutStep::ApplyStatefulSet { at, .. } => RolloutError::ApplyRoleGroupStatefulSet { at: *at },
            RolloutStep::ApplyDisruptionBudget => RolloutError::FailedToCreatePdb,
            RolloutStep::BuildListener => RolloutError::ListenerConfiguration,
            RolloutStep::ApplyListener => RolloutError::ApplyGroupListener,
            RolloutStep::BuildReportingTask => RolloutError::ReportingTask,
            RolloutStep::ApplyReportingTaskService =>
                RolloutError::ApplyCreateReportingTaskService,
            RolloutStep::ApplyReportingTaskJob => RolloutError::ApplyCreateReportingTaskJob,
            RolloutStep::DeleteOrphans => RolloutError::DeleteOrphanedResources,
            RolloutStep::UpdateStatus { .. } => RolloutError::StatusUpdate,
            RolloutStep::AwaitChange => RolloutError::StatusUpdate,
        }
    }
}

/// Going on with a step, the update as it stands.
pub open spec fn at_step(step: RolloutStepView, update: ClusterVersionUpdateState) -> Result<
    RolloutStateView,
    RolloutError,
> {
    Ok(RolloutStateView { step, update })
}

/// The first step on a role group, or what follows the last one.
pub open spec fn role_group_step(
    facts: RolloutFactsView,
    at: int,
    update: ClusterVersionUpdateState,
) -> RolloutStepView {
    if at < facts.role_groups.len() {
        RolloutStepView::BuildRoleGroup {
            at: at as usize,
            replicas: facts.replicas(at, update),
            rolling: facts.rolling(),
        }
    } else {
        RolloutStepView::ApplyDisruptionBudget
    }
}

/// Loading the product configuration, for which there have to be nodes.
pub open spec fn with_nodes(facts: RolloutFactsView, update: ClusterVersionUpdateState) -> Result<
    RolloutStateView,
    RolloutError,
> {
    if facts.nodes_defined {
        at_step(RolloutStepView::LoadProductConfig, update)
    } else {
        Err(RolloutError::NoNodesDefined)
    }
}

/// Where a reconciliation stands after a step that succeeded.
pub open spec fn after_success(
    state: RolloutStateView,
    facts: RolloutFactsView,
    reply: RolloutReply,
) -> Result<RolloutStateView, RolloutError> {
    let update = state.update;
    let nifi_1 = is_nifi_1(facts.product_version);
    match state.step {
        RolloutStepView::ReadCluster => at_step(RolloutStepView::CheckSensitiveKey, update),
        RolloutStepView::CheckSensitiveKey => if facts.rolling() {
            with_nodes(facts, update)
        } else {
            at_step(RolloutStepView::AskUpdateState, update)
        },
        RolloutStepView::AskUpdateState => match reconcile::update_plan(
            facts.product_version,
            facts.deployed_version(),
            reply.update_state,
        ) {
            reconcile::UpdatePlanView::Wait => at_step(
                RolloutStepView::AwaitChange,
                reply.update_state,
            ),
            reconcile::UpdatePlanView::Proceed { state, .. } => with_nodes(facts, state),
        },
        RolloutStepView::LoadProductConfig =>
            at_step(RolloutStepView::CreateClusterResources, update),
        RolloutStepView::CreateClusterResources =>
            at_step(RolloutStepView::ResolveAuthentication, update),
        RolloutStepView::ResolveAuthentication =>
            at_step(RolloutStepView::CheckAuthentication, update),
        RolloutStepView::CheckAuthentication => if reply.uses_oidc {
            at_step(RolloutStepView::CheckAdminPassword, update)
        } else {
            at_step(RolloutStepView::FindRequiredLabels, update)
        },
        RolloutStepView::CheckAdminPassword => at_step(RolloutStepView::FindRequiredLabels, update),
        RolloutStepView::FindRequiredLabels => at_step(RolloutStepView::BuildRbacResources, update),
        RolloutStepView::BuildRbacResources =>
            at_step(RolloutStepView::ApplyServiceAccount, update),
        RolloutStepView::ApplyServiceAccount => at_step(RolloutStepView::ApplyRoleBinding, update),
        RolloutStepView::ApplyRoleBinding => at_step(role_group_step(facts, 0, update), update),
        RolloutStepView::BuildRoleGroup { at, .. } => if nifi_1 {
            at_step(RolloutStepView::ApplyMetricsService { at }, update)
        } else {
            at_step(RolloutStepView::ApplyHeadlessService { at }, update)
        },
        RolloutStepView::ApplyMetricsService { at } => at_step(
            RolloutStepView::ApplyHeadlessService { at },
            update,
        ),
        RolloutStepView::ApplyHeadlessService { at } => at_step(
            RolloutStepView::ApplyConfigMap { at },
            update,
        ),
        RolloutStepView::ApplyConfigMap { at } => at_step(
            RolloutStepView::ApplyStatefulSet { at, replicas: facts.replicas(at as int, update) },
            update,
        ),
        RolloutStepView::ApplyStatefulSet { at, .. } => at_step(
            role_group_step(facts, at + 1, update),
            update,
        ),
        RolloutStepView::ApplyDisruptionBudget => at_step(RolloutStepView::BuildListener, update),
        RolloutStepView::BuildListener => at_step(RolloutStepView::ApplyListener, update),
        RolloutStepView::ApplyListener => if facts.reporting_task_enabled && nifi_1 {
            at_step(RolloutStepView::BuildReportingTask, update)
        } else {
            at_step(RolloutStepView::DeleteOrphans, update)
        },
        RolloutStepView::BuildReportingTask =>
            at_step(RolloutStepView::ApplyReportingTaskService, update),
        RolloutStepView::ApplyReportingTaskService => at_step(
            RolloutStepView::ApplyReportingTaskJob,
            update,
        ),
        RolloutStepView::ApplyReportingTaskJob => at_step(RolloutStepView::DeleteOrphans, update),
        RolloutStepView::DeleteOrphans => at_step(
            RolloutStepView::UpdateStatus { deployed_version: facts.version_in_the_end(update) },
            update,
        ),
        RolloutStepView::UpdateStatus { .. } => at_step(RolloutStepView::AwaitChange, update),
        RolloutStepView::AwaitChange => at_step(RolloutStepView::AwaitChange, update),
    }
}

/// Where a reconciliation stands after a step, or the error with which it ends.
pub open spec fn rollout(
    state: RolloutStateView,
    facts: RolloutFactsView,
    reply: RolloutReply,
) -> Result<RolloutStateView, RolloutError> {
    if reply.succeeded {
        after_success(state, facts, reply)
    } else {
        Err(state.step.error())
    }
}

/// Where a reconciliation starts.
pub open spec fn first_state() -> RolloutStateView {
    RolloutStateView {
        step: RolloutStepView::ReadCluster,
        update: ClusterVersionUpdateState::NoVersionChange,
    }
}

/// Where a reconciliation starts.
pub fn start_reconciliation() -> (state: RolloutState)
    ensures
        state.deep_view() == first_state(),
{
    RolloutState {
        step: RolloutStep::ReadCluster,
        update: ClusterVersionUpdateState::NoVersionChange,
    }
}

impl RolloutStateView {
    /// Whether a step speaks of a role group that there is, and applies what the update allows.
    pub open spec fn follows(self, facts: RolloutFactsView) -> bool {
        &&& self.step.fits(facts)
        &&& match self.step {
            RolloutStepView::BuildRoleGroup { at, replicas, rolling } => replicas == facts.replicas(
                at as int,
                self.update,
            ) && rolling == facts.rolling(),
            RolloutStepView::ApplyStatefulSet { at, replicas } => replicas == facts.replicas(
                at as int,
                self.update,
            ),
            RolloutStepView::UpdateStatus { deployed_version } => deployed_version
                == facts.version_in_the_end(self.update),
            _ => true,
        }
    }
}

/// The first step on a role group, or what follows the last one.
fn first_role_group_step(
    facts: &RolloutFacts,
    at: usize,
    update: ClusterVersionUpdateState,
) -> (step: RolloutStep)
    ensures
        step.deep_view() == role_group_step(facts.deep_view(), at as int, update),
{
    if at < facts.role_groups.len() {
        proof {
            assert(facts.deep_view().role_groups[at as int]
                == facts.role_groups[at as int].deep_view());
        }
        RolloutStep::BuildRoleGroup {
            at,
            replicas: effective_replicas(update, facts.role_groups[at].replicas),
            rolling: reconcile::rolling_upgrade_supported(
                facts.product_version.as_str(),
                &facts.deployed(),
            ),
        }
    } else {
        RolloutStep::ApplyDisruptionBudget
    }
}

/// Loading the product configuration, for which there have to be nodes.
fn load_product_config(facts: &RolloutFacts, update: ClusterVersionUpdateState) -> (result: Result<
    RolloutState,
    RolloutError,
>)
    ensures
        match result {
            Ok(state) => with_nodes(facts.deep_view(), update) == Ok::<
                RolloutStateView,
                RolloutError,
            >(state.deep_view()),
            Err(error) => with_nodes(facts.deep_view(), update) == Err::<
                RolloutStateView,
                RolloutError,
            >(error),
        },
{
    if facts.nodes_defined {
        Ok(RolloutState { step: RolloutStep::LoadProductConfig, update })
    } else {
        Err(RolloutError::NoNodesDefined)
    }
}

/// What the operator does after a step: the next one, or nothing more where it failed.
///
/// A StatefulSet is applied with the nodes that its role group is meant to have, and with none
/// while another version is requested; and the status then keeps the version before.
pub fn reconcile_nifi(state: &RolloutState, facts: &RolloutFacts, reply: RolloutReply) -> (result:
    Result<RolloutState, RolloutError>)
    requires
        state.deep_view().step.fits(facts.deep_view()),
    ensures
        match result {
            Ok(next) => {
                &&& rollout(state.deep_view(), facts.deep_view(), reply) == Ok::<
                    RolloutStateView,
                    RolloutError,
                >(next.deep_view())
                &&& next.deep_view().follows(facts.deep_view())
            },
            Err(error) => rollout(state.deep_view(), facts.deep_view(), reply) == Err::<
                RolloutStateView,
                RolloutError,
            >(error),
        },
{
    if !reply.succeeded {
        return Err(state.step.error_of());
    }
    proof {
        assert(facts.deep_view().role_groups.len() == facts.role_groups.len());
    }
    let update = state.update;
    let deployed = facts.deployed();
    let nifi_1 = has_prefix(facts.product_version.as_str(), "1.");
    let step = match &state.step {
        RolloutStep::ReadCluster => RolloutStep::CheckSensitiveKey,
        RolloutStep::CheckSensitiveKey => {
            if reconcile::rolling_upgrade_supported(
                facts.product_version.as_str(),
                &deployed,
            ) {
                return load_product_config(facts, update);
            }
            RolloutStep::AskUpdateState
        },
        RolloutStep::AskUpdateState => {
            return match plan_update(
                facts.product_version.as_str(),
                &deployed,
                reply.update_state,
            ) {
                UpdatePlan::Wait => Ok(
                    RolloutState { step: RolloutStep::AwaitChange, update: reply.update_state },
                ),
                UpdatePlan::Proceed { state, .. } => load_product_config(facts, state),
            };
        },
        RolloutStep::LoadProductConfig => RolloutStep::CreateClusterResources,
        RolloutStep::CreateClusterResources => RolloutStep::ResolveAuthentication,
        RolloutStep::ResolveAuthentication => RolloutStep::CheckAuthentication,
        RolloutStep::CheckAuthentication => if reply.uses_oidc {
            RolloutStep::CheckAdminPassword
        } else {
            RolloutStep::FindRequiredLabels
        },
        RolloutStep::CheckAdminPassword => RolloutStep::FindRequiredLabels,
        RolloutStep::FindRequiredLabels => RolloutStep::BuildRbacResources,
        RolloutStep::BuildRbacResources => RolloutStep::ApplyServiceAccount,
        RolloutStep::ApplyServiceAccount => RolloutStep::ApplyRoleBinding,
        RolloutStep::ApplyRoleBinding => first_role_group_step(facts, 0, update),
        RolloutStep::BuildRoleGroup { at, .. } => if nifi_1 {
            RolloutStep::ApplyMetricsService { at: *at }
        } else {
            RolloutStep::ApplyHeadlessService { at: *at }
        },
        RolloutStep::ApplyMetricsService { at } => RolloutStep::ApplyHeadlessService { at: *at },
        RolloutStep::ApplyHeadlessService { at } => RolloutStep::ApplyConfigMap { at: *at },
        RolloutStep::ApplyConfigMap { at } => {
            proof {
                assert(facts.deep_view().role_groups[*at as int]
                    == facts.role_groups[*at as int].deep_view());
            }
            RolloutStep::ApplyStatefulSet {
                at: *at,
                replicas: effective_replicas(update, facts.role_groups[*at].replicas),
            }
        },
        RolloutStep::ApplyStatefulSet { at, .. } => first_role_group_step(facts, *at + 1, update),
        RolloutStep::ApplyDisruptionBudget => RolloutStep::BuildListener,
        RolloutStep::BuildListener => RolloutStep::ApplyListener,
        RolloutStep::ApplyListener => if facts.reporting_task_enabled && nifi_1 {
            RolloutStep::BuildReportingTask
        } else {
            RolloutStep::DeleteOrphans
        },
        RolloutStep::BuildReportingTask => RolloutStep::ApplyReportingTaskService,
        RolloutStep::ApplyReportingTaskService => RolloutStep::ApplyReportingTaskJob,
        RolloutStep::ApplyReportingTaskJob => RolloutStep::DeleteOrphans,
        RolloutStep::DeleteOrphans => RolloutStep::UpdateStatus {
            deployed_version: version_to_report(
                update,
                facts.product_version.as_str(),
                &facts.status,
            ),
        },
        RolloutStep::UpdateStatus { .. } => RolloutStep::AwaitChange,
        RolloutStep::AwaitChange => RolloutStep::AwaitChange,
    };
    Ok(RolloutState { step, update })
}

impl RolloutStepView {
    /// The place of a step in the course of a reconciliation of some role groups.
    pub open spec fn place(self, groups: int) -> int {
        match self {
            RolloutStepView::ReadCluster => 0,
            RolloutStepView::CheckSensitiveKey => 1,
            RolloutStepView::AskUpdateState => 2,
            RolloutStepView::LoadProductConfig => 3,
            RolloutStepView::CreateClusterResources => 4,
            RolloutStepView::ResolveAuthentication => 5,
            RolloutStepView::CheckAuthentication => 6,
            RolloutStepView::CheckAdminPassword => 7,
            RolloutStepView::FindRequiredLabels => 8,
            RolloutStepView::BuildRbacResources => 9,
            RolloutStepView::ApplyServiceAccount => 10,
            RolloutStepView::ApplyRoleBinding => 11,
            RolloutStepView::BuildRoleGroup { at, .. } => 12 + 5 * at,
            RolloutStepView::ApplyMetricsService { at } => 13 + 5 * at,
            RolloutStepView::ApplyHeadlessService { at } => 14 + 5 * at,
            RolloutStepView::ApplyConfigMap { at } => 15 + 5 * at,
            RolloutStepView::ApplyStatefulSet { at, .. } => 16 + 5 * at,
            RolloutStepView::ApplyDisruptionBudget => 12 + 5 * groups,
            RolloutStepView::BuildListener => 13 + 5 * groups,
            RolloutStepView::ApplyListener => 14 + 5 * groups,
            RolloutStepView::BuildReportingTask => 15 + 5 * groups,
            RolloutStepView::ApplyReportingTaskService => 16 + 5 * groups,
            RolloutStepView::ApplyReportingTaskJob => 17 + 5 * groups,
            RolloutStepView::DeleteOrphans => 18 + 5 * groups,
            RolloutStepView::UpdateStatus { .. } => 19 + 5 * groups,
            RolloutStepView::AwaitChange => 20 + 5 * groups,
        }
    }
}

/// Every step brings a reconciliation closer to its end, so that it ends; and as orphans are
/// deleted and the status is updated at the end of its course, both come after all objects are
/// applied.
pub proof fn law_rollout_ends(state: RolloutStateView, facts: RolloutFactsView, reply: RolloutReply)
    requires
        state.step.fits(facts),
        state.step != RolloutStepView::AwaitChange,
        facts.role_groups.len() <= usize::MAX,
        rollout(state, facts, reply).is_ok(),
    ensures
        state.step.place(facts.role_groups.len() as int) < rollout(
            state,
            facts,
            reply,
        )->Ok_0.step.place(facts.role_groups.len() as int) <= RolloutStepView::AwaitChange.place(
            facts.role_groups.len() as int,
        ),
{
}

/// No role group is skipped: one is begun after the one before it is applied, and what follows the
/// role groups is begun after the last one is.
pub proof fn law_no_role_group_is_skipped(
    state: RolloutStateView,
    facts: RolloutFactsView,
    reply: RolloutReply,
)
    requires
        state.step.fits(facts),
        facts.role_groups.len() <= usize::MAX,
        rollout(state, facts, reply).is_ok(),
    ensures
        match rollout(state, facts, reply)->Ok_0.step {
            RolloutStepView::BuildRoleGroup { at, .. } => if at == 0 {
                state.step == RolloutStepView::ApplyRoleBinding
            } else {
                state.step matches RolloutStepView::ApplyStatefulSet { at: before, .. } && before
                    == at - 1
            },
            RolloutStepView::ApplyDisruptionBudget => if facts.role_groups.len() == 0 {
                state.step == RolloutStepView::ApplyRoleBinding
            } else {
                state.step matches RolloutStepView::ApplyStatefulSet { at: last, .. } && last
                    == facts.role_groups.len() - 1
            },
            _ => true,
        },
{
}

/// While the nodes of another version are being stopped, nothing is applied.
pub proof fn law_updates_wait_for_nodes(
    state: RolloutStateView,
    facts: RolloutFactsView,
    reply: RolloutReply,
)
    requires
        state.step == RolloutStepView::AskUpdateState,
        reply.succeeded,
        reply.update_state == ClusterVersionUpdateState::UpdateInProgress,
        !facts.rolling(),
    ensures
        rollout(state, facts, reply) == Ok::<RolloutStateView, RolloutError>(
            RolloutStateView { step: RolloutStepView::AwaitChange, update: reply.update_state },
        ),
{
}

/// Where a reconciliation stands after some replies, or the error with which it ended.
pub open spec fn course(facts: RolloutFactsView, replies: Seq<RolloutReply>) -> Result<
    RolloutStateView,
    RolloutError,
>
    decreases replies.len(),
{
    if replies.len() == 0 {
        Ok(first_state())
    } else {
        match course(facts, replies.drop_last()) {
            Ok(state) => rollout(state, facts, replies.last()),
            Err(error) => Err(error),
        }
    }
}

/// Whatever the replies are, everything that a reconciliation applies follows from one state of
/// the update.
///
/// Where nodes of both versions can run side by side, that state is that the version does not
/// change. While an update is in progress, no object is applied and the status is not touched.
/// While one is requested, every StatefulSet is applied without nodes, and the status keeps its
/// version. Otherwise the role groups have the nodes that the user wants, and the status reports
/// the requested version.
pub proof fn law_rollout_follows_the_update(facts: RolloutFactsView, replies: Seq<RolloutReply>)
    requires
        facts.role_groups.len() <= usize::MAX,
        course(facts, replies).is_ok(),
    ensures
        course(facts, replies)->Ok_0.follows(facts),
        facts.rolling() ==> course(facts, replies)->Ok_0.update
            == ClusterVersionUpdateState::NoVersionChange,
        course(facts, replies)->Ok_0.update == ClusterVersionUpdateState::UpdateInProgress
            ==> course(facts, replies)->Ok_0.step == RolloutStepView::AwaitChange,
        match course(facts, replies)->Ok_0.step {
            RolloutStepView::ApplyStatefulSet { at, replicas } => replicas == (if course(
                facts,
                replies,
            )->Ok_0.update == ClusterVersionUpdateState::UpdateRequested {
                Some(0i32)
            } else {
                match facts.role_groups[at as int].replicas {
                    Some(wanted) => Some(wanted as i32),
                    None => None,
                }
            }),
            RolloutStepView::UpdateStatus { deployed_version } => deployed_version == (if course(
                facts,
                replies,
            )->Ok_0.update == ClusterVersionUpdateState::UpdateRequested {
                facts.deployed_version()
            } else {
                Some(facts.product_version)
            }),
            _ => true,
        },
    decreases replies.len(),
{
    if replies.len() > 0 {
        law_rollout_follows_the_update(facts, replies.drop_last());
    }
}

/// Once the operator has asked how far an update has come, that answer holds for the rest of the
/// reconciliation.
pub proof fn law_update_state_is_kept(
    state: RolloutStateView,
    facts: RolloutFactsView,
    reply: RolloutReply,
)
    requires
        state.step != RolloutStepView::AskUpdateState,
        rollout(state, facts, reply).is_ok(),
    ensures
        rollout(state, facts, reply)->Ok_0.update == state.update,
{
}

} // verus!
