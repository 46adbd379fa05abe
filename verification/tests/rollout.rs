//! Tests of the course of a reconciliation.

use nifi_operator::controller::dereference;
use nifi_operator::controller::dereference::{request_error, Request, Stage};
use nifi_operator::controller::reconcile::ClusterVersionUpdateState;
use nifi_operator::controller::rollout::{
    reconcile_nifi, start_reconciliation, RolloutError, RolloutFacts, RolloutGroup, RolloutReply,
    RolloutState, RolloutStep,
};
use nifi_operator::crd::NifiStatus;

fn facts(version: &str, deployed: Option<&str>) -> RolloutFacts {
    RolloutFacts {
        product_version: version.to_owned(),
        status: deployed.map(|version| NifiStatus {
            deployed_version: Some(version.to_owned()),
            conditions: vec![],
        }),
        nodes_defined: true,
        role_groups: vec![
            RolloutGroup { name: "default".to_owned(), replicas: Some(3) },
            RolloutGroup { name: "more".to_owned(), replicas: None },
        ],
        reporting_task_enabled: true,
    }
}

fn reply(update_state: ClusterVersionUpdateState, uses_oidc: bool) -> RolloutReply {
    RolloutReply { succeeded: true, update_state, uses_oidc }
}

fn course(facts: &RolloutFacts, reply: RolloutReply) -> Vec<RolloutStep> {
    let mut state = start_reconciliation();
    let mut steps = vec![];
    while state.step != RolloutStep::AwaitChange {
        let next = reconcile_nifi(&state, facts, reply).unwrap();
        steps.push(state.step);
        state = next;
    }
    steps.push(state.step);
    steps
}

fn at(step: RolloutStep) -> RolloutState {
    RolloutState { step, update: ClusterVersionUpdateState::NoVersionChange }
}

#[test]
fn nifi_2_rolls_without_asking() {
    let steps = course(
        &facts("2.9.0", Some("2.0.0")),
        reply(ClusterVersionUpdateState::UpdateInProgress, false),
    );
    assert_eq!(
        steps,
        [
            RolloutStep::ReadCluster,
            RolloutStep::CheckSensitiveKey,
            RolloutStep::LoadProductConfig,
            RolloutStep::CreateClusterResources,
            RolloutStep::ResolveAuthentication,
            RolloutStep::CheckAuthentication,
            RolloutStep::FindRequiredLabels,
            RolloutStep::BuildRbacResources,
            RolloutStep::ApplyServiceAccount,
            RolloutStep::ApplyRoleBinding,
            RolloutStep::BuildRoleGroup { at: 0, replicas: Some(3), rolling: true },
            RolloutStep::ApplyHeadlessService { at: 0 },
            RolloutStep::ApplyConfigMap { at: 0 },
            RolloutStep::ApplyStatefulSet { at: 0, replicas: Some(3) },
            RolloutStep::BuildRoleGroup { at: 1, replicas: None, rolling: true },
            RolloutStep::ApplyHeadlessService { at: 1 },
            RolloutStep::ApplyConfigMap { at: 1 },
            RolloutStep::ApplyStatefulSet { at: 1, replicas: None },
            RolloutStep::ApplyDisruptionBudget,
            RolloutStep::BuildListener,
            RolloutStep::ApplyListener,
            RolloutStep::DeleteOrphans,
            RolloutStep::UpdateStatus { deployed_version: Some("2.9.0".to_owned()) },
            RolloutStep::AwaitChange,
        ]
    );
}

#[test]
fn nifi_1_waits_for_its_nodes() {
    let steps = course(
        &facts("1.28.1", Some("1.27.0")),
        reply(ClusterVersionUpdateState::UpdateInProgress, false),
    );
    assert_eq!(
        steps,
        [
            RolloutStep::ReadCluster,
            RolloutStep::CheckSensitiveKey,
            RolloutStep::AskUpdateState,
            RolloutStep::AwaitChange
        ]
    );
}

#[test]
fn nifi_1_gets_metrics_and_a_reporting_task() {
    let steps = course(
        &facts("1.28.1", None),
        reply(ClusterVersionUpdateState::NoVersionChange, true),
    );
    for step in [
        RolloutStep::AskUpdateState,
        RolloutStep::CheckAdminPassword,
        RolloutStep::ApplyMetricsService { at: 0 },
        RolloutStep::BuildReportingTask,
        RolloutStep::ApplyReportingTaskService,
        RolloutStep::ApplyReportingTaskJob,
    ] {
        assert!(steps.contains(&step), "{step:?}");
    }
    let orphans = steps.iter().position(|step| *step == RolloutStep::DeleteOrphans);
    assert_eq!(orphans, Some(steps.len() - 3));
}

#[test]
fn nodes_stop_while_another_version_is_requested() {
    let steps = course(
        &facts("1.28.1", Some("1.27.0")),
        reply(ClusterVersionUpdateState::UpdateRequested, false),
    );
    for step in [
        RolloutStep::BuildRoleGroup { at: 0, replicas: Some(0), rolling: false },
        RolloutStep::ApplyStatefulSet { at: 0, replicas: Some(0) },
        RolloutStep::ApplyStatefulSet { at: 1, replicas: Some(0) },
        RolloutStep::UpdateStatus { deployed_version: Some("1.27.0".to_owned()) },
    ] {
        assert!(steps.contains(&step), "{step:?}");
    }
    let steps = course(
        &facts("1.28.1", Some("1.27.0")),
        reply(ClusterVersionUpdateState::NoVersionChange, false),
    );
    for step in [
        RolloutStep::ApplyStatefulSet { at: 0, replicas: Some(3) },
        RolloutStep::UpdateStatus { deployed_version: Some("1.28.1".to_owned()) },
    ] {
        assert!(steps.contains(&step), "{step:?}");
    }
}

#[test]
fn a_failing_step_ends_the_reconciliation() {
    let facts = facts("2.9.0", Some("2.0.0"));
    let mut failed = reply(ClusterVersionUpdateState::NoVersionChange, false);
    failed.succeeded = false;
    let error_at = |step: RolloutStep| reconcile_nifi(&at(step), &facts, failed).unwrap_err();
    assert_eq!(error_at(start_reconciliation().step), RolloutError::InvalidNifiCluster);
    for (step, error) in [
        (RolloutStep::CheckSensitiveKey, RolloutError::Security),
        (RolloutStep::AskUpdateState, RolloutError::ClusterVersionUpdateState),
        (RolloutStep::LoadProductConfig, RolloutError::ProductConfigLoadFailed),
        (RolloutStep::CreateClusterResources, RolloutError::CreateClusterResources),
        (
            RolloutStep::ResolveAuthentication,
            RolloutError::FailedResolveNifiAuthenticationConfig,
        ),
        (RolloutStep::CheckAuthentication, RolloutError::InvalidNifiAuthenticationConfig),
        (RolloutStep::CheckAdminPassword, RolloutError::Security),
        (RolloutStep::FindRequiredLabels, RolloutError::GetRequiredLabels),
        (RolloutStep::BuildRbacResources, RolloutError::BuildRbacResources),
        (RolloutStep::ApplyServiceAccount, RolloutError::ApplyServiceAccount),
        (RolloutStep::ApplyRoleBinding, RolloutError::ApplyRoleBinding),
        (
            RolloutStep::BuildRoleGroup { at: 1, replicas: None, rolling: true },
            RolloutError::BuildRoleGroup { at: 1 },
        ),
        (
            RolloutStep::ApplyMetricsService { at: 1 },
            RolloutError::ApplyRoleGroupService { at: 1 },
        ),
        (
            RolloutStep::ApplyHeadlessService { at: 0 },
            RolloutError::ApplyRoleGroupService { at: 0 },
        ),
        (RolloutStep::ApplyConfigMap { at: 1 }, RolloutError::ApplyRoleGroupConfig { at: 1 }),
        (
            RolloutStep::ApplyStatefulSet { at: 1, replicas: None },
            RolloutError::ApplyRoleGroupStatefulSet { at: 1 },
        ),
        (RolloutStep::ApplyDisruptionBudget, RolloutError::FailedToCreatePdb),
        (RolloutStep::BuildListener, RolloutError::ListenerConfiguration),
        (RolloutStep::ApplyListener, RolloutError::ApplyGroupListener),
        (RolloutStep::BuildReportingTask, RolloutError::ReportingTask),
        (
            RolloutStep::ApplyReportingTaskService,
            RolloutError::ApplyCreateReportingTaskService,
        ),
        (RolloutStep::ApplyReportingTaskJob, RolloutError::ApplyCreateReportingTaskJob),
        (RolloutStep::DeleteOrphans, RolloutError::DeleteOrphanedResources),
        (RolloutStep::UpdateStatus { deployed_version: None }, RolloutError::StatusUpdate),
    ] {
        assert_eq!(error_at(step), error);
    }
}

#[test]
fn a_cluster_needs_nodes() {
    let mut facts = facts("2.9.0", Some("2.0.0"));
    facts.nodes_defined = false;
    assert_eq!(
        reconcile_nifi(
            &at(RolloutStep::CheckSensitiveKey),
            &facts,
            reply(ClusterVersionUpdateState::NoVersionChange, false)
        ),
        Err(RolloutError::NoNodesDefined)
    );
}

#[test]
fn stages_of_fetching_follow_each_other() {
    let mut stage = Stage::AuthenticationClasses;
    let mut stages = vec![stage];
    while stage != Stage::Complete {
        stage = dereference::next_stage(stage);
        stages.push(stage);
    }
    assert_eq!(stages.len(), 5);
    let request = Request::Secret { name: "key".to_owned(), namespace: "default".to_owned() };
    assert_eq!(
        request_error(&request),
        Some(dereference::Error::GetSecret { secret_name: "key".to_owned() })
    );
}
