//! Tests of the decisions of a reconciliation.

use nifi_operator::controller::reconcile::{
    effective_replicas, error_policy, needs_metrics_service, next_step, plan_update,
    references_config_map, rolling_upgrade_supported, status_after, Action,
    ClusterVersionUpdateState, Error, Step, UpdatePlan,
};
use nifi_operator::crd::NifiStatus;

#[test]
fn a_reconciliation_runs_through_its_steps() {
    let mut step = Step::Start;
    let mut steps = vec![step];
    while step != Step::Finished {
        step = next_step(step, true).unwrap();
        steps.push(step);
    }
    assert_eq!(
        steps,
        [
            Step::Start,
            Step::Dereference,
            Step::Validate,
            Step::Build,
            Step::Apply,
            Step::UpdateStatus,
            Step::Finished
        ]
    );
}

#[test]
fn each_step_fails_in_its_own_way() {
    assert_eq!(next_step(Step::Start, false), Err(Error::InvalidNifiCluster));
    assert_eq!(next_step(Step::Dereference, false), Err(Error::Dereference));
    assert_eq!(next_step(Step::Validate, false), Err(Error::ValidateCluster));
    assert_eq!(next_step(Step::Build, false), Err(Error::BuildResources));
    assert_eq!(next_step(Step::Apply, false), Err(Error::ApplyResources));
    assert_eq!(next_step(Step::UpdateStatus, false), Err(Error::UpdateStatus));
}

#[test]
fn invalid_objects_are_not_retried() {
    assert_eq!(error_policy(&Error::InvalidNifiCluster), Action::AwaitChange);
    assert_eq!(error_policy(&Error::ApplyResources), Action::Requeue { seconds: 10 });
}

#[test]
fn nifi_2_is_updated_without_a_stop() {
    let deployed = |version: &str| Some(version.to_owned());
    assert!(rolling_upgrade_supported("2.9.0", &deployed("2.0.0")));
    assert!(!rolling_upgrade_supported("2.9.0", &deployed("1.28.1")));
    assert!(!rolling_upgrade_supported("2.9.0", &None));
    assert_eq!(
        plan_update("2.9.0", &deployed("2.0.0"), ClusterVersionUpdateState::UpdateInProgress),
        UpdatePlan::Proceed {
            state: ClusterVersionUpdateState::NoVersionChange,
            rolling: true,
        }
    );
}

#[test]
fn nifi_1_is_stopped_before_an_update() {
    let deployed = Some("1.27.0".to_owned());
    let plan = |state| plan_update("1.28.1", &deployed, state);
    assert_eq!(plan(ClusterVersionUpdateState::UpdateInProgress), UpdatePlan::Wait);
    assert_eq!(
        plan(ClusterVersionUpdateState::UpdateRequested),
        UpdatePlan::Proceed {
            state: ClusterVersionUpdateState::UpdateRequested,
            rolling: false,
        }
    );
    assert_eq!(
        effective_replicas(ClusterVersionUpdateState::UpdateRequested, Some(3)),
        Some(0)
    );
    assert_eq!(
        effective_replicas(ClusterVersionUpdateState::NoVersionChange, Some(3)),
        Some(3)
    );
    assert_eq!(effective_replicas(ClusterVersionUpdateState::NoVersionChange, None), None);
}

#[test]
fn the_deployed_version_changes_once_the_update_is_done() {
    let status = Some(NifiStatus {
        deployed_version: Some("1.27.0".to_owned()),
        conditions: vec![],
    });
    let version = |state| status_after(state, "1.28.1", &status, vec![]).deployed_version;
    assert_eq!(
        version(ClusterVersionUpdateState::UpdateRequested),
        Some("1.27.0".to_owned())
    );
    assert_eq!(
        version(ClusterVersionUpdateState::NoVersionChange),
        Some("1.28.1".to_owned())
    );
}

#[test]
fn only_nifi_1_needs_a_metrics_service_of_its_own() {
    assert!(needs_metrics_service("1.28.1"));
    assert!(!needs_metrics_service("2.9.0"));
}

#[test]
fn deleted_clusters_reference_nothing() {
    assert!(!references_config_map(&None, "opa"));
}
