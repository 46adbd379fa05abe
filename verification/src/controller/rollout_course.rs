//! What a whole reconciliation does: which objects it applies, in which order, and how it ends.

use crate::controller::reconcile::ClusterVersionUpdateState;
use crate::controller::rollout;
use crate::controller::rollout::{
    RolloutError, RolloutFactsView, RolloutReply, RolloutStateView, RolloutStepView,
};
use vstd::prelude::*;

verus! {

/// The step that the operator performs when it gets the given one of some replies.
pub open spec fn performed(
    facts: RolloutFactsView,
    replies: Seq<RolloutReply>,
    i: int,
) -> RolloutStepView {
    rollout::course(facts, replies.take(i))->Ok_0.step
}

/// Whether a step is performed.
pub open spec fn performs(
    facts: RolloutFactsView,
    replies: Seq<RolloutReply>,
    step: RolloutStepView,
) -> bool {
    exists|i: int| 0 <= i < replies.len() && #[trigger] performed(facts, replies, i) == step
}

/// Whether a step is performed before another one.
pub open spec fn performs_before(
    facts: RolloutFactsView,
    replies: Seq<RolloutReply>,
    first: RolloutStepView,
    second: RolloutStepView,
) -> bool {
    exists|i: int, j: int|
        0 <= i < j < replies.len() && #[trigger] performed(facts, replies, i) == first
            && #[trigger] performed(facts, replies, j) == second
}

/// Whether the requested version and the deployed one are both 2.x.
pub open spec fn both_are_nifi_2(facts: RolloutFactsView) -> bool {
    "2."@.is_prefix_of(facts.product_version) && facts.status.is_some()
        && facts.status.unwrap().deployed_version.is_some() && "2."@.is_prefix_of(
        facts.status.unwrap().deployed_version.unwrap(),
    )
}

/// The StatefulSet of a role group, applied without nodes while another version is requested, and
/// else with those that the user wants.
pub open spec fn stateful_set_applied(
    facts: RolloutFactsView,
    at: int,
    update: ClusterVersionUpdateState,
) -> RolloutStepView {
    RolloutStepView::ApplyStatefulSet {
        at: at as usize,
        replicas: if update == ClusterVersionUpdateState::UpdateRequested {
            Some(0i32)
        } else if facts.role_groups[at].replicas.is_some() {
            Some(facts.role_groups[at].replicas.unwrap() as i32)
        } else {
            None
        },
    }
}

/// Whether the step at a place of the course is performed in every reconciliation.
spec fn always(facts: RolloutFactsView, place: int) -> bool {
    let n = facts.role_groups.len() as int;
    let nifi_1 = rollout::is_nifi_1(facts.product_version);
    &&& 0 <= place < 20 + 5 * n
    &&& place == 2 ==> !facts.rolling()
    &&& place != 7
    &&& (12 <= place < 12 + 5 * n && (place - 13) % 5 == 0) ==> nifi_1
    &&& (15 + 5 * n <= place <= 17 + 5 * n) ==> facts.reporting_task_enabled && nifi_1
}

/// Whether a reconciliation ended because nodes are being stopped.
spec fn waits(state: RolloutStateView) -> bool {
    state.step == RolloutStepView::AwaitChange && state.update
        == ClusterVersionUpdateState::UpdateInProgress
}

/// A course that is at some step has performed what comes before it.
proof fn lemma_passed(
    facts: RolloutFactsView,
    replies: Seq<RolloutReply>,
    place: int,
) -> (i: int)
    requires
        facts.role_groups.len() <= usize::MAX,
        rollout::course(facts, replies).is_ok(),
        !waits(rollout::course(facts, replies)->Ok_0),
        always(facts, place),
        place < rollout::course(facts, replies)->Ok_0.step.place(facts.role_groups.len() as int),
    ensures
        0 <= i < replies.len(),
        performed(facts, replies, i).place(facts.role_groups.len() as int) == place,
        performed(facts, replies, i).fits(facts),
        rollout::course(facts, replies.take(i)).is_ok(),
        performed(facts, replies, i) is AwaitChange || (replies[i].succeeded),
    decreases replies.len(),
{
    let n = facts.role_groups.len() as int;
    let front = replies.drop_last();
    assert(replies.len() > 0);
    let last = replies.len() - 1;
    assert(replies.take(last) =~= front);
    let before = rollout::course(facts, front)->Ok_0;
    rollout::law_rollout_follows_the_update(facts, front);
    rollout::law_rollout_follows_the_update(facts, replies);
    if before.step.place(n) == place {
        last
    } else {
        lemma_next_place(before, facts, replies.last(), place);
        let i = lemma_passed(facts, front, place);
        assert(front.take(i) =~= replies.take(i));
        i
    }
}

/// No step leads past a place that is never left out.
proof fn lemma_next_place(
    state: RolloutStateView,
    facts: RolloutFactsView,
    reply: RolloutReply,
    place: int,
)
    requires
        facts.role_groups.len() <= usize::MAX,
        state.step.fits(facts),
        rollout::rollout(state, facts, reply).is_ok(),
        !waits(rollout::rollout(state, facts, reply)->Ok_0),
        always(facts, place),
        state.step.place(facts.role_groups.len() as int) != place,
        place < rollout::rollout(state, facts, reply)->Ok_0.step.place(
            facts.role_groups.len() as int,
        ),
    ensures
        place < state.step.place(facts.role_groups.len() as int),
        !waits(state),
{
    let n = facts.role_groups.len() as int;
    let next = rollout::rollout(state, facts, reply)->Ok_0;
    if state.step.place(n) < place {
        match state.step {
            RolloutStepView::BuildRoleGroup { at, .. } => {
                assert((13 + 5 * at - 13) % 5 == 0);
            },
            _ => {},
        }
    }
}

/// Steps are performed in the order of their places.
proof fn lemma_in_order(facts: RolloutFactsView, replies: Seq<RolloutReply>, i: int, j: int)
    requires
        facts.role_groups.len() <= usize::MAX,
        0 <= i < j <= replies.len(),
        rollout::course(facts, replies.take(j)).is_ok(),
    ensures
        rollout::course(facts, replies.take(i)).is_ok(),
        performed(facts, replies, i).place(facts.role_groups.len() as int) < performed(
            facts,
            replies,
            j,
        ).place(facts.role_groups.len() as int) || performed(facts, replies, i)
            == RolloutStepView::AwaitChange,
    decreases j,
{
    let head = replies.take(j);
    assert(head.drop_last() =~= replies.take(j - 1));
    let before = rollout::course(facts, replies.take(j - 1))->Ok_0;
    rollout::law_rollout_follows_the_update(facts, replies.take(j - 1));
    if before.step != RolloutStepView::AwaitChange {
        rollout::law_rollout_ends(before, facts, head.last());
    }
    if i < j - 1 {
        lemma_in_order(facts, replies, i, j - 1);
    }
}

/// Once a course is past the question how far an update has come, the answer stays.
proof fn lemma_update_stays(facts: RolloutFactsView, replies: Seq<RolloutReply>, i: int)
    requires
        facts.role_groups.len() <= usize::MAX,
        0 <= i <= replies.len(),
        rollout::course(facts, replies).is_ok(),
        rollout::course(facts, replies.take(i)).is_ok(),
        performed(facts, replies, i).place(facts.role_groups.len() as int) > 2,
    ensures
        rollout::course(facts, replies.take(i))->Ok_0.update == rollout::course(
            facts,
            replies,
        )->Ok_0.update,
    decreases replies.len() - i,
{
    if i == replies.len() {
        assert(replies.take(i) =~= replies);
    } else {
        let next = replies.take(i + 1);
        assert(next.drop_last() =~= replies.take(i));
        lemma_all_ok(facts, replies, i + 1);
        lemma_in_order(facts, replies, i, i + 1);
        let state = rollout::course(facts, replies.take(i))->Ok_0;
        rollout::law_update_state_is_kept(state, facts, next.last());
        lemma_update_stays(facts, replies, i + 1);
    }
}

/// A course that has not ended with an error never had one.
proof fn lemma_all_ok(facts: RolloutFactsView, replies: Seq<RolloutReply>, i: int)
    requires
        0 <= i <= replies.len(),
        rollout::course(facts, replies).is_ok(),
    ensures
        rollout::course(facts, replies.take(i)).is_ok(),
    decreases replies.len(),
{
    if i == replies.len() {
        assert(replies.take(i) =~= replies);
    } else {
        lemma_all_ok(facts, replies.drop_last(), i);
        assert(replies.drop_last().take(i) =~= replies.take(i));
    }
}

/// Two places of a course, the first of which comes first.
proof fn lemma_both_passed(
    facts: RolloutFactsView,
    replies: Seq<RolloutReply>,
    first: int,
    second: int,
) -> (found: (int, int))
    requires
        facts.role_groups.len() <= usize::MAX,
        rollout::course(facts, replies).is_ok(),
        !waits(rollout::course(facts, replies)->Ok_0),
        always(facts, first),
        always(facts, second),
        first < second < rollout::course(facts, replies)->Ok_0.step.place(
            facts.role_groups.len() as int,
        ),
    ensures
        0 <= found.0 < found.1 < replies.len(),
        performed(facts, replies, found.0).place(facts.role_groups.len() as int) == first,
        performed(facts, replies, found.1).place(facts.role_groups.len() as int) == second,
        performed(facts, replies, found.0).fits(facts),
        performed(facts, replies, found.1).fits(facts),
{
    let i = lemma_passed(facts, replies, first);
    let j = lemma_passed(facts, replies, second);
    if j < i {
        lemma_in_order(facts, replies, j, i);
    }
    (i, j)
}

/// A step that is never left out is performed before a later one.
proof fn lemma_performs_before(
    facts: RolloutFactsView,
    replies: Seq<RolloutReply>,
    first: RolloutStepView,
    second: RolloutStepView,
)
    requires
        facts.role_groups.len() <= usize::MAX,
        rollout::course(facts, replies).is_ok(),
        !waits(rollout::course(facts, replies)->Ok_0),
        always(facts, first.place(facts.role_groups.len() as int)),
        always(facts, second.place(facts.role_groups.len() as int)),
        first.place(facts.role_groups.len() as int) < second.place(
            facts.role_groups.len() as int,
        ) < rollout::course(facts, replies)->Ok_0.step.place(facts.role_groups.len() as int),
        first.fits(facts),
        second.fits(facts),
        !(first is BuildRoleGroup || first is ApplyStatefulSet || first is UpdateStatus),
        !(second is BuildRoleGroup || second is ApplyStatefulSet || second is UpdateStatus),
    ensures
        performs_before(facts, replies, first, second),
{
    let n = facts.role_groups.len() as int;
    let (i, j) = lemma_both_passed(facts, replies, first.place(n), second.place(n));
    assert(performed(facts, replies, i) == first);
    assert(performed(facts, replies, j) == second);
}

/// Where both versions are 2.x, the operator does not ask how far an update has come.
proof fn lemma_rolling_does_not_ask(facts: RolloutFactsView, replies: Seq<RolloutReply>)
    requires
        facts.rolling(),
        rollout::course(facts, replies).is_ok(),
    ensures
        !performs(facts, replies, RolloutStepView::AskUpdateState),
{
    if performs(facts, replies, RolloutStepView::AskUpdateState) {
        let i = choose|i: int|
            0 <= i < replies.len() && #[trigger] performed(facts, replies, i)
                == RolloutStepView::AskUpdateState;
        lemma_all_ok(facts, replies, i);
        let head = replies.take(i);
        assert(head.len() > 0);
        let before = rollout::course(facts, head.drop_last())->Ok_0;
        assert(rollout::rollout(before, facts, head.last())->Ok_0.step
            == RolloutStepView::AskUpdateState);
    }
}

/// The StatefulSet of a role group is applied as the update of the whole course allows.
proof fn lemma_stateful_set(facts: RolloutFactsView, replies: Seq<RolloutReply>, i: int, at: int)
    requires
        facts.role_groups.len() <= usize::MAX,
        0 <= i < replies.len(),
        0 <= at < facts.role_groups.len(),
        rollout::course(facts, replies).is_ok(),
        performed(facts, replies, i).place(facts.role_groups.len() as int) == 16 + 5 * at,
        performed(facts, replies, i).fits(facts),
    ensures
        performed(facts, replies, i) == stateful_set_applied(
            facts,
            at,
            rollout::course(facts, replies)->Ok_0.update,
        ),
{
    lemma_all_ok(facts, replies, i);
    lemma_update_stays(facts, replies, i);
    rollout::law_rollout_follows_the_update(facts, replies.take(i));
}

/// A reconciliation that comes to its end has applied every role group whole: for NiFi 1.x the
/// Service for metrics, for every version the headless Service that the StatefulSet names, then the
/// ConfigMap that its pods mount, then the StatefulSet. Other versions get no Service for metrics.
pub proof fn law_every_role_group_is_applied(
    facts: RolloutFactsView,
    replies: Seq<RolloutReply>,
    at: int,
)
    requires
        facts.role_groups.len() <= usize::MAX,
        rollout::course(facts, replies).is_ok(),
        rollout::course(facts, replies)->Ok_0.step is UpdateStatus,
        0 <= at < facts.role_groups.len(),
    ensures
        "1."@.is_prefix_of(facts.product_version) ==> performs_before(
            facts,
            replies,
            RolloutStepView::ApplyMetricsService { at: at as usize },
            RolloutStepView::ApplyHeadlessService { at: at as usize },
        ),
        performs(facts, replies, RolloutStepView::ApplyMetricsService { at: at as usize })
            ==> "1."@.is_prefix_of(facts.product_version),
        performs_before(
            facts,
            replies,
            RolloutStepView::ApplyHeadlessService { at: at as usize },
            RolloutStepView::ApplyConfigMap { at: at as usize },
        ),
        performs_before(
            facts,
            replies,
            RolloutStepView::ApplyConfigMap { at: at as usize },
            stateful_set_applied(facts, at, rollout::course(facts, replies)->Ok_0.update),
        ),
{
    let n = facts.role_groups.len() as int;
    assert((13 + 5 * at - 13) % 5 == 0);
    assert((14 + 5 * at - 13) % 5 == 1);
    assert((15 + 5 * at - 13) % 5 == 2);
    assert((16 + 5 * at - 13) % 5 == 3);
    let (h, c) = lemma_both_passed(facts, replies, 14 + 5 * at, 15 + 5 * at);
    assert(performed(facts, replies, h) == RolloutStepView::ApplyHeadlessService {
        at: at as usize,
    });
    assert(performed(facts, replies, c) == RolloutStepView::ApplyConfigMap { at: at as usize });
    let (d, s) = lemma_both_passed(facts, replies, 15 + 5 * at, 16 + 5 * at);
    assert(performed(facts, replies, d) == RolloutStepView::ApplyConfigMap { at: at as usize });
    lemma_stateful_set(facts, replies, s, at);
    let metrics = RolloutStepView::ApplyMetricsService { at: at as usize };
    if rollout::is_nifi_1(facts.product_version) {
        let (m, g) = lemma_both_passed(facts, replies, 13 + 5 * at, 14 + 5 * at);
        assert(performed(facts, replies, m) == metrics);
        assert(performed(facts, replies, g) == RolloutStepView::ApplyHeadlessService {
            at: at as usize,
        });
    } else if performs(facts, replies, metrics) {
        let i = choose|i: int|
            0 <= i < replies.len() && #[trigger] performed(facts, replies, i) == metrics;
        lemma_all_ok(facts, replies, i);
        let head = replies.take(i);
        assert(head.len() > 0);
        let before = rollout::course(facts, head.drop_last())->Ok_0;
        assert(rollout::rollout(before, facts, head.last())->Ok_0.step == metrics);
    }
}

/// The role groups are applied one after the other: the StatefulSet of one before any object of the
/// next one.
pub proof fn law_role_groups_are_applied_in_order(
    facts: RolloutFactsView,
    replies: Seq<RolloutReply>,
    at: int,
)
    requires
        facts.role_groups.len() <= usize::MAX,
        rollout::course(facts, replies).is_ok(),
        rollout::course(facts, replies)->Ok_0.step is UpdateStatus,
        0 <= at,
        at + 1 < facts.role_groups.len(),
    ensures
        performs_before(
            facts,
            replies,
            stateful_set_applied(facts, at, rollout::course(facts, replies)->Ok_0.update),
            RolloutStepView::ApplyHeadlessService { at: (at + 1) as usize },
        ),
{
    assert((16 + 5 * at - 13) % 5 == 3);
    assert((14 + 5 * (at + 1) - 13) % 5 == 1);
    let (s, h) = lemma_both_passed(facts, replies, 16 + 5 * at, 14 + 5 * (at + 1));
    lemma_stateful_set(facts, replies, s, at);
    assert(performed(facts, replies, h) == RolloutStepView::ApplyHeadlessService {
        at: (at + 1) as usize,
    });
}

/// Before any role group is handled, the key of the sensitive properties and the authentication are
/// checked, and what the pods run as is applied: the account and then its role.
pub proof fn law_prerequisites_come_first(facts: RolloutFactsView, replies: Seq<RolloutReply>)
    requires
        facts.role_groups.len() <= usize::MAX,
        rollout::course(facts, replies).is_ok(),
        rollout::course(facts, replies)->Ok_0.step is UpdateStatus,
    ensures
        performs_before(
            facts,
            replies,
            RolloutStepView::ReadCluster,
            RolloutStepView::CheckSensitiveKey,
        ),
        performs_before(
            facts,
            replies,
            RolloutStepView::CheckSensitiveKey,
            RolloutStepView::LoadProductConfig,
        ),
        !both_are_nifi_2(facts) ==> performs_before(
            facts,
            replies,
            RolloutStepView::AskUpdateState,
            RolloutStepView::LoadProductConfig,
        ),
        both_are_nifi_2(facts) ==> !performs(facts, replies, RolloutStepView::AskUpdateState),
        performs_before(
            facts,
            replies,
            RolloutStepView::LoadProductConfig,
            RolloutStepView::CreateClusterResources,
        ),
        performs_before(
            facts,
            replies,
            RolloutStepView::ResolveAuthentication,
            RolloutStepView::CheckAuthentication,
        ),
        performs_before(
            facts,
            replies,
            RolloutStepView::CheckAuthentication,
            RolloutStepView::FindRequiredLabels,
        ),
        performs_before(
            facts,
            replies,
            RolloutStepView::FindRequiredLabels,
            RolloutStepView::BuildRbacResources,
        ),
        performs_before(
            facts,
            replies,
            RolloutStepView::BuildRbacResources,
            RolloutStepView::ApplyServiceAccount,
        ),
        performs_before(
            facts,
            replies,
            RolloutStepView::ApplyServiceAccount,
            RolloutStepView::ApplyRoleBinding,
        ),
        forall|at: int|
            0 <= at < facts.role_groups.len() ==> #[trigger] performs_before(
                facts,
                replies,
                RolloutStepView::ApplyRoleBinding,
                RolloutStepView::ApplyHeadlessService { at: at as usize },
            ),
{
    lemma_performs_before(
        facts,
        replies,
        RolloutStepView::ReadCluster,
        RolloutStepView::CheckSensitiveKey,
    );
    lemma_performs_before(
        facts,
        replies,
        RolloutStepView::CheckSensitiveKey,
        RolloutStepView::LoadProductConfig,
    );
    lemma_performs_before(
        facts,
        replies,
        RolloutStepView::LoadProductConfig,
        RolloutStepView::CreateClusterResources,
    );
    lemma_performs_before(
        facts,
        replies,
        RolloutStepView::ResolveAuthentication,
        RolloutStepView::CheckAuthentication,
    );
    lemma_performs_before(
        facts,
        replies,
        RolloutStepView::CheckAuthentication,
        RolloutStepView::FindRequiredLabels,
    );
    lemma_performs_before(
        facts,
        replies,
        RolloutStepView::FindRequiredLabels,
        RolloutStepView::BuildRbacResources,
    );
    lemma_performs_before(
        facts,
        replies,
        RolloutStepView::BuildRbacResources,
        RolloutStepView::ApplyServiceAccount,
    );
    lemma_performs_before(
        facts,
        replies,
        RolloutStepView::ApplyServiceAccount,
        RolloutStepView::ApplyRoleBinding,
    );
    if facts.rolling() {
        lemma_rolling_does_not_ask(facts, replies);
    } else {
        lemma_performs_before(
            facts,
            replies,
            RolloutStepView::AskUpdateState,
            RolloutStepView::LoadProductConfig,
        );
    }
    assert forall|at: int| 0 <= at < facts.role_groups.len() implies #[trigger] performs_before(
        facts,
        replies,
        RolloutStepView::ApplyRoleBinding,
        RolloutStepView::ApplyHeadlessService { at: at as usize },
    ) by {
        assert((14 + 5 * at - 13) % 5 == 1);
        lemma_performs_before(
            facts,
            replies,
            RolloutStepView::ApplyRoleBinding,
            RolloutStepView::ApplyHeadlessService { at: at as usize },
        );
    }
}

/// After all role groups come the disruption budget and the Listener, then the Service and the job
/// of the reporting task, exactly for NiFi 1.x and where the user wants them. Only then are orphans
/// deleted, and the status is updated last.
pub proof fn law_role_objects_come_last(facts: RolloutFactsView, replies: Seq<RolloutReply>)
    requires
        facts.role_groups.len() <= usize::MAX,
        rollout::course(facts, replies).is_ok(),
        rollout::course(facts, replies)->Ok_0.step is UpdateStatus,
    ensures
        forall|at: int|
            0 <= at < facts.role_groups.len() ==> performs_before(
                facts,
                replies,
                #[trigger] stateful_set_applied(
                    facts,
                    at,
                    rollout::course(facts, replies)->Ok_0.update,
                ),
                RolloutStepView::ApplyDisruptionBudget,
            ),
        performs_before(
            facts,
            replies,
            RolloutStepView::ApplyDisruptionBudget,
            RolloutStepView::ApplyListener,
        ),
        performs_before(
            facts,
            replies,
            RolloutStepView::BuildListener,
            RolloutStepView::ApplyListener,
        ),
        performs_before(
            facts,
            replies,
            RolloutStepView::ApplyListener,
            RolloutStepView::DeleteOrphans,
        ),
        facts.reporting_task_enabled && "1."@.is_prefix_of(facts.product_version)
            ==> performs_before(
            facts,
            replies,
            RolloutStepView::ApplyListener,
            RolloutStepView::BuildReportingTask,
        ) && performs_before(
            facts,
            replies,
            RolloutStepView::BuildReportingTask,
            RolloutStepView::ApplyReportingTaskService,
        ) && performs_before(
            facts,
            replies,
            RolloutStepView::ApplyReportingTaskService,
            RolloutStepView::ApplyReportingTaskJob,
        ) && performs_before(
            facts,
            replies,
            RolloutStepView::ApplyReportingTaskJob,
            RolloutStepView::DeleteOrphans,
        ),
        performs(facts, replies, RolloutStepView::BuildReportingTask) || performs(
            facts,
            replies,
            RolloutStepView::ApplyReportingTaskService,
        ) || performs(facts, replies, RolloutStepView::ApplyReportingTaskJob)
            ==> facts.reporting_task_enabled && "1."@.is_prefix_of(facts.product_version),
{
    let n = facts.role_groups.len() as int;
    let update = rollout::course(facts, replies)->Ok_0.update;
    assert forall|at: int| 0 <= at < n implies performs_before(
        facts,
        replies,
        #[trigger] stateful_set_applied(facts, at, update),
        RolloutStepView::ApplyDisruptionBudget,
    ) by {
        assert((16 + 5 * at - 13) % 5 == 3);
        let (s, b) = lemma_both_passed(facts, replies, 16 + 5 * at, 12 + 5 * n);
        lemma_stateful_set(facts, replies, s, at);
        assert(performed(facts, replies, b) == RolloutStepView::ApplyDisruptionBudget);
    }
    lemma_performs_before(
        facts,
        replies,
        RolloutStepView::ApplyDisruptionBudget,
        RolloutStepView::ApplyListener,
    );
    lemma_performs_before(
        facts,
        replies,
        RolloutStepView::BuildListener,
        RolloutStepView::ApplyListener,
    );
    lemma_performs_before(
        facts,
        replies,
        RolloutStepView::ApplyListener,
        RolloutStepView::DeleteOrphans,
    );
    if facts.reporting_task_enabled && rollout::is_nifi_1(facts.product_version) {
        lemma_performs_before(
            facts,
            replies,
            RolloutStepView::ApplyListener,
            RolloutStepView::BuildReportingTask,
        );
        lemma_performs_before(
            facts,
            replies,
            RolloutStepView::BuildReportingTask,
            RolloutStepView::ApplyReportingTaskService,
        );
        lemma_performs_before(
            facts,
            replies,
            RolloutStepView::ApplyReportingTaskService,
            RolloutStepView::ApplyReportingTaskJob,
        );
        lemma_performs_before(
            facts,
            replies,
            RolloutStepView::ApplyReportingTaskJob,
            RolloutStepView::DeleteOrphans,
        );
    }
    assert forall|i: int| 0 <= i < replies.len() implies !(#[trigger] performed(facts, replies, i)
        is BuildReportingTask || performed(facts, replies, i) is ApplyReportingTaskService
        || performed(facts, replies, i) is ApplyReportingTaskJob) || (facts.reporting_task_enabled
        && rollout::is_nifi_1(facts.product_version)) by {
        lemma_reporting_task_is_wanted(facts, replies, i);
    }
}

/// The objects of the reporting task are handled only where they are wanted.
proof fn lemma_reporting_task_is_wanted(
    facts: RolloutFactsView,
    replies: Seq<RolloutReply>,
    i: int,
)
    requires
        0 <= i <= replies.len(),
        rollout::course(facts, replies).is_ok(),
    ensures
        performed(facts, replies, i) is BuildReportingTask || performed(
            facts,
            replies,
            i,
        ) is ApplyReportingTaskService || performed(facts, replies, i) is ApplyReportingTaskJob
            ==> facts.reporting_task_enabled && rollout::is_nifi_1(facts.product_version),
    decreases i,
{
    lemma_all_ok(facts, replies, i);
    if i > 0 {
        lemma_reporting_task_is_wanted(facts, replies, i - 1);
        lemma_all_ok(facts, replies, i - 1);
        assert(replies.take(i).drop_last() =~= replies.take(i - 1));
    }
}

/// The password of the single user is checked exactly where users are authenticated by OpenID
/// Connect: right after the authentication was checked, and before anything is applied.
pub proof fn law_admin_password_is_checked_for_oidc(
    facts: RolloutFactsView,
    replies: Seq<RolloutReply>,
    i: int,
)
    requires
        facts.role_groups.len() <= usize::MAX,
        rollout::course(facts, replies).is_ok(),
        0 <= i < replies.len(),
        performed(facts, replies, i) == RolloutStepView::CheckAuthentication,
    ensures
        performed(facts, replies, i + 1) == (if replies[i].uses_oidc {
            RolloutStepView::CheckAdminPassword
        } else {
            RolloutStepView::FindRequiredLabels
        }),
        performs(facts, replies, RolloutStepView::CheckAdminPassword) ==> replies[i].uses_oidc,
{
    lemma_all_ok(facts, replies, i);
    lemma_all_ok(facts, replies, i + 1);
    assert(replies.take(i + 1).drop_last() =~= replies.take(i));
    assert(replies.take(i + 1).last() == replies[i]);
    if performs(facts, replies, RolloutStepView::CheckAdminPassword) {
        let j = choose|j: int|
            0 <= j < replies.len() && #[trigger] performed(facts, replies, j)
                == RolloutStepView::CheckAdminPassword;
        lemma_all_ok(facts, replies, j);
        if j <= i {
            if j < i {
                lemma_in_order(facts, replies, j, i);
            }
        } else if j > i + 1 {
            lemma_in_order(facts, replies, i + 1, j);
        }
    }
}

/// A reconciliation that succeeds comes to its end: unless nodes are being stopped, the status is
/// updated, with the requested version or, while another version is requested, with the one before.
/// With nodes defined, no step is left after as many replies as there are steps.
pub proof fn law_reconciliation_comes_to_its_end(
    facts: RolloutFactsView,
    replies: Seq<RolloutReply>,
)
    requires
        facts.role_groups.len() <= usize::MAX,
        facts.nodes_defined,
        forall|i: int| 0 <= i < replies.len() ==> (#[trigger] replies[i]).succeeded,
    ensures
        rollout::course(facts, replies).is_ok(),
        replies.len() >= 20 + 5 * facts.role_groups.len() ==> rollout::course(
            facts,
            replies,
        )->Ok_0.step == RolloutStepView::AwaitChange,
        rollout::course(facts, replies)->Ok_0.step == RolloutStepView::AwaitChange
            && rollout::course(facts, replies)->Ok_0.update
            != ClusterVersionUpdateState::UpdateInProgress ==> performs(
            facts,
            replies,
            RolloutStepView::UpdateStatus {
                deployed_version: if rollout::course(facts, replies)->Ok_0.update
                    == ClusterVersionUpdateState::UpdateRequested {
                    match facts.status {
                        Some(status) => status.deployed_version,
                        None => None,
                    }
                } else {
                    Some(facts.product_version)
                },
            },
        ),
{
    let n = facts.role_groups.len() as int;
    lemma_successes_go_on(facts, replies);
    rollout::law_rollout_follows_the_update(facts, replies);
    let end = rollout::course(facts, replies)->Ok_0;
    if end.step == RolloutStepView::AwaitChange && end.update
        != ClusterVersionUpdateState::UpdateInProgress {
        let i = lemma_passed(facts, replies, 19 + 5 * n);
        assert(performed(facts, replies, i) is UpdateStatus);
        lemma_update_stays(facts, replies, i);
        rollout::law_rollout_follows_the_update(facts, replies.take(i));
    }
}

proof fn lemma_successes_go_on(facts: RolloutFactsView, replies: Seq<RolloutReply>)
    requires
        facts.role_groups.len() <= usize::MAX,
        facts.nodes_defined,
        forall|i: int| 0 <= i < replies.len() ==> (#[trigger] replies[i]).succeeded,
    ensures
        rollout::course(facts, replies).is_ok(),
        rollout::course(facts, replies)->Ok_0.step.place(facts.role_groups.len() as int)
            >= replies.len() || rollout::course(facts, replies)->Ok_0.step
            == RolloutStepView::AwaitChange,
    decreases replies.len(),
{
    if replies.len() > 0 {
        let front = replies.drop_last();
        assert forall|i: int| 0 <= i < front.len() implies (#[trigger] front[i]).succeeded by {
            assert(front[i] == replies[i]);
        }
        lemma_successes_go_on(facts, front);
        rollout::law_rollout_follows_the_update(facts, front);
        let before = rollout::course(facts, front)->Ok_0;
        assert(replies.last().succeeded);
        if before.step != RolloutStepView::AwaitChange {
            rollout::law_rollout_ends(before, facts, replies.last());
        }
    }
}

/// While nodes of another version are being stopped, a reconciliation applies nothing: it reads the
/// cluster, checks the key of the sensitive properties, asks how far the update has come, and
/// waits.
pub proof fn law_nothing_is_applied_while_nodes_stop(
    facts: RolloutFactsView,
    replies: Seq<RolloutReply>,
    i: int,
)
    requires
        facts.role_groups.len() <= usize::MAX,
        rollout::course(facts, replies).is_ok(),
        rollout::course(facts, replies)->Ok_0.update
            == ClusterVersionUpdateState::UpdateInProgress,
        0 <= i < replies.len(),
    ensures
        performed(facts, replies, i) is ReadCluster || performed(
            facts,
            replies,
            i,
        ) is CheckSensitiveKey || performed(facts, replies, i) is AskUpdateState || performed(
            facts,
            replies,
            i,
        ) is AwaitChange,
{
    let n = facts.role_groups.len() as int;
    lemma_all_ok(facts, replies, i);
    rollout::law_rollout_follows_the_update(facts, replies.take(i));
    if performed(facts, replies, i).place(n) > 2 {
        lemma_update_stays(facts, replies, i);
    }
}

/// A role group is built for the nodes that its StatefulSet is applied with, and its nodes are
/// replaced one by one exactly where the requested version and the deployed one are both 2.x.
pub proof fn law_role_groups_are_built_as_they_are_applied(
    facts: RolloutFactsView,
    replies: Seq<RolloutReply>,
    i: int,
)
    requires
        facts.role_groups.len() <= usize::MAX,
        rollout::course(facts, replies).is_ok(),
        0 <= i < replies.len(),
    ensures
        performed(facts, replies, i) matches RolloutStepView::BuildRoleGroup {
            at,
            replicas,
            rolling,
        } ==> at < facts.role_groups.len() && rolling == both_are_nifi_2(facts)
            && stateful_set_applied(
            facts,
            at as int,
            rollout::course(facts, replies)->Ok_0.update,
        ) == (RolloutStepView::ApplyStatefulSet { at, replicas }),
{
    lemma_all_ok(facts, replies, i);
    rollout::law_rollout_follows_the_update(facts, replies.take(i));
    if performed(facts, replies, i) is BuildRoleGroup {
        lemma_update_stays(facts, replies, i);
    }
}

/// A failed step ends the reconciliation with the error that says what failed, and of which role
/// group.
pub proof fn law_errors_name_what_failed(
    state: RolloutStateView,
    facts: RolloutFactsView,
    reply: RolloutReply,
)
    requires
        !reply.succeeded,
    ensures
        rollout::rollout(state, facts, reply).is_err(),
        ({
            let error = rollout::rollout(state, facts, reply)->Err_0;
            match state.step {
                RolloutStepView::ReadCluster => error is InvalidNifiCluster,
                RolloutStepView::CheckSensitiveKey
                | RolloutStepView::CheckAdminPassword => error is Security,
                RolloutStepView::AskUpdateState => error is ClusterVersionUpdateState,
                RolloutStepView::LoadProductConfig => error is ProductConfigLoadFailed,
                RolloutStepView::CreateClusterResources => error is CreateClusterResources,
                RolloutStepView::ResolveAuthentication =>
                    error is FailedResolveNifiAuthenticationConfig,
                RolloutStepView::CheckAuthentication => error is InvalidNifiAuthenticationConfig,
                RolloutStepView::FindRequiredLabels => error is GetRequiredLabels,
                RolloutStepView::BuildRbacResources => error is BuildRbacResources,
                RolloutStepView::ApplyServiceAccount => error is ApplyServiceAccount,
                RolloutStepView::ApplyRoleBinding => error is ApplyRoleBinding,
                RolloutStepView::BuildRoleGroup { at, .. } => error
                    == RolloutError::BuildRoleGroup { at },
                RolloutStepView::ApplyMetricsService { at }
                | RolloutStepView::ApplyHeadlessService { at } => error
                    == RolloutError::ApplyRoleGroupService { at },
                RolloutStepView::ApplyConfigMap { at } => error
                    == RolloutError::ApplyRoleGroupConfig { at },
                RolloutStepView::ApplyStatefulSet { at, .. } => error
                    == RolloutError::ApplyRoleGroupStatefulSet { at },
                RolloutStepView::ApplyDisruptionBudget => error is FailedToCreatePdb,
                RolloutStepView::BuildListener => error is ListenerConfiguration,
                RolloutStepView::ApplyListener => error is ApplyGroupListener,
                RolloutStepView::BuildReportingTask => error is ReportingTask,
                RolloutStepView::ApplyReportingTaskService =>
                    error is ApplyCreateReportingTaskService,
                RolloutStepView::ApplyReportingTaskJob => error is ApplyCreateReportingTaskJob,
                RolloutStepView::DeleteOrphans => error is DeleteOrphanedResources,
                RolloutStepView::UpdateStatus { .. } | RolloutStepView::AwaitChange => error
                    is StatusUpdate,
            }
        }),
{
}

/// A cluster without nodes is refused before anything is applied, and it is refused as such only
/// then.
pub proof fn law_clusters_need_nodes(facts: RolloutFactsView, replies: Seq<RolloutReply>)
    requires
        facts.role_groups.len() <= usize::MAX,
    ensures
        !facts.nodes_defined && rollout::course(facts, replies).is_ok() ==> !(rollout::course(
            facts,
            replies,
        )->Ok_0.step is UpdateStatus) && !(rollout::course(
            facts,
            replies,
        )->Ok_0.step is ApplyServiceAccount),
        rollout::course(facts, replies) == Err::<RolloutStateView, RolloutError>(
            RolloutError::NoNodesDefined,
        ) ==> !facts.nodes_defined,
    decreases replies.len(),
{
    if replies.len() > 0 {
        law_clusters_need_nodes(facts, replies.drop_last());
        if !facts.nodes_defined && rollout::course(facts, replies).is_ok() {
            lemma_no_nodes(facts, replies);
        }
        if rollout::course(facts, replies.drop_last()).is_ok() {
            let state = rollout::course(facts, replies.drop_last())->Ok_0;
            assert(state.step.error() != RolloutError::NoNodesDefined);
        }
    }
}

proof fn lemma_no_nodes(facts: RolloutFactsView, replies: Seq<RolloutReply>)
    requires
        !facts.nodes_defined,
        rollout::course(facts, replies).is_ok(),
    ensures
        rollout::course(facts, replies)->Ok_0.step is ReadCluster || rollout::course(
            facts,
            replies,
        )->Ok_0.step is CheckSensitiveKey || rollout::course(
            facts,
            replies,
        )->Ok_0.step is AskUpdateState || rollout::course(facts, replies)->Ok_0.step is AwaitChange,
    decreases replies.len(),
{
    if replies.len() > 0 {
        lemma_no_nodes(facts, replies.drop_last());
    }
}

} // verus!
