//! Which of the settings of a role group, of its role and of the operator count.

use crate::crd;
use crate::crd::{
    LoggingFragmentView, NifiClusterView, NifiConfigFragmentView, NifiConfigView, NifiRole,
    PvcConfigView,
};
use crate::kubernetes::StackableAffinityView;
use vstd::prelude::*;

verus! {

/// Whether a value is the one of the role group where it sets one, else the one of the role where
/// it sets one, else the default.
pub open spec fn is_most_specific<V>(
    value: Option<V>,
    role_group: Option<V>,
    role: Option<V>,
    default: Option<V>,
) -> bool {
    &&& role_group.is_some() ==> value == role_group
    &&& role_group.is_none() && role.is_some() ==> value == role
    &&& role_group.is_none() && role.is_none() ==> value == default
}

/// The same of each setting of a volume, whose only default is its capacity.
pub open spec fn volume_is_most_specific(
    value: PvcConfigView,
    role_group: PvcConfigView,
    role: PvcConfigView,
    default_capacity: Option<Seq<char>>,
) -> bool {
    &&& is_most_specific(
        value.capacity,
        role_group.capacity,
        role.capacity,
        default_capacity,
    )
    &&& is_most_specific(
        value.storage_class,
        role_group.storage_class,
        role.storage_class,
        None,
    )
    &&& is_most_specific(value.selectors, role_group.selectors, role.selectors, None)
}

/// The settings of a role group once they are merged and complete.
pub open spec fn settings_of(
    nifi: NifiClusterView,
    role: NifiRole,
    role_group: Seq<char>,
    logging: LoggingFragmentView,
) -> NifiConfigView {
    crd::complete_settings(nifi.merged_settings(role, role_group), logging)
}

/// Whether settings are the most specific ones, one by one. The defaults are half a processor up to
/// two, four gibibytes of memory, five volumes, five minutes to shut down and certificates for a
/// day.
pub open spec fn settings_are_most_specific(
    value: NifiConfigView,
    role_group: NifiConfigFragmentView,
    role: NifiConfigFragmentView,
) -> bool {
    let (v, g, r) = (value.resources, role_group.resources, role.resources);
    &&& is_most_specific(v.cpu_min, g.cpu_min, r.cpu_min, Some("500m"@))
    &&& is_most_specific(v.cpu_max, g.cpu_max, r.cpu_max, Some("2000m"@))
    &&& is_most_specific(v.memory_limit, g.memory_limit, r.memory_limit, Some("4096Mi"@))
    &&& volume_is_most_specific(
        v.storage.flowfile_repo,
        g.storage.flowfile_repo,
        r.storage.flowfile_repo,
        Some("1024Mi"@),
    )
    &&& volume_is_most_specific(
        v.storage.provenance_repo,
        g.storage.provenance_repo,
        r.storage.provenance_repo,
        Some("2048Mi"@),
    )
    &&& volume_is_most_specific(
        v.storage.database_repo,
        g.storage.database_repo,
        r.storage.database_repo,
        Some("1024Mi"@),
    )
    &&& volume_is_most_specific(
        v.storage.content_repo,
        g.storage.content_repo,
        r.storage.content_repo,
        Some("4096Mi"@),
    )
    &&& volume_is_most_specific(
        v.storage.state_repo,
        g.storage.state_repo,
        r.storage.state_repo,
        Some("1024Mi"@),
    )
    &&& volume_is_most_specific(
        v.storage.filebased_repo,
        g.storage.filebased_repo,
        r.storage.filebased_repo,
        None,
    )
    &&& is_most_specific(
        value.graceful_shutdown_timeout_seconds,
        role_group.graceful_shutdown_timeout_seconds,
        role.graceful_shutdown_timeout_seconds,
        Some(300u64),
    )
    &&& is_most_specific(
        value.requested_secret_lifetime_seconds,
        role_group.requested_secret_lifetime_seconds,
        role.requested_secret_lifetime_seconds,
        Some(86400u64),
    )
}

/// Whether an affinity is the most specific one, part by part. By default nothing is asked for but
/// that the pods of the role avoid each other.
pub open spec fn affinity_is_most_specific(
    value: StackableAffinityView,
    role_group: StackableAffinityView,
    role: StackableAffinityView,
    default: StackableAffinityView,
) -> bool {
    &&& is_most_specific(value.pod_affinity, role_group.pod_affinity, role.pod_affinity, None)
    &&& is_most_specific(
        value.pod_anti_affinity,
        role_group.pod_anti_affinity,
        role.pod_anti_affinity,
        default.pod_anti_affinity,
    )
    &&& is_most_specific(value.node_affinity, role_group.node_affinity, role.node_affinity, None)
    &&& is_most_specific(value.node_selector, role_group.node_selector, role.node_selector, None)
}

/// Every setting of a role group is its own where the user sets it there, else the one of the role
/// where the user sets it there, else the default. The logging settings, which come merged, stay.
pub proof fn law_more_specific_settings_win(
    nifi: NifiClusterView,
    role: NifiRole,
    role_group: Seq<char>,
    logging: LoggingFragmentView,
)
    requires
        nifi.spec.nodes.is_some(),
        nifi.spec.nodes.unwrap().role_groups.dom().contains(role_group),
        logging.enable_vector_agent.is_some(),
    ensures
        settings_are_most_specific(
            settings_of(nifi, role, role_group, logging),
            nifi.spec.nodes.unwrap().role_groups[role_group].config,
            nifi.spec.nodes.unwrap().config,
        ),
        affinity_is_most_specific(
            settings_of(nifi, role, role_group, logging).affinity,
            nifi.spec.nodes.unwrap().role_groups[role_group].config.affinity,
            nifi.spec.nodes.unwrap().config.affinity,
            crd::default_settings(nifi.name_or_empty(), role).affinity,
        ),
        logging.enable_vector_agent == Some(
            settings_of(nifi, role, role_group, logging).logging.enable_vector_agent,
        ),
        settings_of(nifi, role, role_group, logging).logging.containers == logging.containers,
{
}

/// A role group that is not defined has the settings of the role, and the defaults where it sets
/// none.
pub proof fn law_settings_of_the_role_reach_other_groups(
    nifi: NifiClusterView,
    role: NifiRole,
    role_group: Seq<char>,
    logging: LoggingFragmentView,
)
    requires
        nifi.spec.nodes.is_some(),
        !nifi.spec.nodes.unwrap().role_groups.dom().contains(role_group),
        logging.enable_vector_agent.is_some(),
    ensures
        settings_are_most_specific(
            settings_of(nifi, role, role_group, logging),
            nifi.spec.nodes.unwrap().config,
            nifi.spec.nodes.unwrap().config,
        ),
{
}

/// By default the pods of a role prefer machines on which no pod of the same role of the same
/// cluster runs: they avoid exactly the pods with the labels of the role.
pub proof fn law_pods_avoid_each_other(cluster_name: Seq<char>, role: NifiRole)
    ensures
        ({
            let affinity = crd::default_settings(cluster_name, role).affinity;
            let terms = affinity.pod_anti_affinity.unwrap()
                .preferred_during_scheduling_ignored_during_execution.unwrap();
            &&& affinity.pod_anti_affinity.is_some()
            &&& affinity.pod_affinity.is_none() && affinity.node_affinity.is_none()
                && affinity.node_selector.is_none()
            &&& affinity.pod_anti_affinity.unwrap()
                .preferred_during_scheduling_ignored_during_execution.is_some()
            &&& terms.len() == 1
            &&& terms[0].weight == 70
            &&& terms[0].topology_key == "kubernetes.io/hostname"@
            &&& terms[0].match_labels.dom() == set![
                "app.kubernetes.io/name"@,
                "app.kubernetes.io/instance"@,
                "app.kubernetes.io/component"@,
            ]
            &&& terms[0].match_labels["app.kubernetes.io/name"@] == "nifi"@
            &&& terms[0].match_labels["app.kubernetes.io/instance"@] == cluster_name
            &&& terms[0].match_labels["app.kubernetes.io/component"@] == "node"@
        }),
{
    reveal_strlit("app.kubernetes.io/name");
    reveal_strlit("app.kubernetes.io/instance");
    reveal_strlit("app.kubernetes.io/component");
    assert("app.kubernetes.io/name"@.len() == 22);
    assert("app.kubernetes.io/instance"@.len() == 26);
    assert("app.kubernetes.io/component"@.len() == 27);
    let labels = crd::default_settings(
        cluster_name,
        role,
    ).affinity.pod_anti_affinity.unwrap().preferred_during_scheduling_ignored_during_execution.unwrap()[
        0
    ].match_labels;
    assert(labels.dom() =~= set![
        "app.kubernetes.io/name"@,
        "app.kubernetes.io/instance"@,
        "app.kubernetes.io/component"@,
    ]);
}

} // verus!
