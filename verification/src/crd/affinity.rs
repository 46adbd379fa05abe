//! Where the pods of a cluster are scheduled by default.

use crate::crd::{NifiRole, APP_NAME};
use crate::kubernetes::{
    PodAntiAffinity, PodAntiAffinityView, StackableAffinity, StackableAffinityView,
    WeightedPodAffinityTerm, WeightedPodAffinityTermView,
};
use crate::list::list_of;
use crate::ordered_map::{OrderedMap, StringMap};
use vstd::prelude::*;

verus! {

/// The weight with which the pods of a role avoid each other.
pub const ROLE_ANTI_AFFINITY_WEIGHT: i32 = 70;

/// The label that two nodes have to differ in.
pub const TOPOLOGY_KEY_HOSTNAME: &'static str = "kubernetes.io/hostname";

/// The labels of the pods of a role.
pub open spec fn role_pod_labels(
    app_name: Seq<char>,
    cluster_name: Seq<char>,
    role: Seq<char>,
) -> Map<Seq<char>, Seq<char>> {
    Map::empty().insert("app.kubernetes.io/name"@, app_name).insert(
        "app.kubernetes.io/instance"@,
        cluster_name,
    ).insert("app.kubernetes.io/component"@, role)
}

/// The default affinity: the pods of a role prefer nodes on which none of them runs.
pub open spec fn default_affinity(
    app_name: Seq<char>,
    cluster_name: Seq<char>,
    role: Seq<char>,
) -> StackableAffinityView {
    StackableAffinityView {
        pod_affinity: None,
        pod_anti_affinity: Some(
            PodAntiAffinityView {
                preferred_during_scheduling_ignored_during_execution: Some(
                    seq![
                        WeightedPodAffinityTermView {
                            weight: ROLE_ANTI_AFFINITY_WEIGHT,
                            match_labels: role_pod_labels(app_name, cluster_name, role),
                            topology_key: TOPOLOGY_KEY_HOSTNAME@,
                        },
                    ],
                ),
            },
        ),
        node_affinity: None,
        node_selector: None,
    }
}

/// The labels that all pods of a role carry.
pub fn labels_of_role_pods(app_name: &str, cluster_name: &str, role: &str) -> (labels: StringMap)
    ensures
        labels@ == role_pod_labels(app_name@, cluster_name@, role@),
{
    let mut labels: StringMap = OrderedMap::new();
    labels.put("app.kubernetes.io/name", app_name);
    labels.put("app.kubernetes.io/instance", cluster_name);
    labels.put("app.kubernetes.io/component", role);
    labels
}

/// A preference against nodes on which pods of the role run already.
pub fn affinity_between_role_pods(
    app_name: &str,
    cluster_name: &str,
    role: &str,
    weight: i32,
) -> (term: WeightedPodAffinityTerm)
    ensures
        term.deep_view() == (WeightedPodAffinityTermView {
            weight,
            match_labels: role_pod_labels(app_name@, cluster_name@, role@),
            topology_key: TOPOLOGY_KEY_HOSTNAME@,
        }),
{
    WeightedPodAffinityTerm {
        weight,
        match_labels: labels_of_role_pods(app_name, cluster_name, role),
        topology_key: TOPOLOGY_KEY_HOSTNAME.to_owned(),
    }
}

/// The affinity of the pods of a role, unless the user asks for another one.
pub fn get_affinity(cluster_name: &str, role: &NifiRole) -> (affinity: StackableAffinity)
    ensures
        affinity.deep_view() == default_affinity(APP_NAME@, cluster_name@, role.text()),
{
    let term = affinity_between_role_pods(
        APP_NAME,
        cluster_name,
        role.as_str(),
        ROLE_ANTI_AFFINITY_WEIGHT,
    );
    StackableAffinity {
        pod_affinity: None,
        pod_anti_affinity: Some(
            PodAntiAffinity {
                preferred_during_scheduling_ignored_during_execution: Some(list_of(term)),
            },
        ),
        node_affinity: None,
        node_selector: None,
    }
}

} // verus!
