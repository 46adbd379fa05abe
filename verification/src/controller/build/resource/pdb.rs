//! The PodDisruptionBudget of a role.

use crate::controller;
use crate::controller::{object_meta, role_selector, ValidatedCluster, ValidatedClusterView};
use crate::crd::{NifiRole, PdbConfig};
use crate::kubernetes::{PodDisruptionBudget, PodDisruptionBudgetView};
use crate::text::concat3;
use vstd::prelude::*;

verus! {

/// How many nodes may be missing at a time, unless the user says otherwise.
pub fn max_unavailable_nodes() -> (count: u16)
    ensures
        count == 1,
{
    1
}

/// The budget of a role.
pub open spec fn disruption_budget(
    cluster: ValidatedClusterView,
    role: NifiRole,
    max_unavailable: u16,
) -> PodDisruptionBudgetView {
    PodDisruptionBudgetView {
        metadata: controller::owned_metadata(
            cluster,
            cluster.name + "-"@ + role.text(),
            controller::recommended_label_set(
                cluster.name,
                cluster.product_version,
                role.text(),
                controller::NO_ROLE_OR_GROUP@,
            ),
        ),
        max_unavailable: Some(max_unavailable),
        selector: controller::role_selector_labels(cluster.name, role.text()),
    }
}

/// The budget of a role, or none if budgets are disabled.
pub fn build_pdb(pdb: &PdbConfig, cluster: &ValidatedCluster, role: &NifiRole) -> (budget: Option<
    PodDisruptionBudget,
>)
    ensures
        budget.deep_view() == (if pdb.enabled {
            Some(
                disruption_budget(
                    cluster.deep_view(),
                    *role,
                    match pdb.max_unavailable {
                        Some(count) => count,
                        None => 1,
                    },
                ),
            )
        } else {
            None
        }),
{
    if !pdb.enabled {
        return None;
    }
    let max_unavailable: u16 = match pdb.max_unavailable {
        Some(count) => count,
        None => match role {
            NifiRole::Node => max_unavailable_nodes(),
        },
    };
    let name = concat3(cluster.name.as_str(), "-", role.as_str());
    let labels = cluster.recommended_labels_for(role.as_str(), controller::NO_ROLE_OR_GROUP);
    Some(
        PodDisruptionBudget {
            metadata: object_meta(cluster, name, labels),
            max_unavailable: Some(max_unavailable),
            selector: role_selector(cluster.name.as_str(), role.as_str()),
        },
    )
}

} // verus!
