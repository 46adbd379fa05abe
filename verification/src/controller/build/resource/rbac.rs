//! The objects that give the pods of a cluster their permissions.

use crate::controller;
use crate::controller::{object_meta, ValidatedCluster, ValidatedClusterView};
use crate::crd::APP_NAME;
use crate::kubernetes::{
    ObjectMetaView, RoleBinding, RoleBindingView, ServiceAccount, ServiceAccountView,
};
use vstd::prelude::*;

verus! {

/// The metadata of an object that all role groups share.
pub open spec fn shared_metadata(cluster: ValidatedClusterView, name: Seq<char>) -> ObjectMetaView {
    controller::owned_metadata(
        cluster,
        name,
        controller::recommended_label_set(
            cluster.name,
            cluster.product_version,
            controller::NO_ROLE_OR_GROUP@,
            controller::NO_ROLE_OR_GROUP@,
        ),
    )
}

/// The account of all pods.
pub open spec fn service_account(cluster: ValidatedClusterView) -> ServiceAccountView {
    ServiceAccountView { metadata: shared_metadata(cluster, cluster.name + "-serviceaccount"@) }
}

/// The permissions of that account.
pub open spec fn role_binding(cluster: ValidatedClusterView) -> RoleBindingView {
    RoleBindingView {
        metadata: shared_metadata(cluster, cluster.name + "-rolebinding"@),
        cluster_role_name: APP_NAME@ + "-clusterrole"@,
        service_account_name: cluster.name + "-serviceaccount"@,
    }
}

/// Builds the account of all pods.
pub fn build_service_account(cluster: &ValidatedCluster) -> (account: ServiceAccount)
    ensures
        account.deep_view() == service_account(cluster.deep_view()),
{
    let names = cluster.rbac_resource_names();
    ServiceAccount {
        metadata: object_meta(
            cluster,
            names.service_account_name(),
            cluster.cluster_shared_recommended_labels(),
        ),
    }
}

/// Builds what binds the account to the ClusterRole of the operator.
pub fn build_role_binding(cluster: &ValidatedCluster) -> (binding: RoleBinding)
    ensures
        binding.deep_view() == role_binding(cluster.deep_view()),
{
    let names = cluster.rbac_resource_names();
    RoleBinding {
        metadata: object_meta(
            cluster,
            names.role_binding_name(),
            cluster.cluster_shared_recommended_labels(),
        ),
        cluster_role_name: names.cluster_role_name(),
        service_account_name: names.service_account_name(),
    }
}

} // verus!
