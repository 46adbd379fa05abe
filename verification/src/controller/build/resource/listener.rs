//! The Listener through which users reach a cluster.

use crate::contents::Copied;
use crate::controller;
use crate::controller::{object_meta, ValidatedCluster, ValidatedClusterView};
use crate::crd::{NifiRole, HTTPS_PORT, HTTPS_PORT_NAME};
use crate::kubernetes::{
    Listener, ListenerPort, ListenerPortView, ListenerView, VolumeClaimTemplate,
    VolumeClaimTemplateView,
};
use crate::list::list_of;
use crate::ordered_map::StringMap;
use crate::text::concat3;
use vstd::prelude::*;

verus! {

/// Where the addresses of the listener are mounted.
pub const LISTENER_VOLUME_DIR: &'static str = "/stackable/listener";

/// The volume with the addresses of the listener.
pub const LISTENER_PVC_NAME: &'static str = "listener";

/// The name of the listener of a role.
pub open spec fn listener_name(cluster_name: Seq<char>, role_name: Seq<char>) -> Seq<char> {
    cluster_name + "-"@ + role_name
}

/// The listener of the node role.
pub open spec fn group_listener(
    cluster: ValidatedClusterView,
    listener_class: Seq<char>,
    listener_group_name: Seq<char>,
) -> ListenerView {
    ListenerView {
        metadata: controller::owned_metadata(
            cluster,
            listener_group_name,
            controller::recommended_label_set(
                cluster.name,
                cluster.product_version,
                NifiRole::Node.text(),
                controller::NO_ROLE_OR_GROUP@,
            ),
        ),
        class_name: Some(listener_class),
        ports: seq![
            ListenerPortView {
                name: HTTPS_PORT_NAME@,
                port: HTTPS_PORT as i32,
                protocol: Some("TCP"@),
            },
        ],
    }
}

/// Builds the listener of the node role. It belongs to the role and not to a role group, so its
/// labels name no role group.
pub fn build_group_listener(
    cluster: &ValidatedCluster,
    listener_class: &str,
    listener_group_name: &str,
) -> (listener: Listener)
    ensures
        listener.deep_view() == group_listener(
            cluster.deep_view(),
            listener_class@,
            listener_group_name@,
        ),
{
    let labels = cluster.recommended_labels_for(
        NifiRole::Node.as_str(),
        controller::NO_ROLE_OR_GROUP,
    );
    Listener {
        metadata: object_meta(cluster, listener_group_name.to_owned(), labels),
        class_name: Some(listener_class.to_owned()),
        ports: list_of(
            ListenerPort {
                name: HTTPS_PORT_NAME.to_owned(),
                port: HTTPS_PORT as i32,
                protocol: Some("TCP".to_owned()),
            },
        ),
    }
}

/// Builds the claim of the volume through which pods join the listener. Its labels must not change
/// after deployment.
pub fn build_group_listener_pvc(
    group_listener_name: &str,
    unversioned_recommended_labels: &StringMap,
) -> (claim: VolumeClaimTemplate)
    ensures
        claim.deep_view() == (VolumeClaimTemplateView::Listener {
            name: LISTENER_PVC_NAME@,
            listener_name: group_listener_name@,
            labels: unversioned_recommended_labels@,
        }),
{
    VolumeClaimTemplate::Listener {
        name: LISTENER_PVC_NAME.to_owned(),
        listener_name: group_listener_name.to_owned(),
        labels: unversioned_recommended_labels.copied(),
    }
}

/// The name of the listener of a role.
pub fn group_listener_name(cluster: &ValidatedCluster, role_name: &str) -> (name: String)
    ensures
        name@ == listener_name(cluster.deep_view().name, role_name@),
{
    concat3(cluster.name.as_str(), "-", role_name)
}

} // verus!
