//! Builder for `state-management.xml`.

use crate::crd::storage::NifiRepository;
use crate::crd::{NifiClusteringBackend, NifiClusteringBackendView};
use crate::text::concat3;
use vstd::prelude::*;

verus! {

/// The provider of state that stays on a node.
pub const LOCAL_STATE_PROVIDER_ID: &'static str = "local-provider";

/// The provider of shared state in ZooKeeper.
pub const ZOOKEEPER_STATE_PROVIDER_ID: &'static str = "zk-provider";

/// The provider of shared state in Kubernetes.
pub const KUBERNETES_STATE_PROVIDER_ID: &'static str = "kubernetes-provider";

/// What stands before the identifier of a provider.
pub const ID_START: &'static str = "<id>";

/// What stands after the identifier of a provider.
pub const ID_END: &'static str = "</id>";

/// The provider of shared state up to its identifier.
pub const CLUSTER_PROVIDER_START: &'static str = r#"<cluster-provider>
              "#;

/// The provider of shared state in ZooKeeper after its identifier.
pub const ZOOKEEPER_PROVIDER_SETTINGS: &'static str = r#"
              <class>org.apache.nifi.controller.state.providers.zookeeper.ZooKeeperStateProvider</class>
              <property name="Connect String">${env:ZOOKEEPER_HOSTS}</property>
              <property name="Root Node">${env:ZOOKEEPER_CHROOT}</property>
              <property name="Session Timeout">10 seconds</property>
              <property name="Access Control">Open</property>
            </cluster-provider>"#;

/// The provider of shared state in Kubernetes after its identifier.
pub const KUBERNETES_PROVIDER_SETTINGS: &'static str = r#"
              <class>org.apache.nifi.kubernetes.state.provider.KubernetesConfigMapStateProvider</class>
              <property name="ConfigMap Name Prefix">${env:STACKLET_NAME}</property>
            </cluster-provider>"#;

/// The file up to the identifier of the provider of local state.
pub const STATE_MANAGEMENT_START: &'static str = r#"<?xml version="1.0" encoding="UTF-8" standalone="yes"?>
        <stateManagement>
          <local-provider>
            "#;

/// The file from the provider of local state to its directory.
pub const STATE_MANAGEMENT_UP_TO_DIRECTORY: &'static str = r#"
            <class>org.apache.nifi.controller.state.providers.local.WriteAheadLocalStateProvider</class>
            <property name="Directory">"#;

/// The file from the directory of the local state to the provider of shared state.
pub const STATE_MANAGEMENT_UP_TO_CLUSTER_PROVIDER: &'static str = r#"</property>
            <property name="Always Sync">false</property>
            <property name="Partitions">16</property>
            <property name="Checkpoint Interval">2 mins</property>
          </local-provider>
          "#;

/// The file after the provider of shared state.
pub const STATE_MANAGEMENT_END: &'static str = r#"
        </stateManagement>"#;

/// The element that names a provider.
pub open spec fn identifier(id: Seq<char>) -> Seq<char> {
    ID_START@ + id + ID_END@
}

impl NifiClusteringBackendView {
    /// The identifier of the provider of shared state.
    pub open spec fn state_provider_id(self) -> Seq<char> {
        match self {
            NifiClusteringBackendView::ZooKeeper { .. } => ZOOKEEPER_STATE_PROVIDER_ID@,
            NifiClusteringBackendView::Kubernetes => KUBERNETES_STATE_PROVIDER_ID@,
        }
    }

    /// The provider of shared state.
    pub open spec fn state_provider(self) -> Seq<char> {
        CLUSTER_PROVIDER_START@ + identifier(self.state_provider_id()) + (match self {
            NifiClusteringBackendView::ZooKeeper { .. } => ZOOKEEPER_PROVIDER_SETTINGS@,
            NifiClusteringBackendView::Kubernetes => KUBERNETES_PROVIDER_SETTINGS@,
        })
    }
}

impl NifiClusteringBackend {
    /// The identifier of the provider of shared state.
    pub fn cluster_state_provider_id(&self) -> (id: &'static str)
        ensures
            id@ == self.deep_view().state_provider_id(),
    {
        match self {
            NifiClusteringBackend::ZooKeeper { .. } => ZOOKEEPER_STATE_PROVIDER_ID,
            NifiClusteringBackend::Kubernetes => KUBERNETES_STATE_PROVIDER_ID,
        }
    }
}

/// The whole file.
pub open spec fn state_management_file(backend: NifiClusteringBackendView) -> Seq<char> {
    STATE_MANAGEMENT_START@ + identifier(LOCAL_STATE_PROVIDER_ID@)
        + STATE_MANAGEMENT_UP_TO_DIRECTORY@ + NifiRepository::State.directory()
        + STATE_MANAGEMENT_UP_TO_CLUSTER_PROVIDER@ + backend.state_provider()
        + STATE_MANAGEMENT_END@
}

/// Builds the file. NiFi ignores providers that are not used, but resolving their references to
/// environment variables still fails, so only the provider that is used stands in it.
pub fn build(clustering_backend: &NifiClusteringBackend) -> (xml: String)
    ensures
        xml@ == state_management_file(clustering_backend.deep_view()),
{
    let settings: &str = match clustering_backend {
        NifiClusteringBackend::ZooKeeper { .. } => ZOOKEEPER_PROVIDER_SETTINGS,
        NifiClusteringBackend::Kubernetes => KUBERNETES_PROVIDER_SETTINGS,
    };
    let local_id = concat3(ID_START, LOCAL_STATE_PROVIDER_ID, ID_END);
    let cluster_id = concat3(ID_START, clustering_backend.cluster_state_provider_id(), ID_END);
    let cluster_provider = concat3(CLUSTER_PROVIDER_START, cluster_id.as_str(), settings);
    let local_state_path = NifiRepository::State.mount_path();
    STATE_MANAGEMENT_START.to_owned().concat(local_id.as_str()).concat(
        STATE_MANAGEMENT_UP_TO_DIRECTORY,
    ).concat(local_state_path.as_str()).concat(STATE_MANAGEMENT_UP_TO_CLUSTER_PROVIDER).concat(
        cluster_provider.as_str(),
    ).concat(STATE_MANAGEMENT_END)
}

} // verus!
