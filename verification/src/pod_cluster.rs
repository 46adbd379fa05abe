//! Clusters whose pods the operator places on nodes by itself.

use crate::contents::{Copied, SameContents};

use crate::ordered_map::OrderedMap;
use crate::text;
use crate::text::number_text;
use vstd::prelude::*;

pub mod contents;
pub mod monitoring;
pub mod pod_utils;
pub mod state;

verus! {

pub const APP_NAME: &'static str = "nifi";

pub const MANAGED_BY: &'static str = "nifi-operator";

pub const NIFI_WEB_HTTP_PORT: &'static str = "nifi.web.http.port";

pub const NIFI_CLUSTER_NODE_PROTOCOL_PORT: &'static str = "nifi.cluster.node.protocol.port";

pub const NIFI_CLUSTER_LOAD_BALANCE_PORT: &'static str = "nifi.cluster.load.balance.port";

/// The versions of NiFi that can be run.
#[allow(non_camel_case_types)]
#[derive(Clone, Copy, Debug, PartialEq, Eq, Structural)]
pub enum NifiVersion {
    v1_13_2,
}

impl DeepView for NifiVersion {
    type V = NifiVersion;

    open spec fn deep_view(&self) -> NifiVersion {
        *self
    }
}

impl Copied for NifiVersion {
    fn copied(&self) -> (copy: NifiVersion) {
        *self
    }
}

impl SameContents for NifiVersion {
    fn same(&self, other: &NifiVersion) -> (same: bool) {
        *self == *other
    }
}

impl NifiVersion {
    /// The text that stands for the value.
    pub open spec fn text(self) -> Seq<char> {
        match self {
            NifiVersion::v1_13_2 => "1.13.2"@,
        }
    }

    /// The text that stands for the value.
    pub fn as_str(&self) -> (text: &'static str)
        ensures
            text@ == self.text(),
    {
        match self {
            NifiVersion::v1_13_2 => "1.13.2",
        }
    }
}

/// The roles of a cluster.
#[derive(Clone, Copy, Debug, PartialEq, Eq, Structural)]
pub enum NifiRole {
    Node,
}

impl DeepView for NifiRole {
    type V = NifiRole;

    open spec fn deep_view(&self) -> NifiRole {
        *self
    }
}

impl Copied for NifiRole {
    fn copied(&self) -> (copy: NifiRole) {
        *self
    }
}

impl SameContents for NifiRole {
    fn same(&self, other: &NifiRole) -> (same: bool) {
        *self == *other
    }
}

impl NifiRole {
    /// The text that stands for the value.
    pub open spec fn text(self) -> Seq<char> {
        match self {
            NifiRole::Node => "node"@,
        }
    }

    /// The text that stands for the value.
    pub fn as_str(&self) -> (text: &'static str)
        ensures
            text@ == self.text(),
    {
        match self {
            NifiRole::Node => "node",
        }
    }
}

/// The ZooKeeper that manages a cluster.
#[derive(Debug, PartialEq, Eq)]
pub struct ZookeeperReference {
    pub name: String,
    pub namespace: String,
    /// The path under which NiFi keeps its data.
    pub chroot: Option<String>,
}

/// The contents of a [`ZookeeperReference`].
#[verifier::ext_equal]
pub struct ZookeeperReferenceView {
    pub name: Seq<char>,
    pub namespace: Seq<char>,
    pub chroot: Option<Seq<char>>,
}

impl DeepView for ZookeeperReference {
    type V = ZookeeperReferenceView;

    open spec fn deep_view(&self) -> ZookeeperReferenceView {
        ZookeeperReferenceView {
            name: self.name.deep_view(),
            namespace: self.namespace.deep_view(),
            chroot: self.chroot.deep_view(),
        }
    }
}

impl Copied for ZookeeperReference {
    fn copied(&self) -> (copy: ZookeeperReference) {
        ZookeeperReference {
            name: self.name.copied(),
            namespace: self.namespace.copied(),
            chroot: self.chroot.copied(),
        }
    }
}

/// The settings of the node role.
#[derive(Debug, PartialEq, Eq)]
pub struct NifiConfig {
    pub http_port: Option<u16>,
    pub protocol_port: Option<u16>,
    pub load_balance_port: Option<u16>,
}

/// The contents of a [`NifiConfig`].
#[verifier::ext_equal]
pub struct NifiConfigView {
    pub http_port: Option<u16>,
    pub protocol_port: Option<u16>,
    pub load_balance_port: Option<u16>,
}

impl DeepView for NifiConfig {
    type V = NifiConfigView;

    open spec fn deep_view(&self) -> NifiConfigView {
        NifiConfigView {
            http_port: self.http_port.deep_view(),
            protocol_port: self.protocol_port.deep_view(),
            load_balance_port: self.load_balance_port.deep_view(),
        }
    }
}

impl Copied for NifiConfig {
    fn copied(&self) -> (copy: NifiConfig) {
        NifiConfig {
            http_port: self.http_port.copied(),
            protocol_port: self.protocol_port.copied(),
            load_balance_port: self.load_balance_port.copied(),
        }
    }
}

/// What the user wants of a cluster.
#[derive(Debug, PartialEq, Eq)]
pub struct NifiSpec {
    pub version: NifiVersion,
    pub zookeeper_reference: ZookeeperReference,
    /// The port at which metrics are offered.
    pub metrics_port: Option<u16>,
}

/// The contents of a [`NifiSpec`].
#[verifier::ext_equal]
pub struct NifiSpecView {
    pub version: NifiVersion,
    pub zookeeper_reference: ZookeeperReferenceView,
    pub metrics_port: Option<u16>,
}

impl DeepView for NifiSpec {
    type V = NifiSpecView;

    open spec fn deep_view(&self) -> NifiSpecView {
        NifiSpecView {
            version: self.version.deep_view(),
            zookeeper_reference: self.zookeeper_reference.deep_view(),
            metrics_port: self.metrics_port.deep_view(),
        }
    }
}

impl Copied for NifiSpec {
    fn copied(&self) -> (copy: NifiSpec) {
        NifiSpec {
            version: self.version.copied(),
            zookeeper_reference: self.zookeeper_reference.copied(),
            metrics_port: self.metrics_port.copied(),
        }
    }
}

/// The settings with a port, where it is set.
pub open spec fn with_port(
    settings: Map<Seq<char>, Option<Seq<char>>>,
    key: Seq<char>,
    port: Option<u16>,
) -> Map<Seq<char>, Option<Seq<char>>> {
    match port {
        Some(port) => settings.insert(key, Some(text::decimal(port as nat))),
        None => settings,
    }
}

/// Sets a port, where there is one.
fn add_port(settings: &mut OrderedMap<Option<String>>, key: &str, port: Option<u16>)
    ensures
        final(settings)@ == with_port(old(settings)@, key@, port),
{
    if let Some(port) = port {
        settings.insert(key, Some(number_text(port as u64)));
    }
}

impl NifiConfig {
    /// The properties that follow from the settings.
    pub open spec fn file_settings(self) -> Map<Seq<char>, Option<Seq<char>>> {
        with_port(
            with_port(
                with_port(Map::empty(), NIFI_WEB_HTTP_PORT@, self.http_port),
                NIFI_CLUSTER_NODE_PROTOCOL_PORT@,
                self.protocol_port,
            ),
            NIFI_CLUSTER_LOAD_BALANCE_PORT@,
            self.load_balance_port,
        )
    }

    /// The environment variables that follow from the settings: none.
    pub fn compute_env(&self) -> (settings: OrderedMap<Option<String>>)
        ensures
            settings@ == Map::<Seq<char>, Option<Seq<char>>>::empty(),
    {
        OrderedMap::new()
    }

    /// The command line arguments that follow from the settings: none.
    pub fn compute_cli(&self) -> (settings: OrderedMap<Option<String>>)
        ensures
            settings@ == Map::<Seq<char>, Option<Seq<char>>>::empty(),
    {
        OrderedMap::new()
    }

    /// The properties that follow from the settings, of whatever file.
    pub fn compute_files(&self) -> (settings: OrderedMap<Option<String>>)
        ensures
            settings@ == self.file_settings(),
    {
        let mut settings: OrderedMap<Option<String>> = OrderedMap::new();
        add_port(&mut settings, NIFI_WEB_HTTP_PORT, self.http_port);
        add_port(&mut settings, NIFI_CLUSTER_NODE_PROTOCOL_PORT, self.protocol_port);
        add_port(&mut settings, NIFI_CLUSTER_LOAD_BALANCE_PORT, self.load_balance_port);
        settings
    }
}

} // verus!
