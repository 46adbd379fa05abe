//! The files of a cluster that ZooKeeper manages.

use crate::contents::Copied;
use crate::controller::build::jvm::JVM_SECURITY_PROPERTIES_FILE;
use crate::controller::build::properties;
use crate::controller::build::properties::bootstrap_conf;
use crate::controller::build::properties::bootstrap_conf::{
    add_jvm_arguments, add_launch_properties,
};
use crate::controller::build::properties::consistency;
use crate::controller::build::properties::nifi_properties;
use crate::controller::build::properties::nifi_properties::{StorageQuotas, StorageQuotasView};
use crate::controller::build::properties::nifi_sections;
use crate::controller::build::properties::nifi_sections::{
    add_cluster_node, add_content, add_core, add_flow_archive, add_flow_election, add_flowfile,
    add_provenance, add_provenance_tuning, add_security, add_state_management, add_status,
    add_web_address, add_web_server, add_zookeeper,
};
use crate::controller::build::properties::state_management_xml;
use crate::controller::build::properties::state_management_xml::{
    ID_END, ID_START, LOCAL_STATE_PROVIDER_ID, ZOOKEEPER_STATE_PROVIDER_ID,
};
use crate::controller::build::properties::{format_properties, ConfigFileName};
use crate::controller::build::graceful_shutdown;
use crate::controller::build::graceful_shutdown::timeout_properties;
use crate::controller::build::NIFI_CONFIG_DIRECTORY;
use crate::crd::storage::NifiRepository;
use crate::crd::{NifiConfig, NifiConfigView, NifiStorageConfigView, Resources};
use crate::list::{add_item, add_items, add_text, empty_list};
use crate::ordered_map::{OrderedMap, StringMap};
use crate::text::{concat2, concat3, concat4};
use crate::zookeeper_cluster::{NifiSensitiveKeyAlgorithm, NifiSpec, NifiSpecView};
use vstd::prelude::*;

verus! {

/// The state management up to the identifier of the provider of local state.
pub const STATE_MANAGEMENT_START: &'static str = r#"<?xml version="1.0" encoding="UTF-8" standalone="yes"?>
        <stateManagement>
          <local-provider>
          "#;

/// The state management from that identifier to the directory of the local state.
pub const STATE_MANAGEMENT_UP_TO_DIRECTORY: &'static str = r#"
            <class>org.apache.nifi.controller.state.providers.local.WriteAheadLocalStateProvider</class>
            <property name="Directory">"#;

/// The state management from the directory of the local state to the identifier of the provider of
/// shared state.
pub const STATE_MANAGEMENT_UP_TO_CLUSTER_PROVIDER: &'static str = r#"</property>
            <property name="Always Sync">false</property>
            <property name="Partitions">16</property>
            <property name="Checkpoint Interval">2 mins</property>
          </local-provider>
          <cluster-provider>
            "#;

/// The state management from that identifier to the address of ZooKeeper.
pub const STATE_MANAGEMENT_UP_TO_CONNECT_STRING: &'static str = r#"
            <class>org.apache.nifi.controller.state.providers.zookeeper.ZooKeeperStateProvider</class>
            <property name="Connect String">"#;

/// The state management from the address of ZooKeeper to the path in it.
pub const STATE_MANAGEMENT_UP_TO_ROOT_NODE: &'static str = r#"</property>
            <property name="Root Node">"#;

/// The state management after the path in ZooKeeper.
pub const STATE_MANAGEMENT_END: &'static str = r#"</property>
            <property name="Session Timeout">10 seconds</property>
            <property name="Access Control">Open</property>
          </cluster-provider>
        </stateManagement>"#;

/// Refers to the environment variable with the address of ZooKeeper.
pub const ZOOKEEPER_HOSTS_REFERENCE: &'static str = "${env:ZOOKEEPER_HOSTS}";

/// Refers to the environment variable with the path in ZooKeeper.
pub const ZOOKEEPER_CHROOT_REFERENCE: &'static str = "${env:ZOOKEEPER_CHROOT}";

/// Why a file cannot be built.
#[derive(Debug, PartialEq, Eq)]
pub enum Error {
    /// The memory limit cannot be read.
    InvalidMemoryConfig,
    /// The quota of a repository cannot be calculated.
    CalculateStorageQuota { repo: NifiRepository },
}

/// What the product configuration is asked for.
#[derive(Debug, PartialEq, Eq)]
pub enum PropertyNameKind {
    /// A file.
    File {
        name: String,
    },
    /// The environment variables.
    Env,
}

/// The contents of a [`PropertyNameKind`].
#[verifier::ext_equal]
pub enum PropertyNameKindView {
    File { name: Seq<char> },
    Env,
}

impl DeepView for PropertyNameKind {
    type V = PropertyNameKindView;

    open spec fn deep_view(&self) -> PropertyNameKindView {
        match self {
            PropertyNameKind::File { name } => PropertyNameKindView::File {
                name: name.deep_view(),
            },
            PropertyNameKind::Env => PropertyNameKindView::Env,
        }
    }
}

/// The arguments with the size of the heap, where the memory is limited.
pub open spec fn heap_arguments(java_heap: Option<Seq<char>>) -> Seq<Seq<char>> {
    match java_heap {
        Some(java_heap) => seq!["-Xmx"@ + java_heap, "-Xms"@ + java_heap],
        None => Seq::empty(),
    }
}

/// The arguments of the JVM.
pub open spec fn jvm_arguments(java_heap: Option<Seq<char>>) -> Seq<Seq<char>> {
    seq!["-Dorg.apache.jasper.compiler.disablejsr199=true"@] + heap_arguments(java_heap) + seq![
        "-Djava.net.preferIPv4Stack=true"@,
        "-Dsun.net.http.allowRestrictedHeaders=true"@,
        "-Djava.protocol.handler.pkgs=sun.net.www.protocol"@,
        "-XX:+UseG1GC"@,
        "-Djava.awt.headless=true"@,
        "-Djava.security.egd=file:/dev/urandom"@,
        "-Djavax.security.auth.useSubjectCredsOnly=true"@,
        "-Dzookeeper.admin.enableServer=false"@,
        "-Djava.security.properties="@ + NIFI_CONFIG_DIRECTORY@ + "/"@
            + JVM_SECURITY_PROPERTIES_FILE@,
    ]
}

/// The size of the heap that counts: there is none where the memory is not limited.
pub open spec fn heap_of(config: NifiConfigView, java_heap: Option<Seq<char>>) -> Option<
    Seq<char>,
> {
    match config.resources.memory_limit {
        Some(_) => java_heap,
        None => None,
    }
}

/// The arguments of the JVM.
fn build_jvm_arguments(java_heap: &Option<String>) -> (arguments: Vec<String>)
    ensures
        arguments.deep_view() == jvm_arguments(java_heap.deep_view()),
{
    let mut arguments: Vec<String> = empty_list();
    // JSP can be used without a JDK.
    add_text(&mut arguments, "-Dorg.apache.jasper.compiler.disablejsr199=true");
    let mut heap: Vec<String> = empty_list();
    if let Some(java_heap) = java_heap {
        add_item(&mut heap, concat2("-Xmx", java_heap.as_str()));
        add_item(&mut heap, concat2("-Xms", java_heap.as_str()));
    }
    add_items(&mut arguments, heap);
    let mut further: Vec<String> = empty_list();
    add_text(&mut further, "-Djava.net.preferIPv4Stack=true");
    // The nodes need these headers to talk to each other.
    add_text(&mut further, "-Dsun.net.http.allowRestrictedHeaders=true");
    add_text(&mut further, "-Djava.protocol.handler.pkgs=sun.net.www.protocol");
    add_text(&mut further, "-XX:+UseG1GC");
    add_text(&mut further, "-Djava.awt.headless=true");
    // Random numbers do not block on virtual machines.
    add_text(&mut further, "-Djava.security.egd=file:/dev/urandom");
    add_text(&mut further, "-Djavax.security.auth.useSubjectCredsOnly=true");
    // The administration server of ZooKeeper would take the port of NiFi.
    add_text(&mut further, "-Dzookeeper.admin.enableServer=false");
    add_item(
        &mut further,
        concat4(
            "-Djava.security.properties=",
            NIFI_CONFIG_DIRECTORY,
            "/",
            JVM_SECURITY_PROPERTIES_FILE,
        ),
    );
    add_items(&mut arguments, further);
    arguments
}

/// Builds `bootstrap.conf`.
///
/// The size of the heap is the one for the memory limit, missing where the limit cannot be read.
pub fn build_bootstrap_conf(
    nifi_config: &NifiConfig,
    java_heap: &Option<String>,
    overrides: &StringMap,
) -> (result: Result<String, Error>)
    ensures
        match result {
            Ok(file) => (nifi_config.resources.memory_limit.is_none() || java_heap.is_some())
                && file@ == properties::properties_text(
                bootstrap_conf::bootstrap_properties(
                    nifi_config.graceful_shutdown_timeout_seconds,
                    jvm_arguments(heap_of(nifi_config.deep_view(), java_heap.deep_view())),
                    overrides@,
                ),
            ),
            Err(error) => nifi_config.resources.memory_limit.is_some() && java_heap.is_none()
                && error == Error::InvalidMemoryConfig,
        },
{
    let mut bootstrap: StringMap = OrderedMap::new();
    add_launch_properties(&mut bootstrap);
    proof {
        assert(bootstrap@ =~= bootstrap_conf::launch_properties());
    }
    bootstrap.extend(&timeout_properties(nifi_config.graceful_shutdown_timeout_seconds));
    let heap: Option<String> = match &nifi_config.resources.memory_limit {
        Some(_) => match java_heap {
            Some(java_heap) => Some(java_heap.copied()),
            None => {
                return Err(Error::InvalidMemoryConfig);
            },
        },
        None => None,
    };
    add_jvm_arguments(&mut bootstrap, &build_jvm_arguments(&heap));
    bootstrap.extend(overrides);
    Ok(format_properties(&bootstrap))
}

/// The properties up to the network addresses.
pub open spec fn storage_properties(
    storage: NifiStorageConfigView,
    quotas: StorageQuotasView,
) -> Map<Seq<char>, Seq<char>> {
    let flow = nifi_properties::with_quota(
        nifi_sections::flow_archive_properties(
            Map::empty().insert(
                "nifi.flow.configuration.file"@,
                NifiRepository::Database.directory() + "/flow.xml.gz"@,
            ),
        ),
        "nifi.flow.configuration.archive.max.storage"@,
        storage.flowfile_repo.capacity,
        quotas.flow_archive,
    );
    let provenance = nifi_properties::with_quota(
        nifi_sections::provenance_properties(
            nifi_sections::content_properties(
                nifi_sections::flowfile_properties(
                    nifi_sections::state_management_properties(
                        nifi_sections::core_properties(flow),
                        ZOOKEEPER_STATE_PROVIDER_ID@,
                    ),
                ),
                ""@,
            ),
        ),
        "nifi.provenance.repository.max.storage.size"@,
        storage.provenance_repo.capacity,
        quotas.provenance,
    );
    nifi_sections::status_properties(nifi_sections::provenance_tuning_properties(provenance))
}

/// The algorithm by which sensitive properties are encrypted.
pub open spec fn algorithm_of(spec_: NifiSpecView) -> NifiSensitiveKeyAlgorithm {
    match spec_.cluster_config.sensitive_properties.algorithm {
        Some(algorithm) => algorithm,
        None => NifiSensitiveKeyAlgorithm::NifiArgon2AesGcm256,
    }
}

/// The properties that the operator sets.
pub open spec fn operator_properties(
    spec_: NifiSpecView,
    storage: NifiStorageConfigView,
    proxy_hosts: Seq<char>,
    quotas: StorageQuotasView,
) -> Map<Seq<char>, Seq<char>> {
    nifi_sections::zookeeper_properties(
        nifi_sections::flow_election_properties(
            nifi_sections::cluster_node_properties(
                nifi_sections::security_properties(
                    nifi_sections::web_server_properties(
                        nifi_sections::web_address_properties(storage_properties(storage, quotas)),
                        proxy_hosts,
                    ),
                    algorithm_of(spec_).text(),
                ),
            ).insert("nifi.cluster.flow.election.max.wait.time"@, "1 mins"@),
        ),
    )
}

/// The first reason for which `nifi.properties` cannot be built.
pub open spec fn quota_failure(
    storage: NifiStorageConfigView,
    quotas: StorageQuotasView,
) -> Option<Error> {
    if nifi_properties::quota_fails(storage.flowfile_repo.capacity, quotas.flow_archive) {
        Some(Error::CalculateStorageQuota { repo: NifiRepository::Flowfile })
    } else if nifi_properties::quota_fails(storage.provenance_repo.capacity, quotas.provenance) {
        Some(Error::CalculateStorageQuota { repo: NifiRepository::Provenance })
    } else {
        None
    }
}

/// Builds `nifi.properties`.
///
/// The quotas are the ones for the capacities of the FlowFile and the provenance repository.
pub fn build_nifi_properties(
    nifi_spec: &NifiSpec,
    resource_config: &Resources,
    proxy_hosts: &str,
    overrides: &StringMap,
    quotas: &StorageQuotas,
) -> (result: Result<String, Error>)
    ensures
        match result {
            Ok(file) => quota_failure(
                resource_config.deep_view().storage,
                quotas.deep_view(),
            ).is_none() && file@ == properties::properties_text(
                operator_properties(
                    nifi_spec.deep_view(),
                    resource_config.deep_view().storage,
                    proxy_hosts@,
                    quotas.deep_view(),
                ).union_prefer_right(overrides@),
            ),
            Err(error) => quota_failure(
                resource_config.deep_view().storage,
                quotas.deep_view(),
            ) == Some(error),
        },
{
    let storage = &resource_config.storage;
    let mut properties: StringMap = OrderedMap::new();
    properties.put(
        "nifi.flow.configuration.file",
        concat2(NifiRepository::Database.mount_path().as_str(), "/flow.xml.gz").as_str(),
    );
    add_flow_archive(&mut properties);
    if storage.flowfile_repo.capacity.is_some() {
        match &quotas.flow_archive {
            Some(quota) => {
                properties.put("nifi.flow.configuration.archive.max.storage", quota.as_str());
            },
            None => {
                return Err(Error::CalculateStorageQuota { repo: NifiRepository::Flowfile });
            },
        }
    }
    add_core(&mut properties);
    add_state_management(&mut properties, ZOOKEEPER_STATE_PROVIDER_ID);
    add_flowfile(&mut properties);
    add_content(&mut properties, "");
    add_provenance(&mut properties);
    if storage.provenance_repo.capacity.is_some() {
        match &quotas.provenance {
            Some(quota) => {
                properties.put("nifi.provenance.repository.max.storage.size", quota.as_str());
            },
            None => {
                return Err(Error::CalculateStorageQuota { repo: NifiRepository::Provenance });
            },
        }
    }
    add_provenance_tuning(&mut properties);
    add_status(&mut properties);
    add_web_address(&mut properties);
    add_web_server(&mut properties, proxy_hosts);
    let algorithm: NifiSensitiveKeyAlgorithm =
        match nifi_spec.cluster_config.sensitive_properties.algorithm {
        Some(algorithm) => algorithm,
        None => NifiSensitiveKeyAlgorithm::default(),
    };
    add_security(&mut properties, algorithm.as_str());
    add_cluster_node(&mut properties);
    properties.put("nifi.cluster.flow.election.max.wait.time", "1 mins");
    add_flow_election(&mut properties);
    add_zookeeper(&mut properties);
    properties.extend(overrides);
    Ok(format_properties(&properties))
}

/// `state-management.xml`, with these identifiers of the providers, the directory of the local
/// state, and the address of ZooKeeper and the path in it.
pub open spec fn state_management_file(
    local_id: Seq<char>,
    directory: Seq<char>,
    cluster_id: Seq<char>,
    connect_string: Seq<char>,
    root_node: Seq<char>,
) -> Seq<char> {
    STATE_MANAGEMENT_START@ + state_management_xml::identifier(local_id)
        + STATE_MANAGEMENT_UP_TO_DIRECTORY@ + directory + STATE_MANAGEMENT_UP_TO_CLUSTER_PROVIDER@
        + state_management_xml::identifier(cluster_id) + STATE_MANAGEMENT_UP_TO_CONNECT_STRING@
        + connect_string + STATE_MANAGEMENT_UP_TO_ROOT_NODE@ + root_node + STATE_MANAGEMENT_END@
}

/// Builds `state-management.xml`.
pub fn build_state_management_xml() -> (xml: String)
    ensures
        xml@ == state_management_file(
            LOCAL_STATE_PROVIDER_ID@,
            NifiRepository::State.directory(),
            ZOOKEEPER_STATE_PROVIDER_ID@,
            ZOOKEEPER_HOSTS_REFERENCE@,
            ZOOKEEPER_CHROOT_REFERENCE@,
        ),
{
    let local_id = concat3(ID_START, LOCAL_STATE_PROVIDER_ID, ID_END);
    let cluster_id = concat3(ID_START, ZOOKEEPER_STATE_PROVIDER_ID, ID_END);
    let directory = NifiRepository::State.mount_path();
    STATE_MANAGEMENT_START.to_owned().concat(local_id.as_str()).concat(
        STATE_MANAGEMENT_UP_TO_DIRECTORY,
    ).concat(directory.as_str()).concat(STATE_MANAGEMENT_UP_TO_CLUSTER_PROVIDER).concat(
        cluster_id.as_str(),
    ).concat(STATE_MANAGEMENT_UP_TO_CONNECT_STRING).concat(ZOOKEEPER_HOSTS_REFERENCE).concat(
        STATE_MANAGEMENT_UP_TO_ROOT_NODE,
    ).concat(ZOOKEEPER_CHROOT_REFERENCE).concat(STATE_MANAGEMENT_END)
}

/// The providers of state that `nifi.properties` names are those that `state-management.xml`
/// defines, unless the user names others. The local one keeps its state in the state repository;
/// the shared one finds ZooKeeper by the environment variables of the pod.
pub proof fn law_state_providers_are_defined(
    spec_: NifiSpecView,
    storage: NifiStorageConfigView,
    proxy_hosts: Seq<char>,
    quotas: StorageQuotasView,
    overrides: Map<Seq<char>, Seq<char>>,
)
    requires
        !overrides.dom().contains("nifi.state.management.provider.local"@),
        !overrides.dom().contains("nifi.state.management.provider.cluster"@),
    ensures
        ({
            let properties = operator_properties(
                spec_,
                storage,
                proxy_hosts,
                quotas,
            ).union_prefer_right(overrides);
            &&& properties.dom().contains("nifi.state.management.provider.local"@)
            &&& properties.dom().contains("nifi.state.management.provider.cluster"@)
            &&& properties["nifi.state.management.provider.local"@] == "local-provider"@
            &&& properties["nifi.state.management.provider.cluster"@] == "zk-provider"@
            &&& state_management_file(
                LOCAL_STATE_PROVIDER_ID@,
                NifiRepository::State.directory(),
                ZOOKEEPER_STATE_PROVIDER_ID@,
                ZOOKEEPER_HOSTS_REFERENCE@,
                ZOOKEEPER_CHROOT_REFERENCE@,
            ) == state_management_file(
                properties["nifi.state.management.provider.local"@],
                NifiRepository::State.directory(),
                properties["nifi.state.management.provider.cluster"@],
                "${env:ZOOKEEPER_HOSTS}"@,
                "${env:ZOOKEEPER_CHROOT}"@,
            )
        }),
{
    consistency::lemma_other_properties();
    consistency::lemma_state_properties();
    let local = "nifi.state.management.provider.local"@;
    let cluster = "nifi.state.management.provider.cluster"@;
    let storage_part = storage_properties(storage, quotas);
    assert(storage_part.dom().contains(local) && storage_part[local] == LOCAL_STATE_PROVIDER_ID@);
    assert(storage_part.dom().contains(cluster) && storage_part[cluster]
        == ZOOKEEPER_STATE_PROVIDER_ID@);
    let all = operator_properties(spec_, storage, proxy_hosts, quotas);
    assert(all.dom().contains(local) && all[local] == LOCAL_STATE_PROVIDER_ID@);
    assert(all.dom().contains(cluster) && all[cluster] == ZOOKEEPER_STATE_PROVIDER_ID@);
}

/// What the product configuration is asked for, for the node role: the files, and the environment
/// variables.
pub fn required_property_kinds() -> (kinds: Vec<PropertyNameKind>)
    ensures
        kinds.deep_view() == seq![
            PropertyNameKindView::File { name: ConfigFileName::BootstrapConf.text() },
            PropertyNameKindView::File { name: ConfigFileName::NifiProperties.text() },
            PropertyNameKindView::File { name: ConfigFileName::StateManagementXml.text() },
            PropertyNameKindView::File { name: ConfigFileName::SecurityProperties.text() },
            PropertyNameKindView::Env,
        ],
{
    let mut kinds: Vec<PropertyNameKind> = empty_list();
    add_item(
        &mut kinds,
        PropertyNameKind::File { name: ConfigFileName::BootstrapConf.as_str().to_owned() },
    );
    add_item(
        &mut kinds,
        PropertyNameKind::File { name: ConfigFileName::NifiProperties.as_str().to_owned() },
    );
    add_item(
        &mut kinds,
        PropertyNameKind::File { name: ConfigFileName::StateManagementXml.as_str().to_owned() },
    );
    add_item(
        &mut kinds,
        PropertyNameKind::File { name: ConfigFileName::SecurityProperties.as_str().to_owned() },
    );
    add_item(&mut kinds, PropertyNameKind::Env);
    kinds
}

} // verus!
