//! The parts of `nifi.properties` that do not depend on how a cluster is managed.

use crate::controller::build::properties::state_management_xml::LOCAL_STATE_PROVIDER_ID;
use crate::controller::build::properties::{file_reference, ConfigFileName};
use crate::controller::build::resource::secret::SENSITIVE_PROPERTY_KEY_NAME;
use crate::controller::build::{
    NIFI_CONFIG_DIRECTORY, NIFI_PYTHON_EXTENSIONS_DIRECTORY, NIFI_PYTHON_FRAMEWORK_DIRECTORY,
    NIFI_PYTHON_WORKING_DIRECTORY, SENSITIVE_PROPERTY_VOLUME_MOUNT,
};
use crate::crd::storage::NifiRepository;
use crate::crd::{HTTPS_PORT, PROTOCOL_PORT};
use crate::ordered_map::StringMap;
use crate::security::authentication::{STACKABLE_SERVER_TLS_DIR, STACKABLE_TLS_STORE_PASSWORD};
use crate::text;
use crate::text::{concat2, concat3, number_text};
use vstd::prelude::*;

verus! {

/// Where the flow is archived.
pub open spec fn flow_archive_properties(
    properties: Map<Seq<char>, Seq<char>>,
) -> Map<Seq<char>, Seq<char>> {
    properties.insert(
        "nifi.flow.configuration.archive.enabled"@,
        "true"@,
    ).insert(
        "nifi.flow.configuration.archive.dir"@,
        NIFI_CONFIG_DIRECTORY@ + "/archive/"@,
    ).insert(
        "nifi.flow.configuration.archive.max.time"@,
        ""@,
    )
}

/// Where the flow is archived.
pub fn add_flow_archive(properties: &mut StringMap)
    ensures
        final(properties)@ == flow_archive_properties(old(properties)@),
{
    properties.put("nifi.flow.configuration.archive.enabled", "true");
    properties.put(
        "nifi.flow.configuration.archive.dir",
        concat2(NIFI_CONFIG_DIRECTORY, "/archive/").as_str(),
    );
    properties.put("nifi.flow.configuration.archive.max.time", "");
}

/// The core of a node.
pub open spec fn core_properties(
    properties: Map<Seq<char>, Seq<char>>,
) -> Map<Seq<char>, Seq<char>> {
    properties.insert(
        "nifi.flow.configuration.archive.max.count"@,
        ""@,
    ).insert(
        "nifi.flowcontroller.autoResumeState"@,
        "true"@,
    ).insert(
        "nifi.flowcontroller.graceful.shutdown.period"@,
        "10 sec"@,
    ).insert(
        "nifi.flowservice.writedelay.interval"@,
        "500 ms"@,
    ).insert(
        "nifi.administrative.yield.duration"@,
        "30 sec"@,
    ).insert(
        "nifi.authorizer.configuration.file"@,
        NIFI_CONFIG_DIRECTORY@ + "/"@ + ConfigFileName::Authorizers.text(),
    ).insert(
        "nifi.login.identity.provider.configuration.file"@,
        NIFI_CONFIG_DIRECTORY@ + "/"@ + ConfigFileName::LoginIdentityProviders.text(),
    ).insert(
        "nifi.templates.directory"@,
        "./conf/templates"@,
    ).insert(
        "nifi.ui.banner.text"@,
        ""@,
    ).insert(
        "nifi.ui.autorefresh.interval"@,
        "30 sec"@,
    ).insert(
        "nifi.nar.library.directory"@,
        "./lib"@,
    ).insert(
        "nifi.nar.library.autoload.directory"@,
        "./extensions"@,
    ).insert(
        "nifi.nar.working.directory"@,
        "./work/nar/"@,
    ).insert(
        "nifi.documentation.working.directory"@,
        "./work/docs/components"@,
    )
}

/// The core of a node.
pub fn add_core(properties: &mut StringMap)
    ensures
        final(properties)@ == core_properties(old(properties)@),
{
    properties.put("nifi.flow.configuration.archive.max.count", "");
    properties.put("nifi.flowcontroller.autoResumeState", "true");
    properties.put("nifi.flowcontroller.graceful.shutdown.period", "10 sec");
    properties.put("nifi.flowservice.writedelay.interval", "500 ms");
    properties.put("nifi.administrative.yield.duration", "30 sec");
    properties.put(
        "nifi.authorizer.configuration.file",
        concat3(NIFI_CONFIG_DIRECTORY, "/", ConfigFileName::Authorizers.as_str()).as_str(),
    );
    properties.put(
        "nifi.login.identity.provider.configuration.file",
        concat3(NIFI_CONFIG_DIRECTORY, "/", ConfigFileName::LoginIdentityProviders.as_str()).as_str(),
    );
    properties.put("nifi.templates.directory", "./conf/templates");
    properties.put("nifi.ui.banner.text", "");
    properties.put("nifi.ui.autorefresh.interval", "30 sec");
    properties.put("nifi.nar.library.directory", "./lib");
    properties.put("nifi.nar.library.autoload.directory", "./extensions");
    properties.put("nifi.nar.working.directory", "./work/nar/");
    properties.put("nifi.documentation.working.directory", "./work/docs/components");
}

/// The providers of state.
pub open spec fn state_management_properties(
    properties: Map<Seq<char>, Seq<char>>, cluster_provider: Seq<char>,
) -> Map<Seq<char>, Seq<char>> {
    properties.insert(
        "nifi.state.management.configuration.file"@,
        "./conf/state-management.xml"@,
    ).insert(
        "nifi.state.management.provider.local"@,
        LOCAL_STATE_PROVIDER_ID@,
    ).insert(
        "nifi.state.management.provider.cluster"@,
        cluster_provider,
    ).insert(
        "nifi.state.management.embedded.zookeeper.start"@,
        "false"@,
    )
}

/// The providers of state.
pub fn add_state_management(properties: &mut StringMap, cluster_provider: &str)
    ensures
        final(properties)@ == state_management_properties(old(properties)@, cluster_provider@),
{
    properties.put("nifi.state.management.configuration.file", "./conf/state-management.xml");
    properties.put("nifi.state.management.provider.local", LOCAL_STATE_PROVIDER_ID);
    properties.put("nifi.state.management.provider.cluster", cluster_provider);
    properties.put("nifi.state.management.embedded.zookeeper.start", "false");
}

/// The database and the FlowFile repository.
pub open spec fn flowfile_properties(
    properties: Map<Seq<char>, Seq<char>>,
) -> Map<Seq<char>, Seq<char>> {
    properties.insert(
        "nifi.database.directory"@,
        NifiRepository::Database.directory(),
    ).insert(
        "nifi.h2.url.append"@,
        ";LOCK_TIMEOUT=25000;WRITE_DELAY=0;AUTO_SERVER=FALSE"@,
    ).insert(
        "nifi.flowfile.repository.implementation"@,
        "org.apache.nifi.controller.repository.WriteAheadFlowFileRepository"@,
    ).insert(
        "nifi.flowfile.repository.wal.implementation"@,
        "org.apache.nifi.wali.SequentialAccessWriteAheadLog"@,
    ).insert(
        "nifi.flowfile.repository.directory"@,
        NifiRepository::Flowfile.directory(),
    ).insert(
        "nifi.flowfile.repository.checkpoint.interval"@,
        "20 secs"@,
    ).insert(
        "nifi.flowfile.repository.always.sync"@,
        "false"@,
    ).insert(
        "nifi.flowfile.repository.retain.orphaned.flowfiles"@,
        "true"@,
    ).insert(
        "nifi.swap.manager.implementation"@,
        "org.apache.nifi.controller.FileSystemSwapManager"@,
    ).insert(
        "nifi.queue.swap.threshold"@,
        "20000"@,
    )
}

/// The database and the FlowFile repository.
pub fn add_flowfile(properties: &mut StringMap)
    ensures
        final(properties)@ == flowfile_properties(old(properties)@),
{
    properties.put("nifi.database.directory", NifiRepository::Database.mount_path().as_str());
    properties.put("nifi.h2.url.append", ";LOCK_TIMEOUT=25000;WRITE_DELAY=0;AUTO_SERVER=FALSE");
    properties.put(
        "nifi.flowfile.repository.implementation",
        "org.apache.nifi.controller.repository.WriteAheadFlowFileRepository",
    );
    properties.put(
        "nifi.flowfile.repository.wal.implementation",
        "org.apache.nifi.wali.SequentialAccessWriteAheadLog",
    );
    properties.put(
        "nifi.flowfile.repository.directory",
        NifiRepository::Flowfile.mount_path().as_str(),
    );
    properties.put("nifi.flowfile.repository.checkpoint.interval", "20 secs");
    properties.put("nifi.flowfile.repository.always.sync", "false");
    properties.put("nifi.flowfile.repository.retain.orphaned.flowfiles", "true");
    properties.put(
        "nifi.swap.manager.implementation",
        "org.apache.nifi.controller.FileSystemSwapManager",
    );
    properties.put("nifi.queue.swap.threshold", "20000");
}

/// The content repository.
pub open spec fn content_properties(
    properties: Map<Seq<char>, Seq<char>>, retention_period: Seq<char>,
) -> Map<Seq<char>, Seq<char>> {
    properties.insert(
        "nifi.content.repository.implementation"@,
        "org.apache.nifi.controller.repository.FileSystemRepository"@,
    ).insert(
        "nifi.content.claim.max.appendable.size"@,
        "1 MB"@,
    ).insert(
        "nifi.content.repository.directory.default"@,
        NifiRepository::Content.directory(),
    ).insert(
        "nifi.content.repository.archive.max.retention.period"@,
        retention_period,
    ).insert(
        "nifi.content.repository.archive.max.usage.percentage"@,
        "50%"@,
    ).insert(
        "nifi.content.repository.archive.enabled"@,
        "true"@,
    ).insert(
        "nifi.content.repository.always.sync"@,
        "false"@,
    ).insert(
        "nifi.content.viewer.url"@,
        "../nifi-content-viewer/"@,
    )
}

/// The content repository.
pub fn add_content(properties: &mut StringMap, retention_period: &str)
    ensures
        final(properties)@ == content_properties(old(properties)@, retention_period@),
{
    properties.put(
        "nifi.content.repository.implementation",
        "org.apache.nifi.controller.repository.FileSystemRepository",
    );
    properties.put("nifi.content.claim.max.appendable.size", "1 MB");
    properties.put(
        "nifi.content.repository.directory.default",
        NifiRepository::Content.mount_path().as_str(),
    );
    properties.put("nifi.content.repository.archive.max.retention.period", retention_period);
    properties.put("nifi.content.repository.archive.max.usage.percentage", "50%");
    properties.put("nifi.content.repository.archive.enabled", "true");
    properties.put("nifi.content.repository.always.sync", "false");
    properties.put("nifi.content.viewer.url", "../nifi-content-viewer/");
}

/// The provenance repository.
pub open spec fn provenance_properties(
    properties: Map<Seq<char>, Seq<char>>,
) -> Map<Seq<char>, Seq<char>> {
    properties.insert(
        "nifi.provenance.repository.implementation"@,
        "org.apache.nifi.provenance.WriteAheadProvenanceRepository"@,
    ).insert(
        "nifi.provenance.repository.directory.default"@,
        NifiRepository::Provenance.directory(),
    ).insert(
        "nifi.provenance.repository.max.storage.time"@,
        ""@,
    )
}

/// The provenance repository.
pub fn add_provenance(properties: &mut StringMap)
    ensures
        final(properties)@ == provenance_properties(old(properties)@),
{
    properties.put(
        "nifi.provenance.repository.implementation",
        "org.apache.nifi.provenance.WriteAheadProvenanceRepository",
    );
    properties.put(
        "nifi.provenance.repository.directory.default",
        NifiRepository::Provenance.mount_path().as_str(),
    );
    properties.put("nifi.provenance.repository.max.storage.time", "");
}

/// The rollover and the index of the provenance repository.
pub open spec fn provenance_tuning_properties(
    properties: Map<Seq<char>, Seq<char>>,
) -> Map<Seq<char>, Seq<char>> {
    properties.insert(
        "nifi.provenance.repository.rollover.time"@,
        "10 mins"@,
    ).insert(
        "nifi.provenance.repository.rollover.size"@,
        "100 MB"@,
    ).insert(
        "nifi.provenance.repository.query.threads"@,
        "2"@,
    ).insert(
        "nifi.provenance.repository.index.threads"@,
        "2"@,
    ).insert(
        "nifi.provenance.repository.compress.on.rollover"@,
        "true"@,
    ).insert(
        "nifi.provenance.repository.always.sync"@,
        "false"@,
    ).insert(
        "nifi.provenance.repository.indexed.fields"@,
        "EventType, FlowFileUUID, Filename, ProcessorID, Relationship"@,
    ).insert(
        "nifi.provenance.repository.indexed.attributes"@,
        ""@,
    ).insert(
        "nifi.provenance.repository.index.shard.size"@,
        "500 MB"@,
    ).insert(
        "nifi.provenance.repository.max.attribute.length"@,
        "65536"@,
    ).insert(
        "nifi.provenance.repository.concurrent.merge.threads"@,
        "2"@,
    ).insert(
        "nifi.provenance.repository.buffer.size"@,
        "100000"@,
    )
}

/// The rollover and the index of the provenance repository.
pub fn add_provenance_tuning(properties: &mut StringMap)
    ensures
        final(properties)@ == provenance_tuning_properties(old(properties)@),
{
    properties.put("nifi.provenance.repository.rollover.time", "10 mins");
    properties.put("nifi.provenance.repository.rollover.size", "100 MB");
    properties.put("nifi.provenance.repository.query.threads", "2");
    properties.put("nifi.provenance.repository.index.threads", "2");
    properties.put("nifi.provenance.repository.compress.on.rollover", "true");
    properties.put("nifi.provenance.repository.always.sync", "false");
    properties.put(
        "nifi.provenance.repository.indexed.fields",
        "EventType, FlowFileUUID, Filename, ProcessorID, Relationship",
    );
    properties.put("nifi.provenance.repository.indexed.attributes", "");
    properties.put("nifi.provenance.repository.index.shard.size", "500 MB");
    properties.put("nifi.provenance.repository.max.attribute.length", "65536");
    properties.put("nifi.provenance.repository.concurrent.merge.threads", "2");
    properties.put("nifi.provenance.repository.buffer.size", "100000");
}

/// The status of components.
pub open spec fn status_properties(
    properties: Map<Seq<char>, Seq<char>>,
) -> Map<Seq<char>, Seq<char>> {
    properties.insert(
        "nifi.components.status.repository.implementation"@,
        "org.apache.nifi.controller.status.history.VolatileComponentStatusRepository"@,
    ).insert(
        "nifi.components.status.repository.buffer.size"@,
        "1440"@,
    ).insert(
        "nifi.components.status.snapshot.frequency"@,
        "1 min"@,
    ).insert(
        "nifi.status.repository.questdb.persist.node.days"@,
        "14"@,
    ).insert(
        "nifi.status.repository.questdb.persist.component.days"@,
        "3"@,
    ).insert(
        "nifi.status.repository.questdb.persist.location"@,
        "./status_repository"@,
    )
}

/// The status of components.
pub fn add_status(properties: &mut StringMap)
    ensures
        final(properties)@ == status_properties(old(properties)@),
{
    properties.put(
        "nifi.components.status.repository.implementation",
        "org.apache.nifi.controller.status.history.VolatileComponentStatusRepository",
    );
    properties.put("nifi.components.status.repository.buffer.size", "1440");
    properties.put("nifi.components.status.snapshot.frequency", "1 min");
    properties.put("nifi.status.repository.questdb.persist.node.days", "14");
    properties.put("nifi.status.repository.questdb.persist.component.days", "3");
    properties.put("nifi.status.repository.questdb.persist.location", "./status_repository");
}

/// The address that NiFi listens on.
pub open spec fn web_address_properties(
    properties: Map<Seq<char>, Seq<char>>,
) -> Map<Seq<char>, Seq<char>> {
    properties.insert(
        "nifi.web.https.host"@,
        "${env:NODE_ADDRESS}"@,
    ).insert(
        "nifi.web.https.port"@,
        text::decimal(HTTPS_PORT as nat),
    ).insert(
        "nifi.web.https.network.interface.default"@,
        ""@,
    )
}

/// The address that NiFi listens on.
pub fn add_web_address(properties: &mut StringMap)
    ensures
        final(properties)@ == web_address_properties(old(properties)@),
{
    properties.put("nifi.web.https.host", "${env:NODE_ADDRESS}");
    properties.put("nifi.web.https.port", number_text(HTTPS_PORT as u64).as_str());
    properties.put("nifi.web.https.network.interface.default", "");
}

/// The network interfaces that NiFi listens on: the external one, and the loopback one for port forwarding.
pub open spec fn web_interface_properties(
    properties: Map<Seq<char>, Seq<char>>,
) -> Map<Seq<char>, Seq<char>> {
    properties.insert(
        "nifi.web.https.network.interface.eth0"@,
        "eth0"@,
    ).insert(
        "nifi.web.https.network.interface.lo"@,
        "lo"@,
    )
}

/// The network interfaces that NiFi listens on: the external one, and the loopback one for port forwarding.
pub fn add_web_interface(properties: &mut StringMap)
    ensures
        final(properties)@ == web_interface_properties(old(properties)@),
{
    properties.put("nifi.web.https.network.interface.eth0", "eth0");
    properties.put("nifi.web.https.network.interface.lo", "lo");
}

/// The web server.
pub open spec fn web_server_properties(
    properties: Map<Seq<char>, Seq<char>>, proxy_hosts: Seq<char>,
) -> Map<Seq<char>, Seq<char>> {
    properties.insert(
        "nifi.web.jetty.working.directory"@,
        "./work/jetty"@,
    ).insert(
        "nifi.web.jetty.threads"@,
        "200"@,
    ).insert(
        "nifi.web.max.header.size"@,
        "16 KB"@,
    ).insert(
        "nifi.web.proxy.context.path"@,
        ""@,
    ).insert(
        "nifi.web.proxy.host"@,
        proxy_hosts,
    )
}

/// The web server.
pub fn add_web_server(properties: &mut StringMap, proxy_hosts: &str)
    ensures
        final(properties)@ == web_server_properties(old(properties)@, proxy_hosts@),
{
    properties.put("nifi.web.jetty.working.directory", "./work/jetty");
    properties.put("nifi.web.jetty.threads", "200");
    properties.put("nifi.web.max.header.size", "16 KB");
    properties.put("nifi.web.proxy.context.path", "");
    properties.put("nifi.web.proxy.host", proxy_hosts);
}

/// The encryption of sensitive properties, and the key and trust store.
pub open spec fn security_properties(
    properties: Map<Seq<char>, Seq<char>>, algorithm: Seq<char>,
) -> Map<Seq<char>, Seq<char>> {
    properties.insert(
        "nifi.sensitive.props.key"@,
        "${file:UTF-8:"@ + (SENSITIVE_PROPERTY_VOLUME_MOUNT@ + "/"@ + SENSITIVE_PROPERTY_KEY_NAME@)
            + "}"@,
    ).insert(
        "nifi.sensitive.props.key.protected"@,
        ""@,
    ).insert(
        "nifi.sensitive.props.algorithm"@,
        algorithm,
    ).insert(
        "nifi.security.keystore"@,
        STACKABLE_SERVER_TLS_DIR@ + "/keystore.p12"@,
    ).insert(
        "nifi.security.keystoreType"@,
        "PKCS12"@,
    ).insert(
        "nifi.security.keystorePasswd"@,
        STACKABLE_TLS_STORE_PASSWORD@,
    ).insert(
        "nifi.security.truststore"@,
        STACKABLE_SERVER_TLS_DIR@ + "/truststore.p12"@,
    ).insert(
        "nifi.security.truststoreType"@,
        "PKCS12"@,
    ).insert(
        "nifi.security.truststorePasswd"@,
        STACKABLE_TLS_STORE_PASSWORD@,
    ).insert(
        "nifi.security.user.login.identity.provider"@,
        "login-identity-provider"@,
    ).insert(
        "nifi.security.user.authorizer"@,
        "authorizer"@,
    ).insert(
        "nifi.security.allow.anonymous.authentication"@,
        "false"@,
    ).insert(
        "nifi.cluster.protocol.is.secure"@,
        "true"@,
    )
}

/// The encryption of sensitive properties, and the key and trust store.
pub fn add_security(properties: &mut StringMap, algorithm: &str)
    ensures
        final(properties)@ == security_properties(old(properties)@, algorithm@),
{
    let key_file = concat3(SENSITIVE_PROPERTY_VOLUME_MOUNT, "/", SENSITIVE_PROPERTY_KEY_NAME);
    properties.put("nifi.sensitive.props.key", file_reference(key_file.as_str()).as_str());
    properties.put("nifi.sensitive.props.key.protected", "");
    properties.put("nifi.sensitive.props.algorithm", algorithm);
    properties.put(
        "nifi.security.keystore",
        concat2(STACKABLE_SERVER_TLS_DIR, "/keystore.p12").as_str(),
    );
    properties.put("nifi.security.keystoreType", "PKCS12");
    properties.put("nifi.security.keystorePasswd", STACKABLE_TLS_STORE_PASSWORD);
    properties.put(
        "nifi.security.truststore",
        concat2(STACKABLE_SERVER_TLS_DIR, "/truststore.p12").as_str(),
    );
    properties.put("nifi.security.truststoreType", "PKCS12");
    properties.put("nifi.security.truststorePasswd", STACKABLE_TLS_STORE_PASSWORD);
    properties.put("nifi.security.user.login.identity.provider", "login-identity-provider");
    properties.put("nifi.security.user.authorizer", "authorizer");
    properties.put("nifi.security.allow.anonymous.authentication", "false");
    properties.put("nifi.cluster.protocol.is.secure", "true");
}

/// The node as a member of the cluster.
pub open spec fn cluster_node_properties(
    properties: Map<Seq<char>, Seq<char>>,
) -> Map<Seq<char>, Seq<char>> {
    properties.insert(
        "nifi.cluster.is.node"@,
        "true"@,
    ).insert(
        "nifi.cluster.node.address"@,
        "${env:NODE_ADDRESS}"@,
    ).insert(
        "nifi.cluster.node.protocol.port"@,
        text::decimal(PROTOCOL_PORT as nat),
    )
}

/// The node as a member of the cluster.
pub fn add_cluster_node(properties: &mut StringMap)
    ensures
        final(properties)@ == cluster_node_properties(old(properties)@),
{
    properties.put("nifi.cluster.is.node", "true");
    properties.put("nifi.cluster.node.address", "${env:NODE_ADDRESS}");
    properties.put("nifi.cluster.node.protocol.port", number_text(PROTOCOL_PORT as u64).as_str());
}

/// The election of the flow.
pub open spec fn flow_election_properties(
    properties: Map<Seq<char>, Seq<char>>,
) -> Map<Seq<char>, Seq<char>> {
    properties.insert(
        "nifi.cluster.flow.election.max.candidates"@,
        ""@,
    )
}

/// The election of the flow.
pub fn add_flow_election(properties: &mut StringMap)
    ensures
        final(properties)@ == flow_election_properties(old(properties)@),
{
    properties.put("nifi.cluster.flow.election.max.candidates", "");
}

/// The ZooKeeper that manages the cluster.
pub open spec fn zookeeper_properties(
    properties: Map<Seq<char>, Seq<char>>,
) -> Map<Seq<char>, Seq<char>> {
    properties.insert(
        "nifi.zookeeper.connect.string"@,
        "${env:ZOOKEEPER_HOSTS}"@,
    ).insert(
        "nifi.zookeeper.root.node"@,
        "${env:ZOOKEEPER_CHROOT}"@,
    )
}

/// The ZooKeeper that manages the cluster.
pub fn add_zookeeper(properties: &mut StringMap)
    ensures
        final(properties)@ == zookeeper_properties(old(properties)@),
{
    properties.put("nifi.zookeeper.connect.string", "${env:ZOOKEEPER_HOSTS}");
    properties.put("nifi.zookeeper.root.node", "${env:ZOOKEEPER_CHROOT}");
}

/// The election of a leader through ZooKeeper.
pub open spec fn curator_election_properties(
    properties: Map<Seq<char>, Seq<char>>,
) -> Map<Seq<char>, Seq<char>> {
    properties.insert(
        "nifi.cluster.leader.election.implementation"@,
        "CuratorLeaderElectionManager"@,
    )
}

/// The election of a leader through ZooKeeper.
pub fn add_curator_election(properties: &mut StringMap)
    ensures
        final(properties)@ == curator_election_properties(old(properties)@),
{
    properties.put("nifi.cluster.leader.election.implementation", "CuratorLeaderElectionManager");
}

/// The election of a leader through Kubernetes.
pub open spec fn kubernetes_election_properties(
    properties: Map<Seq<char>, Seq<char>>,
) -> Map<Seq<char>, Seq<char>> {
    properties.insert(
        "nifi.cluster.leader.election.implementation"@,
        "KubernetesLeaderElectionManager"@,
    ).insert(
        "nifi.cluster.leader.election.kubernetes.lease.prefix"@,
        "${env:STACKLET_NAME}"@,
    )
}

/// The election of a leader through Kubernetes.
pub fn add_kubernetes_election(properties: &mut StringMap)
    ensures
        final(properties)@ == kubernetes_election_properties(old(properties)@),
{
    properties.put(
        "nifi.cluster.leader.election.implementation",
        "KubernetesLeaderElectionManager",
    );
    properties.put("nifi.cluster.leader.election.kubernetes.lease.prefix", "${env:STACKLET_NAME}");
}

/// Components in Python.
pub open spec fn python_properties(
    properties: Map<Seq<char>, Seq<char>>,
) -> Map<Seq<char>, Seq<char>> {
    properties.insert(
        "nifi.python.command"@,
        "python3"@,
    ).insert(
        "nifi.python.framework.source.directory"@,
        NIFI_PYTHON_FRAMEWORK_DIRECTORY@,
    ).insert(
        "nifi.python.working.directory"@,
        NIFI_PYTHON_WORKING_DIRECTORY@,
    ).insert(
        "nifi.python.extensions.source.directory.default"@,
        NIFI_PYTHON_EXTENSIONS_DIRECTORY@,
    )
}

/// Components in Python.
pub fn add_python(properties: &mut StringMap)
    ensures
        final(properties)@ == python_properties(old(properties)@),
{
    properties.put("nifi.python.command", "python3");
    properties.put("nifi.python.framework.source.directory", NIFI_PYTHON_FRAMEWORK_DIRECTORY);
    properties.put("nifi.python.working.directory", NIFI_PYTHON_WORKING_DIRECTORY);
    properties.put(
        "nifi.python.extensions.source.directory.default",
        NIFI_PYTHON_EXTENSIONS_DIRECTORY,
    );
}

} // verus!
