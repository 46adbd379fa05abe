//! What the files of a role group say of each other and of the pods that read them.

use crate::controller::build::properties::nifi_properties;
use crate::controller::build::properties::nifi_properties::{NifiSettingsView, StorageQuotasView};
use crate::controller::build::properties::nifi_sections;
use crate::controller::build::properties::state_management_xml;
use crate::controller::build::resource::node_pod;
use crate::controller::build::resource::node_pod::{NodePodView, SENSITIVE_PROPERTY_VOLUME_NAME};
use crate::controller::build::resource::secret;
use crate::controller::build::resource::secret::SENSITIVE_PROPERTY_KEY_NAME;
use crate::controller::build::resource::volumes;
use crate::controller::build::SENSITIVE_PROPERTY_VOLUME_MOUNT;
use crate::controller::ValidatedClusterView;
use crate::crd::storage::NifiRepository;
use crate::crd::NifiClusteringBackendView;
use crate::kubernetes::{PodContainerView, VolumeMountView, VolumeSourceView, VolumeView};
use crate::security::authentication::NifiAuthenticationConfigView;
use crate::text;
use vstd::prelude::*;

verus! {

/// Whether the user or the OpenID Connect provider sets a property.
pub open spec fn set_from_outside(settings: NifiSettingsView, key: Seq<char>) -> bool {
    settings.overrides.dom().contains(key) || (match settings.authentication {
        NifiAuthenticationConfigView::Oidc { provider } => provider.properties.is_some()
            && provider.properties.unwrap().dom().contains(key),
        _ => false,
    })
}

/// The directories of custom components have properties of their own.
proof fn lemma_custom_components_keep(
    properties: Map<Seq<char>, Seq<char>>,
    folders: Seq<Seq<char>>,
    key: Seq<char>,
)
    requires
        key.len() > 5,
        key[5] == 's',
    ensures
        nifi_properties::custom_component_properties(properties, folders)[key] == properties[key],
        nifi_properties::custom_component_properties(properties, folders).dom().contains(key)
            == properties.dom().contains(key),
    decreases folders.len(),
{
    if folders.len() > 0 {
        lemma_custom_components_keep(properties, folders.drop_last(), key);
        let number = text::decimal((folders.len() - 1) as nat);
        reveal_strlit("nifi.python.extensions.source.directory.");
        reveal_strlit("nifi.nar.library.directory.");
        assert(("nifi.python.extensions.source.directory."@ + number)[5] == 'p');
        assert(("nifi.nar.library.directory."@ + number)[5] == 'n');
    }
}

/// Whether a property is about the management of state: its name starts with `nifi.state.`.
pub open spec fn about_state(key: Seq<char>) -> bool {
    key.len() > 10 && key[5] == 's' && key[6] == 't' && key[7] == 'a' && key[8] == 't' && key[9]
        == 'e' && key[10] == '.'
}

/// No other property is about the management of state.
pub proof fn lemma_other_properties()
    ensures
        !about_state("nifi.database.directory"@),
        !about_state("nifi.h2.url.append"@),
        !about_state("nifi.flowfile.repository.implementation"@),
        !about_state("nifi.flowfile.repository.wal.implementation"@),
        !about_state("nifi.flowfile.repository.directory"@),
        !about_state("nifi.flowfile.repository.checkpoint.interval"@),
        !about_state("nifi.flowfile.repository.always.sync"@),
        !about_state("nifi.flowfile.repository.retain.orphaned.flowfiles"@),
        !about_state("nifi.swap.manager.implementation"@),
        !about_state("nifi.queue.swap.threshold"@),
        !about_state("nifi.content.repository.implementation"@),
        !about_state("nifi.content.claim.max.appendable.size"@),
        !about_state("nifi.content.repository.directory.default"@),
        !about_state("nifi.content.repository.archive.max.retention.period"@),
        !about_state("nifi.content.repository.archive.max.usage.percentage"@),
        !about_state("nifi.content.repository.archive.enabled"@),
        !about_state("nifi.content.repository.always.sync"@),
        !about_state("nifi.content.viewer.url"@),
        !about_state("nifi.provenance.repository.implementation"@),
        !about_state("nifi.provenance.repository.directory.default"@),
        !about_state("nifi.provenance.repository.max.storage.time"@),
        !about_state("nifi.provenance.repository.max.storage.size"@),
        !about_state("nifi.provenance.repository.rollover.time"@),
        !about_state("nifi.provenance.repository.rollover.size"@),
        !about_state("nifi.provenance.repository.query.threads"@),
        !about_state("nifi.provenance.repository.index.threads"@),
        !about_state("nifi.provenance.repository.compress.on.rollover"@),
        !about_state("nifi.provenance.repository.always.sync"@),
        !about_state("nifi.provenance.repository.indexed.fields"@),
        !about_state("nifi.provenance.repository.indexed.attributes"@),
        !about_state("nifi.provenance.repository.index.shard.size"@),
        !about_state("nifi.provenance.repository.max.attribute.length"@),
        !about_state("nifi.provenance.repository.concurrent.merge.threads"@),
        !about_state("nifi.provenance.repository.buffer.size"@),
        !about_state("nifi.components.status.repository.implementation"@),
        !about_state("nifi.components.status.repository.buffer.size"@),
        !about_state("nifi.components.status.snapshot.frequency"@),
        !about_state("nifi.status.repository.questdb.persist.node.days"@),
        !about_state("nifi.status.repository.questdb.persist.component.days"@),
        !about_state("nifi.status.repository.questdb.persist.location"@),
        !about_state("nifi.web.https.host"@),
        !about_state("nifi.web.https.port"@),
        !about_state("nifi.web.https.network.interface.default"@),
        !about_state("nifi.web.https.network.interface.eth0"@),
        !about_state("nifi.web.https.network.interface.lo"@),
        !about_state("nifi.web.jetty.working.directory"@),
        !about_state("nifi.web.jetty.threads"@),
        !about_state("nifi.web.max.header.size"@),
        !about_state("nifi.web.proxy.context.path"@),
        !about_state("nifi.web.proxy.host"@),
        !about_state("nifi.sensitive.props.key"@),
        !about_state("nifi.sensitive.props.key.protected"@),
        !about_state("nifi.sensitive.props.algorithm"@),
        !about_state("nifi.security.keystore"@),
        !about_state("nifi.security.keystoreType"@),
        !about_state("nifi.security.keystorePasswd"@),
        !about_state("nifi.security.truststore"@),
        !about_state("nifi.security.truststoreType"@),
        !about_state("nifi.security.truststorePasswd"@),
        !about_state("nifi.security.user.login.identity.provider"@),
        !about_state("nifi.security.user.authorizer"@),
        !about_state("nifi.security.allow.anonymous.authentication"@),
        !about_state("nifi.cluster.protocol.is.secure"@),
        !about_state("nifi.cluster.is.node"@),
        !about_state("nifi.cluster.node.address"@),
        !about_state("nifi.cluster.node.protocol.port"@),
        !about_state("nifi.cluster.flow.election.max.candidates"@),
        !about_state("nifi.zookeeper.connect.string"@),
        !about_state("nifi.zookeeper.root.node"@),
        !about_state("nifi.cluster.leader.election.implementation"@),
        !about_state("nifi.cluster.leader.election.kubernetes.lease.prefix"@),
        !about_state("nifi.python.command"@),
        !about_state("nifi.python.framework.source.directory"@),
        !about_state("nifi.python.working.directory"@),
        !about_state("nifi.python.extensions.source.directory.default"@),
        !about_state("nifi.cluster.flow.election.max.wait.time"@),
{
    assert(!about_state("nifi.database.directory"@)) by {
        reveal_strlit("nifi.database.directory");
    }
    assert(!about_state("nifi.h2.url.append"@)) by {
        reveal_strlit("nifi.h2.url.append");
    }
    assert(!about_state("nifi.flowfile.repository.implementation"@)) by {
        reveal_strlit("nifi.flowfile.repository.implementation");
    }
    assert(!about_state("nifi.flowfile.repository.wal.implementation"@)) by {
        reveal_strlit("nifi.flowfile.repository.wal.implementation");
    }
    assert(!about_state("nifi.flowfile.repository.directory"@)) by {
        reveal_strlit("nifi.flowfile.repository.directory");
    }
    assert(!about_state("nifi.flowfile.repository.checkpoint.interval"@)) by {
        reveal_strlit("nifi.flowfile.repository.checkpoint.interval");
    }
    assert(!about_state("nifi.flowfile.repository.always.sync"@)) by {
        reveal_strlit("nifi.flowfile.repository.always.sync");
    }
    assert(!about_state("nifi.flowfile.repository.retain.orphaned.flowfiles"@)) by {
        reveal_strlit("nifi.flowfile.repository.retain.orphaned.flowfiles");
    }
    assert(!about_state("nifi.swap.manager.implementation"@)) by {
        reveal_strlit("nifi.swap.manager.implementation");
    }
    assert(!about_state("nifi.queue.swap.threshold"@)) by {
        reveal_strlit("nifi.queue.swap.threshold");
    }
    assert(!about_state("nifi.content.repository.implementation"@)) by {
        reveal_strlit("nifi.content.repository.implementation");
    }
    assert(!about_state("nifi.content.claim.max.appendable.size"@)) by {
        reveal_strlit("nifi.content.claim.max.appendable.size");
    }
    assert(!about_state("nifi.content.repository.directory.default"@)) by {
        reveal_strlit("nifi.content.repository.directory.default");
    }
    assert(!about_state("nifi.content.repository.archive.max.retention.period"@)) by {
        reveal_strlit("nifi.content.repository.archive.max.retention.period");
    }
    assert(!about_state("nifi.content.repository.archive.max.usage.percentage"@)) by {
        reveal_strlit("nifi.content.repository.archive.max.usage.percentage");
    }
    assert(!about_state("nifi.content.repository.archive.enabled"@)) by {
        reveal_strlit("nifi.content.repository.archive.enabled");
    }
    assert(!about_state("nifi.content.repository.always.sync"@)) by {
        reveal_strlit("nifi.content.repository.always.sync");
    }
    assert(!about_state("nifi.content.viewer.url"@)) by {
        reveal_strlit("nifi.content.viewer.url");
    }
    assert(!about_state("nifi.provenance.repository.implementation"@)) by {
        reveal_strlit("nifi.provenance.repository.implementation");
    }
    assert(!about_state("nifi.provenance.repository.directory.default"@)) by {
        reveal_strlit("nifi.provenance.repository.directory.default");
    }
    assert(!about_state("nifi.provenance.repository.max.storage.time"@)) by {
        reveal_strlit("nifi.provenance.repository.max.storage.time");
    }
    assert(!about_state("nifi.provenance.repository.max.storage.size"@)) by {
        reveal_strlit("nifi.provenance.repository.max.storage.size");
    }
    assert(!about_state("nifi.provenance.repository.rollover.time"@)) by {
        reveal_strlit("nifi.provenance.repository.rollover.time");
    }
    assert(!about_state("nifi.provenance.repository.rollover.size"@)) by {
        reveal_strlit("nifi.provenance.repository.rollover.size");
    }
    assert(!about_state("nifi.provenance.repository.query.threads"@)) by {
        reveal_strlit("nifi.provenance.repository.query.threads");
    }
    assert(!about_state("nifi.provenance.repository.index.threads"@)) by {
        reveal_strlit("nifi.provenance.repository.index.threads");
    }
    assert(!about_state("nifi.provenance.repository.compress.on.rollover"@)) by {
        reveal_strlit("nifi.provenance.repository.compress.on.rollover");
    }
    assert(!about_state("nifi.provenance.repository.always.sync"@)) by {
        reveal_strlit("nifi.provenance.repository.always.sync");
    }
    assert(!about_state("nifi.provenance.repository.indexed.fields"@)) by {
        reveal_strlit("nifi.provenance.repository.indexed.fields");
    }
    assert(!about_state("nifi.provenance.repository.indexed.attributes"@)) by {
        reveal_strlit("nifi.provenance.repository.indexed.attributes");
    }
    assert(!about_state("nifi.provenance.repository.index.shard.size"@)) by {
        reveal_strlit("nifi.provenance.repository.index.shard.size");
    }
    assert(!about_state("nifi.provenance.repository.max.attribute.length"@)) by {
        reveal_strlit("nifi.provenance.repository.max.attribute.length");
    }
    assert(!about_state("nifi.provenance.repository.concurrent.merge.threads"@)) by {
        reveal_strlit("nifi.provenance.repository.concurrent.merge.threads");
    }
    assert(!about_state("nifi.provenance.repository.buffer.size"@)) by {
        reveal_strlit("nifi.provenance.repository.buffer.size");
    }
    assert(!about_state("nifi.components.status.repository.implementation"@)) by {
        reveal_strlit("nifi.components.status.repository.implementation");
    }
    assert(!about_state("nifi.components.status.repository.buffer.size"@)) by {
        reveal_strlit("nifi.components.status.repository.buffer.size");
    }
    assert(!about_state("nifi.components.status.snapshot.frequency"@)) by {
        reveal_strlit("nifi.components.status.snapshot.frequency");
    }
    assert(!about_state("nifi.status.repository.questdb.persist.node.days"@)) by {
        reveal_strlit("nifi.status.repository.questdb.persist.node.days");
    }
    assert(!about_state("nifi.status.repository.questdb.persist.component.days"@)) by {
        reveal_strlit("nifi.status.repository.questdb.persist.component.days");
    }
    assert(!about_state("nifi.status.repository.questdb.persist.location"@)) by {
        reveal_strlit("nifi.status.repository.questdb.persist.location");
    }
    assert(!about_state("nifi.web.https.host"@)) by {
        reveal_strlit("nifi.web.https.host");
    }
    assert(!about_state("nifi.web.https.port"@)) by {
        reveal_strlit("nifi.web.https.port");
    }
    assert(!about_state("nifi.web.https.network.interface.default"@)) by {
        reveal_strlit("nifi.web.https.network.interface.default");
    }
    assert(!about_state("nifi.web.https.network.interface.eth0"@)) by {
        reveal_strlit("nifi.web.https.network.interface.eth0");
    }
    assert(!about_state("nifi.web.https.network.interface.lo"@)) by {
        reveal_strlit("nifi.web.https.network.interface.lo");
    }
    assert(!about_state("nifi.web.jetty.working.directory"@)) by {
        reveal_strlit("nifi.web.jetty.working.directory");
    }
    assert(!about_state("nifi.web.jetty.threads"@)) by {
        reveal_strlit("nifi.web.jetty.threads");
    }
    assert(!about_state("nifi.web.max.header.size"@)) by {
        reveal_strlit("nifi.web.max.header.size");
    }
    assert(!about_state("nifi.web.proxy.context.path"@)) by {
        reveal_strlit("nifi.web.proxy.context.path");
    }
    assert(!about_state("nifi.web.proxy.host"@)) by {
        reveal_strlit("nifi.web.proxy.host");
    }
    assert(!about_state("nifi.sensitive.props.key"@)) by {
        reveal_strlit("nifi.sensitive.props.key");
    }
    assert(!about_state("nifi.sensitive.props.key.protected"@)) by {
        reveal_strlit("nifi.sensitive.props.key.protected");
    }
    assert(!about_state("nifi.sensitive.props.algorithm"@)) by {
        reveal_strlit("nifi.sensitive.props.algorithm");
    }
    assert(!about_state("nifi.security.keystore"@)) by {
        reveal_strlit("nifi.security.keystore");
    }
    assert(!about_state("nifi.security.keystoreType"@)) by {
        reveal_strlit("nifi.security.keystoreType");
    }
    assert(!about_state("nifi.security.keystorePasswd"@)) by {
        reveal_strlit("nifi.security.keystorePasswd");
    }
    assert(!about_state("nifi.security.truststore"@)) by {
        reveal_strlit("nifi.security.truststore");
    }
    assert(!about_state("nifi.security.truststoreType"@)) by {
        reveal_strlit("nifi.security.truststoreType");
    }
    assert(!about_state("nifi.security.truststorePasswd"@)) by {
        reveal_strlit("nifi.security.truststorePasswd");
    }
    assert(!about_state("nifi.security.user.login.identity.provider"@)) by {
        reveal_strlit("nifi.security.user.login.identity.provider");
    }
    assert(!about_state("nifi.security.user.authorizer"@)) by {
        reveal_strlit("nifi.security.user.authorizer");
    }
    assert(!about_state("nifi.security.allow.anonymous.authentication"@)) by {
        reveal_strlit("nifi.security.allow.anonymous.authentication");
    }
    assert(!about_state("nifi.cluster.protocol.is.secure"@)) by {
        reveal_strlit("nifi.cluster.protocol.is.secure");
    }
    assert(!about_state("nifi.cluster.is.node"@)) by {
        reveal_strlit("nifi.cluster.is.node");
    }
    assert(!about_state("nifi.cluster.node.address"@)) by {
        reveal_strlit("nifi.cluster.node.address");
    }
    assert(!about_state("nifi.cluster.node.protocol.port"@)) by {
        reveal_strlit("nifi.cluster.node.protocol.port");
    }
    assert(!about_state("nifi.cluster.flow.election.max.candidates"@)) by {
        reveal_strlit("nifi.cluster.flow.election.max.candidates");
    }
    assert(!about_state("nifi.zookeeper.connect.string"@)) by {
        reveal_strlit("nifi.zookeeper.connect.string");
    }
    assert(!about_state("nifi.zookeeper.root.node"@)) by {
        reveal_strlit("nifi.zookeeper.root.node");
    }
    assert(!about_state("nifi.cluster.leader.election.implementation"@)) by {
        reveal_strlit("nifi.cluster.leader.election.implementation");
    }
    assert(!about_state("nifi.cluster.leader.election.kubernetes.lease.prefix"@)) by {
        reveal_strlit("nifi.cluster.leader.election.kubernetes.lease.prefix");
    }
    assert(!about_state("nifi.python.command"@)) by {
        reveal_strlit("nifi.python.command");
    }
    assert(!about_state("nifi.python.framework.source.directory"@)) by {
        reveal_strlit("nifi.python.framework.source.directory");
    }
    assert(!about_state("nifi.python.working.directory"@)) by {
        reveal_strlit("nifi.python.working.directory");
    }
    assert(!about_state("nifi.python.extensions.source.directory.default"@)) by {
        reveal_strlit("nifi.python.extensions.source.directory.default");
    }
    assert(!about_state("nifi.cluster.flow.election.max.wait.time"@)) by {
        reveal_strlit("nifi.cluster.flow.election.max.wait.time");
    }
}

/// The properties about the management of state have different names.
pub proof fn lemma_state_properties()
    ensures
        about_state("nifi.state.management.provider.local"@),
        about_state("nifi.state.management.provider.cluster"@),
        "nifi.state.management.provider.local"@ != "nifi.state.management.provider.cluster"@,
        "nifi.state.management.provider.local"@
            != "nifi.state.management.embedded.zookeeper.start"@,
        "nifi.state.management.provider.cluster"@
            != "nifi.state.management.embedded.zookeeper.start"@,
{
    reveal_strlit("nifi.state.management.provider.local");
    reveal_strlit("nifi.state.management.provider.cluster");
    reveal_strlit("nifi.state.management.embedded.zookeeper.start");
    assert("nifi.state.management.provider.local"@.len() == 36);
    assert("nifi.state.management.provider.cluster"@.len() == 38);
    assert("nifi.state.management.embedded.zookeeper.start"@.len() == 46);
}

/// No later property has the name of the key of the sensitive properties.
proof fn lemma_key_property_stays()
    ensures
        "nifi.sensitive.props.key"@ != "nifi.sensitive.props.key.protected"@,
        "nifi.sensitive.props.key"@ != "nifi.sensitive.props.algorithm"@,
        "nifi.sensitive.props.key"@ != "nifi.security.keystore"@,
        "nifi.sensitive.props.key"@ != "nifi.security.keystoreType"@,
        "nifi.sensitive.props.key"@ != "nifi.security.keystorePasswd"@,
        "nifi.sensitive.props.key"@ != "nifi.security.truststore"@,
        "nifi.sensitive.props.key"@ != "nifi.security.truststoreType"@,
        "nifi.sensitive.props.key"@ != "nifi.security.truststorePasswd"@,
        "nifi.sensitive.props.key"@ != "nifi.security.user.login.identity.provider"@,
        "nifi.sensitive.props.key"@ != "nifi.security.user.authorizer"@,
        "nifi.sensitive.props.key"@ != "nifi.security.allow.anonymous.authentication"@,
        "nifi.sensitive.props.key"@ != "nifi.cluster.protocol.is.secure"@,
        "nifi.sensitive.props.key"@ != "nifi.cluster.is.node"@,
        "nifi.sensitive.props.key"@ != "nifi.cluster.node.address"@,
        "nifi.sensitive.props.key"@ != "nifi.cluster.node.protocol.port"@,
        "nifi.sensitive.props.key"@ != "nifi.cluster.flow.election.max.candidates"@,
        "nifi.sensitive.props.key"@ != "nifi.zookeeper.connect.string"@,
        "nifi.sensitive.props.key"@ != "nifi.zookeeper.root.node"@,
        "nifi.sensitive.props.key"@ != "nifi.cluster.leader.election.implementation"@,
        "nifi.sensitive.props.key"@ != "nifi.cluster.leader.election.kubernetes.lease.prefix"@,
        "nifi.sensitive.props.key"@ != "nifi.python.command"@,
        "nifi.sensitive.props.key"@ != "nifi.python.framework.source.directory"@,
        "nifi.sensitive.props.key"@ != "nifi.python.working.directory"@,
        "nifi.sensitive.props.key"@ != "nifi.python.extensions.source.directory.default"@,
{
    let key = "nifi.sensitive.props.key"@;
    reveal_strlit("nifi.sensitive.props.key");
    assert(key.len() != "nifi.sensitive.props.key.protected"@.len()) by {
        reveal_strlit("nifi.sensitive.props.key.protected");
    }
    assert(key.len() != "nifi.sensitive.props.algorithm"@.len()) by {
        reveal_strlit("nifi.sensitive.props.algorithm");
    }
    assert(key.len() != "nifi.security.keystore"@.len()) by {
        reveal_strlit("nifi.security.keystore");
    }
    assert(key.len() != "nifi.security.keystoreType"@.len()) by {
        reveal_strlit("nifi.security.keystoreType");
    }
    assert(key.len() != "nifi.security.keystorePasswd"@.len()) by {
        reveal_strlit("nifi.security.keystorePasswd");
    }
    assert(key[7] != "nifi.security.truststore"@[7]) by {
        reveal_strlit("nifi.security.truststore");
    }
    assert(key.len() != "nifi.security.truststoreType"@.len()) by {
        reveal_strlit("nifi.security.truststoreType");
    }
    assert(key.len() != "nifi.security.truststorePasswd"@.len()) by {
        reveal_strlit("nifi.security.truststorePasswd");
    }
    assert(key.len() != "nifi.security.user.login.identity.provider"@.len()) by {
        reveal_strlit("nifi.security.user.login.identity.provider");
    }
    assert(key.len() != "nifi.security.user.authorizer"@.len()) by {
        reveal_strlit("nifi.security.user.authorizer");
    }
    assert(key.len() != "nifi.security.allow.anonymous.authentication"@.len()) by {
        reveal_strlit("nifi.security.allow.anonymous.authentication");
    }
    assert(key.len() != "nifi.cluster.protocol.is.secure"@.len()) by {
        reveal_strlit("nifi.cluster.protocol.is.secure");
    }
    assert(key.len() != "nifi.cluster.is.node"@.len()) by {
        reveal_strlit("nifi.cluster.is.node");
    }
    assert(key.len() != "nifi.cluster.node.address"@.len()) by {
        reveal_strlit("nifi.cluster.node.address");
    }
    assert(key.len() != "nifi.cluster.node.protocol.port"@.len()) by {
        reveal_strlit("nifi.cluster.node.protocol.port");
    }
    assert(key.len() != "nifi.cluster.flow.election.max.candidates"@.len()) by {
        reveal_strlit("nifi.cluster.flow.election.max.candidates");
    }
    assert(key.len() != "nifi.zookeeper.connect.string"@.len()) by {
        reveal_strlit("nifi.zookeeper.connect.string");
    }
    assert(key[5] != "nifi.zookeeper.root.node"@[5]) by {
        reveal_strlit("nifi.zookeeper.root.node");
    }
    assert(key.len() != "nifi.cluster.leader.election.implementation"@.len()) by {
        reveal_strlit("nifi.cluster.leader.election.implementation");
    }
    assert(key.len() != "nifi.cluster.leader.election.kubernetes.lease.prefix"@.len()) by {
        reveal_strlit("nifi.cluster.leader.election.kubernetes.lease.prefix");
    }
    assert(key.len() != "nifi.python.command"@.len()) by {
        reveal_strlit("nifi.python.command");
    }
    assert(key.len() != "nifi.python.framework.source.directory"@.len()) by {
        reveal_strlit("nifi.python.framework.source.directory");
    }
    assert(key.len() != "nifi.python.working.directory"@.len()) by {
        reveal_strlit("nifi.python.working.directory");
    }
    assert(key.len() != "nifi.python.extensions.source.directory.default"@.len()) by {
        reveal_strlit("nifi.python.extensions.source.directory.default");
    }
}

/// NiFi looks for a provider of shared state that `state-management.xml` defines, unless the user
/// names another one.
pub proof fn law_shared_state_provider_is_defined(
    settings: NifiSettingsView,
    proxy_hosts: Seq<char>,
    quotas: StorageQuotasView,
)
    requires
        nifi_properties::failure(settings, quotas).is_none(),
        !set_from_outside(settings, "nifi.state.management.provider.cluster"@),
    ensures
        nifi_properties::nifi_properties(settings, proxy_hosts, quotas).dom().contains(
            "nifi.state.management.provider.cluster"@,
        ),
        text::holds(
            state_management_xml::state_management_file(settings.clustering_backend),
            state_management_xml::identifier(
                nifi_properties::nifi_properties(settings, proxy_hosts, quotas)[
                    "nifi.state.management.provider.cluster"@
                ],
            ),
        ),
{
    let key = "nifi.state.management.provider.cluster"@;
    let id = settings.clustering_backend.state_provider_id();
    lemma_other_properties();
    lemma_state_properties();
    assert(key.len() > 5 && key[5] == 's') by {
        reveal_strlit("nifi.state.management.provider.cluster");
    }
    let storage = nifi_properties::storage_properties(settings, quotas);
    assert(storage.dom().contains(key) && storage[key] == id);
    let access = nifi_properties::access_properties(storage, settings, proxy_hosts);
    assert(access.dom().contains(key) && access[key] == id);
    let membership = nifi_sections::python_properties(
        nifi_properties::backend_properties(
            nifi_sections::flow_election_properties(nifi_sections::cluster_node_properties(access)),
            settings.clustering_backend,
        ),
    );
    assert(membership.dom().contains(key) && membership[key] == id);
    lemma_custom_components_keep(membership, settings.git_content_folders, key);
    let before = state_management_xml::STATE_MANAGEMENT_START@ + state_management_xml::identifier(
        state_management_xml::LOCAL_STATE_PROVIDER_ID@,
    ) + state_management_xml::STATE_MANAGEMENT_UP_TO_DIRECTORY@
        + NifiRepository::State.directory()
        + state_management_xml::STATE_MANAGEMENT_UP_TO_CLUSTER_PROVIDER@
        + state_management_xml::CLUSTER_PROVIDER_START@;
    let after = (match settings.clustering_backend {
        NifiClusteringBackendView::ZooKeeper { .. } =>
            state_management_xml::ZOOKEEPER_PROVIDER_SETTINGS@,
        NifiClusteringBackendView::Kubernetes =>
            state_management_xml::KUBERNETES_PROVIDER_SETTINGS@,
    }) + state_management_xml::STATE_MANAGEMENT_END@;
    assert(state_management_xml::state_management_file(settings.clustering_backend) =~= before
        + state_management_xml::identifier(id) + after);
    text::lemma_holds(before, state_management_xml::identifier(id), after);
}

/// The volume with the key of the sensitive properties.
pub open spec fn key_volume(pod: NodePodView) -> VolumeView {
    VolumeView {
        name: SENSITIVE_PROPERTY_VOLUME_NAME@,
        source: VolumeSourceView::Secret {
            secret_name: pod.sensitive_key_secret,
            optional: None,
            items: Seq::empty(),
        },
    }
}

/// Every pod has the Secret with the key of the sensitive properties as a volume, and the container
/// that resolves the references in the files mounts it.
pub proof fn law_sensitive_key_is_mounted(pod: NodePodView)
    requires
        pod.outcome().is_ok(),
    ensures
        pod.outcome()->Ok_0.volumes.contains(key_volume(pod)),
        exists|mounts: Seq<VolumeMountView>|
            mounts.contains(
                volumes::whole_mount(
                    SENSITIVE_PROPERTY_VOLUME_NAME@,
                    SENSITIVE_PROPERTY_VOLUME_MOUNT@,
                ),
            ) && pod.outcome()->Ok_0.init_containers.last() == (PodContainerView::Own {
                container: #[trigger] pod.prepare_container(mounts),
            }),
{
    let mount = volumes::whole_mount(
        SENSITIVE_PROPERTY_VOLUME_NAME@,
        SENSITIVE_PROPERTY_VOLUME_MOUNT@,
    );
    let prepare = volumes::put_mounts(Seq::empty(), pod.prepare_mounts()).unwrap();
    assert(pod.prepare_mounts()[8] == mount);
    volumes::lemma_put_mounts(Seq::empty(), pod.prepare_mounts(), mount);
    let (user_prepare, others) = pod.with_user_mounts(prepare).unwrap();
    volumes::lemma_put_mounts(prepare, node_pod::user_mounts(pod.extra_volumes), mount);
    let mounts = volumes::put_mounts(user_prepare, pod.authentication.volume_mounts()).unwrap();
    volumes::lemma_put_mounts(user_prepare, pod.authentication.volume_mounts(), mount);
    let nifi = volumes::put_mounts(Seq::empty(), pod.nifi_mounts()).unwrap();
    let extra = node_pod::with_extra_volumes(Seq::empty(), nifi, pod.extra_volumes)->Ok_0;
    let custom = pod.with_custom_components(extra.0, extra.1)->Ok_0;
    let with_auth = volumes::put_volumes(custom.0, pod.authentication.volumes()).unwrap();
    let lifetime = pod.requested_secret_lifetime_seconds.unwrap();
    let common = pod.common_volumes(lifetime);
    assert(common[pod.authorization_volumes.len() as int + 5] == key_volume(pod));
    volumes::lemma_put_volumes(with_auth, common, key_volume(pod));
    assert(pod.outcome()->Ok_0.init_containers == pod.init_containers(
        mounts,
        others.git_sync_init,
    ));
    assert(pod.outcome()->Ok_0.init_containers.last() == PodContainerView::Own {
        container: pod.prepare_container(mounts),
    });
}

/// The key of the sensitive properties is read from the place where its Secret is mounted, under the
/// name that a generated Secret gives it, unless the user says otherwise.
pub proof fn law_sensitive_key_is_read_from_its_secret(
    settings: NifiSettingsView,
    proxy_hosts: Seq<char>,
    quotas: StorageQuotasView,
    cluster: ValidatedClusterView,
    name: Seq<char>,
    password: Seq<char>,
)
    requires
        nifi_properties::failure(settings, quotas).is_none(),
        !set_from_outside(settings, "nifi.sensitive.props.key"@),
    ensures
        nifi_properties::nifi_properties(settings, proxy_hosts, quotas).dom().contains(
            "nifi.sensitive.props.key"@,
        ),
        nifi_properties::nifi_properties(settings, proxy_hosts, quotas)["nifi.sensitive.props.key"@]
            == "${file:UTF-8:"@ + (SENSITIVE_PROPERTY_VOLUME_MOUNT@ + "/"@
            + SENSITIVE_PROPERTY_KEY_NAME@) + "}"@,
        secret::password_secret(
            cluster,
            name,
            SENSITIVE_PROPERTY_KEY_NAME@,
            password,
        ).string_data.unwrap().dom().contains(SENSITIVE_PROPERTY_KEY_NAME@),
{
    let key = "nifi.sensitive.props.key"@;
    lemma_key_property_stays();
    assert(key.len() > 5 && key[5] == 's') by {
        reveal_strlit("nifi.sensitive.props.key");
    }
    let storage = nifi_properties::storage_properties(settings, quotas);
    let access = nifi_properties::access_properties(storage, settings, proxy_hosts);
    let membership = nifi_sections::python_properties(
        nifi_properties::backend_properties(
            nifi_sections::flow_election_properties(nifi_sections::cluster_node_properties(access)),
            settings.clustering_backend,
        ),
    );
    assert(membership.dom().contains(key) && membership[key] == access[key]);
    lemma_custom_components_keep(membership, settings.git_content_folders, key);
}

/// The security properties of an OpenID Connect provider stand in the file, unless the user sets
/// others.
pub proof fn law_openid_connect_is_configured(
    settings: NifiSettingsView,
    proxy_hosts: Seq<char>,
    quotas: StorageQuotasView,
    key: Seq<char>,
)
    requires
        "nifi.security."@.is_prefix_of(key),
        !settings.overrides.dom().contains(key),
    ensures
        ({
            let all = nifi_properties::nifi_properties(settings, proxy_hosts, quotas);
            settings.authentication matches NifiAuthenticationConfigView::Oidc { provider }
                ==> provider.properties.is_some() && provider.properties.unwrap().dom().contains(
                key,
            ) ==> all.dom().contains(key) && all[key] == provider.properties.unwrap()[key]
        }),
{
    reveal_strlit("nifi.security.");
    reveal_strlit("nifi.cluster.protocol.is.secure");
    reveal_strlit("nifi.cluster.is.node");
    reveal_strlit("nifi.cluster.node.address");
    reveal_strlit("nifi.cluster.node.protocol.port");
    reveal_strlit("nifi.cluster.flow.election.max.candidates");
    reveal_strlit("nifi.zookeeper.connect.string");
    reveal_strlit("nifi.zookeeper.root.node");
    reveal_strlit("nifi.cluster.leader.election.implementation");
    reveal_strlit("nifi.cluster.leader.election.kubernetes.lease.prefix");
    reveal_strlit("nifi.python.command");
    reveal_strlit("nifi.python.framework.source.directory");
    reveal_strlit("nifi.python.working.directory");
    reveal_strlit("nifi.python.extensions.source.directory.default");
    let start = "nifi.security."@;
    assert(start == key.subrange(0, start.len() as int));
    assert(start[5] == key.subrange(0, start.len() as int)[5]);
    assert(key[5] == 's');
    let storage = nifi_properties::storage_properties(settings, quotas);
    let access = nifi_properties::access_properties(storage, settings, proxy_hosts);
    let node = nifi_sections::flow_election_properties(
        nifi_sections::cluster_node_properties(access),
    );
    assert(node.dom().contains(key) == access.dom().contains(key) && node[key] == access[key]);
    let backend = nifi_properties::backend_properties(node, settings.clustering_backend);
    assert(backend.dom().contains(key) == node.dom().contains(key) && backend[key] == node[key]);
    let python = nifi_sections::python_properties(backend);
    assert(python.dom().contains(key) == backend.dom().contains(key) && python[key]
        == backend[key]);
    lemma_custom_components_keep(python, settings.git_content_folders, key);
}

} // verus!
