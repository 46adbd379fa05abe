//! What `nifi.properties` says, property by property.

use crate::controller::build::properties::consistency;
use crate::controller::build::properties::nifi_properties;
use crate::controller::build::properties::nifi_properties::{NifiSettingsView, StorageQuotasView};
use crate::controller::build::properties::nifi_sections;
use crate::controller::build::properties::Error;
use crate::crd::storage::NifiRepository;
use crate::crd::NifiClusteringBackendView;
use crate::security::authentication::NifiAuthenticationConfigView;
use crate::text;
use vstd::prelude::*;

verus! {

/// A number by which the names of the properties are told apart.
#[verifier::opaque]
pub closed spec fn fingerprint(name: Seq<char>) -> int {
    ((name.len() * 128 + name[9] as int) * 128 + name[name.len() - 2] as int) * 128
        + name[name.len() - 9] as int
}

/// The names of the properties are all different.
pub proof fn lemma_fingerprints()
    ensures
        fingerprint("nifi.flow.configuration.archive.enabled"@) == 82555621,
        fingerprint("nifi.flow.configuration.archive.dir"@) == 74167523,
        fingerprint("nifi.flow.configuration.archive.max.time"@) == 84653742,
        fingerprint("nifi.flow.configuration.archive.max.count"@) == 86751085,
        fingerprint("nifi.flowcontroller.autoResumeState"@) == 75037299,
        fingerprint("nifi.flowcontroller.graceful.shutdown.period"@) == 93911031,
        fingerprint("nifi.flowservice.writedelay.interval"@) == 77394094,
        fingerprint("nifi.administrative.yield.duration"@) == 73119662,
        fingerprint("nifi.authorizer.configuration.file"@) == 73135732,
        fingerprint("nifi.login.identity.provider.configuration.file"@) == 100382324,
        fingerprint("nifi.templates.directory"@) == 52115812,
        fingerprint("nifi.ui.banner.text"@) == 41450606,
        fingerprint("nifi.ui.autorefresh.interval"@) == 60649646,
        fingerprint("nifi.nar.library.directory"@) == 56310116,
        fingerprint("nifi.nar.library.autoload.directory"@) == 75184484,
        fingerprint("nifi.nar.working.directory"@) == 56490340,
        fingerprint("nifi.documentation.working.directory"@) == 77298020,
        fingerprint("nifi.state.management.configuration.file"@) == 85554804,
        fingerprint("nifi.state.management.provider.local"@) == 77164772,
        fingerprint("nifi.state.management.provider.cluster"@) == 81359602,
        fingerprint("nifi.state.management.embedded.zookeeper.start"@) == 98138480,
        fingerprint("nifi.database.directory"@) == 49854820,
        fingerprint("nifi.h2.url.append"@) == 39630706,
        fingerprint("nifi.flowfile.repository.implementation"@) == 83474413,
        fingerprint("nifi.flowfile.repository.wal.implementation"@) == 91863021,
        fingerprint("nifi.flowfile.repository.directory"@) == 72989028,
        fingerprint("nifi.flowfile.repository.checkpoint.interval"@) == 93958318,
        fingerprint("nifi.flowfile.repository.always.sync"@) == 77182839,
        fingerprint("nifi.flowfile.repository.retain.orphaned.flowfiles"@) == 106541798,
        fingerprint("nifi.swap.manager.implementation"@) == 67876845,
        fingerprint("nifi.queue.swap.threshold"@) == 54097524,
        fingerprint("nifi.content.repository.implementation"@) == 81360877,
        fingerprint("nifi.content.claim.max.appendable.size"@) == 81362273,
        fingerprint("nifi.content.repository.directory.default"@) == 87651961,
        fingerprint("nifi.content.repository.archive.max.retention.period"@) == 110721007,
        fingerprint("nifi.content.repository.archive.max.usage.percentage"@) == 110719973,
        fingerprint("nifi.content.repository.archive.enabled"@) == 83456741,
        fingerprint("nifi.content.repository.always.sync"@) == 75069303,
        fingerprint("nifi.content.viewer.url"@) == 49903977,
        fingerprint("nifi.provenance.repository.implementation"@) == 87652333,
        fingerprint("nifi.provenance.repository.directory.default"@) == 93943417,
        fingerprint("nifi.provenance.repository.max.storage.time"@) == 91846386,
        fingerprint("nifi.provenance.repository.rollover.time"@) == 85554927,
        fingerprint("nifi.provenance.repository.rollover.size"@) == 85556591,
        fingerprint("nifi.provenance.repository.query.threads"@) == 85553785,
        fingerprint("nifi.provenance.repository.index.threads"@) == 85553784,
        fingerprint("nifi.provenance.repository.compress.on.rollover"@) == 100233902,
        fingerprint("nifi.provenance.repository.always.sync"@) == 81360759,
        fingerprint("nifi.provenance.repository.indexed.fields"@) == 87650917,
        fingerprint("nifi.provenance.repository.indexed.attributes"@) == 96039668,
        fingerprint("nifi.provenance.repository.index.shard.size"@) == 91848040,
        fingerprint("nifi.provenance.repository.max.attribute.length"@) == 100235892,
        fingerprint("nifi.provenance.repository.concurrent.merge.threads"@) == 108622437,
        fingerprint("nifi.provenance.repository.buffer.size"@) == 81362278,
        fingerprint("nifi.components.status.repository.implementation"@) == 102496237,
        fingerprint("nifi.components.status.repository.buffer.size"@) == 96206182,
        fingerprint("nifi.components.status.snapshot.frequency"@) == 87814630,
        fingerprint("nifi.status.repository.questdb.persist.node.days"@) == 102595822,
        fingerprint("nifi.status.repository.questdb.persist.component.days"@) == 113081582,
        fingerprint("nifi.status.repository.questdb.persist.location"@) == 100497326,
        fingerprint("nifi.web.https.host"@) == 41564660,
        fingerprint("nifi.web.https.port"@) == 41564532,
        fingerprint("nifi.web.https.network.interface.default"@) == 85603941,
        fingerprint("nifi.web.https.network.interface.eth0"@) == 79311974,
        fingerprint("nifi.web.https.network.interface.lo"@) == 75118181,
        fingerprint("nifi.web.jetty.working.directory"@) == 68860260,
        fingerprint("nifi.web.jetty.threads"@) == 47886969,
        fingerprint("nifi.web.max.header.size"@) == 52133217,
        fingerprint("nifi.web.proxy.context.path"@) == 58473076,
        fingerprint("nifi.web.proxy.host"@) == 41695730,
        fingerprint("nifi.sensitive.props.key"@) == 52065008,
        fingerprint("nifi.sensitive.props.key.protected"@) == 73036528,
        fingerprint("nifi.sensitive.props.algorithm"@) == 64648289,
        fingerprint("nifi.security.keystore"@) == 48019758,
        fingerprint("nifi.security.keystoreType"@) == 56408179,
        fingerprint("nifi.security.keystorePasswd"@) == 60603375,
        fingerprint("nifi.security.truststore"@) == 52214130,
        fingerprint("nifi.security.truststoreType"@) == 60602483,
        fingerprint("nifi.security.truststorePasswd"@) == 64797679,
        fingerprint("nifi.security.user.login.identity.provider"@) == 89961134,
        fingerprint("nifi.security.user.authorizer"@) == 62698229,
        fingerprint("nifi.security.allow.anonymous.authentication"@) == 94156782,
        fingerprint("nifi.cluster.protocol.is.secure"@) == 66926953,
        fingerprint("nifi.cluster.is.node"@) == 43856498,
        fingerprint("nifi.cluster.node.address"@) == 54344165,
        fingerprint("nifi.cluster.node.protocol.port"@) == 66926959,
        fingerprint("nifi.cluster.flow.election.max.candidates"@) == 87896801,
        fingerprint("nifi.zookeeper.connect.string"@) == 62486371,
        fingerprint("nifi.zookeeper.root.node"@) == 51999346,
        fingerprint("nifi.cluster.leader.election.implementation"@) == 92092397,
        fingerprint("nifi.cluster.leader.election.kubernetes.lease.prefix"@) == 110966003,
        fingerprint("nifi.python.command"@) == 41678702,
        fingerprint("nifi.python.framework.source.directory"@) == 81525092,
        fingerprint("nifi.python.working.directory"@) == 62650724,
        fingerprint("nifi.python.extensions.source.directory.default"@) == 100398713,
        fingerprint("nifi.flow.configuration.file"@) == 59487860,
        fingerprint("nifi.flow.configuration.json.file"@) == 69973610,
        fingerprint("nifi.flow.configuration.archive.max.storage"@) == 90944504,
        fingerprint("nifi.provenance.repository.max.storage.size"@) == 91848050,
{
    assert(fingerprint("nifi.flow.configuration.archive.enabled"@) == 82555621) by {
        reveal(fingerprint);
        reveal_strlit("nifi.flow.configuration.archive.enabled");
    }
    assert(fingerprint("nifi.flow.configuration.archive.dir"@) == 74167523) by {
        reveal(fingerprint);
        reveal_strlit("nifi.flow.configuration.archive.dir");
    }
    assert(fingerprint("nifi.flow.configuration.archive.max.time"@) == 84653742) by {
        reveal(fingerprint);
        reveal_strlit("nifi.flow.configuration.archive.max.time");
    }
    assert(fingerprint("nifi.flow.configuration.archive.max.count"@) == 86751085) by {
        reveal(fingerprint);
        reveal_strlit("nifi.flow.configuration.archive.max.count");
    }
    assert(fingerprint("nifi.flowcontroller.autoResumeState"@) == 75037299) by {
        reveal(fingerprint);
        reveal_strlit("nifi.flowcontroller.autoResumeState");
    }
    assert(fingerprint("nifi.flowcontroller.graceful.shutdown.period"@) == 93911031) by {
        reveal(fingerprint);
        reveal_strlit("nifi.flowcontroller.graceful.shutdown.period");
    }
    assert(fingerprint("nifi.flowservice.writedelay.interval"@) == 77394094) by {
        reveal(fingerprint);
        reveal_strlit("nifi.flowservice.writedelay.interval");
    }
    assert(fingerprint("nifi.administrative.yield.duration"@) == 73119662) by {
        reveal(fingerprint);
        reveal_strlit("nifi.administrative.yield.duration");
    }
    assert(fingerprint("nifi.authorizer.configuration.file"@) == 73135732) by {
        reveal(fingerprint);
        reveal_strlit("nifi.authorizer.configuration.file");
    }
    assert(fingerprint("nifi.login.identity.provider.configuration.file"@) == 100382324) by {
        reveal(fingerprint);
        reveal_strlit("nifi.login.identity.provider.configuration.file");
    }
    assert(fingerprint("nifi.templates.directory"@) == 52115812) by {
        reveal(fingerprint);
        reveal_strlit("nifi.templates.directory");
    }
    assert(fingerprint("nifi.ui.banner.text"@) == 41450606) by {
        reveal(fingerprint);
        reveal_strlit("nifi.ui.banner.text");
    }
    assert(fingerprint("nifi.ui.autorefresh.interval"@) == 60649646) by {
        reveal(fingerprint);
        reveal_strlit("nifi.ui.autorefresh.interval");
    }
    assert(fingerprint("nifi.nar.library.directory"@) == 56310116) by {
        reveal(fingerprint);
        reveal_strlit("nifi.nar.library.directory");
    }
    assert(fingerprint("nifi.nar.library.autoload.directory"@) == 75184484) by {
        reveal(fingerprint);
        reveal_strlit("nifi.nar.library.autoload.directory");
    }
    assert(fingerprint("nifi.nar.working.directory"@) == 56490340) by {
        reveal(fingerprint);
        reveal_strlit("nifi.nar.working.directory");
    }
    assert(fingerprint("nifi.documentation.working.directory"@) == 77298020) by {
        reveal(fingerprint);
        reveal_strlit("nifi.documentation.working.directory");
    }
    assert(fingerprint("nifi.state.management.configuration.file"@) == 85554804) by {
        reveal(fingerprint);
        reveal_strlit("nifi.state.management.configuration.file");
    }
    assert(fingerprint("nifi.state.management.provider.local"@) == 77164772) by {
        reveal(fingerprint);
        reveal_strlit("nifi.state.management.provider.local");
    }
    assert(fingerprint("nifi.state.management.provider.cluster"@) == 81359602) by {
        reveal(fingerprint);
        reveal_strlit("nifi.state.management.provider.cluster");
    }
    assert(fingerprint("nifi.state.management.embedded.zookeeper.start"@) == 98138480) by {
        reveal(fingerprint);
        reveal_strlit("nifi.state.management.embedded.zookeeper.start");
    }
    assert(fingerprint("nifi.database.directory"@) == 49854820) by {
        reveal(fingerprint);
        reveal_strlit("nifi.database.directory");
    }
    assert(fingerprint("nifi.h2.url.append"@) == 39630706) by {
        reveal(fingerprint);
        reveal_strlit("nifi.h2.url.append");
    }
    assert(fingerprint("nifi.flowfile.repository.implementation"@) == 83474413) by {
        reveal(fingerprint);
        reveal_strlit("nifi.flowfile.repository.implementation");
    }
    assert(fingerprint("nifi.flowfile.repository.wal.implementation"@) == 91863021) by {
        reveal(fingerprint);
        reveal_strlit("nifi.flowfile.repository.wal.implementation");
    }
    assert(fingerprint("nifi.flowfile.repository.directory"@) == 72989028) by {
        reveal(fingerprint);
        reveal_strlit("nifi.flowfile.repository.directory");
    }
    assert(fingerprint("nifi.flowfile.repository.checkpoint.interval"@) == 93958318) by {
        reveal(fingerprint);
        reveal_strlit("nifi.flowfile.repository.checkpoint.interval");
    }
    assert(fingerprint("nifi.flowfile.repository.always.sync"@) == 77182839) by {
        reveal(fingerprint);
        reveal_strlit("nifi.flowfile.repository.always.sync");
    }
    assert(fingerprint("nifi.flowfile.repository.retain.orphaned.flowfiles"@) == 106541798) by {
        reveal(fingerprint);
        reveal_strlit("nifi.flowfile.repository.retain.orphaned.flowfiles");
    }
    assert(fingerprint("nifi.swap.manager.implementation"@) == 67876845) by {
        reveal(fingerprint);
        reveal_strlit("nifi.swap.manager.implementation");
    }
    assert(fingerprint("nifi.queue.swap.threshold"@) == 54097524) by {
        reveal(fingerprint);
        reveal_strlit("nifi.queue.swap.threshold");
    }
    assert(fingerprint("nifi.content.repository.implementation"@) == 81360877) by {
        reveal(fingerprint);
        reveal_strlit("nifi.content.repository.implementation");
    }
    assert(fingerprint("nifi.content.claim.max.appendable.size"@) == 81362273) by {
        reveal(fingerprint);
        reveal_strlit("nifi.content.claim.max.appendable.size");
    }
    assert(fingerprint("nifi.content.repository.directory.default"@) == 87651961) by {
        reveal(fingerprint);
        reveal_strlit("nifi.content.repository.directory.default");
    }
    assert(fingerprint("nifi.content.repository.archive.max.retention.period"@) == 110721007) by {
        reveal(fingerprint);
        reveal_strlit("nifi.content.repository.archive.max.retention.period");
    }
    assert(fingerprint("nifi.content.repository.archive.max.usage.percentage"@) == 110719973) by {
        reveal(fingerprint);
        reveal_strlit("nifi.content.repository.archive.max.usage.percentage");
    }
    assert(fingerprint("nifi.content.repository.archive.enabled"@) == 83456741) by {
        reveal(fingerprint);
        reveal_strlit("nifi.content.repository.archive.enabled");
    }
    assert(fingerprint("nifi.content.repository.always.sync"@) == 75069303) by {
        reveal(fingerprint);
        reveal_strlit("nifi.content.repository.always.sync");
    }
    assert(fingerprint("nifi.content.viewer.url"@) == 49903977) by {
        reveal(fingerprint);
        reveal_strlit("nifi.content.viewer.url");
    }
    assert(fingerprint("nifi.provenance.repository.implementation"@) == 87652333) by {
        reveal(fingerprint);
        reveal_strlit("nifi.provenance.repository.implementation");
    }
    assert(fingerprint("nifi.provenance.repository.directory.default"@) == 93943417) by {
        reveal(fingerprint);
        reveal_strlit("nifi.provenance.repository.directory.default");
    }
    assert(fingerprint("nifi.provenance.repository.max.storage.time"@) == 91846386) by {
        reveal(fingerprint);
        reveal_strlit("nifi.provenance.repository.max.storage.time");
    }
    assert(fingerprint("nifi.provenance.repository.rollover.time"@) == 85554927) by {
        reveal(fingerprint);
        reveal_strlit("nifi.provenance.repository.rollover.time");
    }
    assert(fingerprint("nifi.provenance.repository.rollover.size"@) == 85556591) by {
        reveal(fingerprint);
        reveal_strlit("nifi.provenance.repository.rollover.size");
    }
    assert(fingerprint("nifi.provenance.repository.query.threads"@) == 85553785) by {
        reveal(fingerprint);
        reveal_strlit("nifi.provenance.repository.query.threads");
    }
    assert(fingerprint("nifi.provenance.repository.index.threads"@) == 85553784) by {
        reveal(fingerprint);
        reveal_strlit("nifi.provenance.repository.index.threads");
    }
    assert(fingerprint("nifi.provenance.repository.compress.on.rollover"@) == 100233902) by {
        reveal(fingerprint);
        reveal_strlit("nifi.provenance.repository.compress.on.rollover");
    }
    assert(fingerprint("nifi.provenance.repository.always.sync"@) == 81360759) by {
        reveal(fingerprint);
        reveal_strlit("nifi.provenance.repository.always.sync");
    }
    assert(fingerprint("nifi.provenance.repository.indexed.fields"@) == 87650917) by {
        reveal(fingerprint);
        reveal_strlit("nifi.provenance.repository.indexed.fields");
    }
    assert(fingerprint("nifi.provenance.repository.indexed.attributes"@) == 96039668) by {
        reveal(fingerprint);
        reveal_strlit("nifi.provenance.repository.indexed.attributes");
    }
    assert(fingerprint("nifi.provenance.repository.index.shard.size"@) == 91848040) by {
        reveal(fingerprint);
        reveal_strlit("nifi.provenance.repository.index.shard.size");
    }
    assert(fingerprint("nifi.provenance.repository.max.attribute.length"@) == 100235892) by {
        reveal(fingerprint);
        reveal_strlit("nifi.provenance.repository.max.attribute.length");
    }
    assert(fingerprint("nifi.provenance.repository.concurrent.merge.threads"@) == 108622437) by {
        reveal(fingerprint);
        reveal_strlit("nifi.provenance.repository.concurrent.merge.threads");
    }
    assert(fingerprint("nifi.provenance.repository.buffer.size"@) == 81362278) by {
        reveal(fingerprint);
        reveal_strlit("nifi.provenance.repository.buffer.size");
    }
    assert(fingerprint("nifi.components.status.repository.implementation"@) == 102496237) by {
        reveal(fingerprint);
        reveal_strlit("nifi.components.status.repository.implementation");
    }
    assert(fingerprint("nifi.components.status.repository.buffer.size"@) == 96206182) by {
        reveal(fingerprint);
        reveal_strlit("nifi.components.status.repository.buffer.size");
    }
    assert(fingerprint("nifi.components.status.snapshot.frequency"@) == 87814630) by {
        reveal(fingerprint);
        reveal_strlit("nifi.components.status.snapshot.frequency");
    }
    assert(fingerprint("nifi.status.repository.questdb.persist.node.days"@) == 102595822) by {
        reveal(fingerprint);
        reveal_strlit("nifi.status.repository.questdb.persist.node.days");
    }
    assert(fingerprint("nifi.status.repository.questdb.persist.component.days"@) == 113081582) by {
        reveal(fingerprint);
        reveal_strlit("nifi.status.repository.questdb.persist.component.days");
    }
    assert(fingerprint("nifi.status.repository.questdb.persist.location"@) == 100497326) by {
        reveal(fingerprint);
        reveal_strlit("nifi.status.repository.questdb.persist.location");
    }
    assert(fingerprint("nifi.web.https.host"@) == 41564660) by {
        reveal(fingerprint);
        reveal_strlit("nifi.web.https.host");
    }
    assert(fingerprint("nifi.web.https.port"@) == 41564532) by {
        reveal(fingerprint);
        reveal_strlit("nifi.web.https.port");
    }
    assert(fingerprint("nifi.web.https.network.interface.default"@) == 85603941) by {
        reveal(fingerprint);
        reveal_strlit("nifi.web.https.network.interface.default");
    }
    assert(fingerprint("nifi.web.https.network.interface.eth0"@) == 79311974) by {
        reveal(fingerprint);
        reveal_strlit("nifi.web.https.network.interface.eth0");
    }
    assert(fingerprint("nifi.web.https.network.interface.lo"@) == 75118181) by {
        reveal(fingerprint);
        reveal_strlit("nifi.web.https.network.interface.lo");
    }
    assert(fingerprint("nifi.web.jetty.working.directory"@) == 68860260) by {
        reveal(fingerprint);
        reveal_strlit("nifi.web.jetty.working.directory");
    }
    assert(fingerprint("nifi.web.jetty.threads"@) == 47886969) by {
        reveal(fingerprint);
        reveal_strlit("nifi.web.jetty.threads");
    }
    assert(fingerprint("nifi.web.max.header.size"@) == 52133217) by {
        reveal(fingerprint);
        reveal_strlit("nifi.web.max.header.size");
    }
    assert(fingerprint("nifi.web.proxy.context.path"@) == 58473076) by {
        reveal(fingerprint);
        reveal_strlit("nifi.web.proxy.context.path");
    }
    assert(fingerprint("nifi.web.proxy.host"@) == 41695730) by {
        reveal(fingerprint);
        reveal_strlit("nifi.web.proxy.host");
    }
    assert(fingerprint("nifi.sensitive.props.key"@) == 52065008) by {
        reveal(fingerprint);
        reveal_strlit("nifi.sensitive.props.key");
    }
    assert(fingerprint("nifi.sensitive.props.key.protected"@) == 73036528) by {
        reveal(fingerprint);
        reveal_strlit("nifi.sensitive.props.key.protected");
    }
    assert(fingerprint("nifi.sensitive.props.algorithm"@) == 64648289) by {
        reveal(fingerprint);
        reveal_strlit("nifi.sensitive.props.algorithm");
    }
    assert(fingerprint("nifi.security.keystore"@) == 48019758) by {
        reveal(fingerprint);
        reveal_strlit("nifi.security.keystore");
    }
    assert(fingerprint("nifi.security.keystoreType"@) == 56408179) by {
        reveal(fingerprint);
        reveal_strlit("nifi.security.keystoreType");
    }
    assert(fingerprint("nifi.security.keystorePasswd"@) == 60603375) by {
        reveal(fingerprint);
        reveal_strlit("nifi.security.keystorePasswd");
    }
    assert(fingerprint("nifi.security.truststore"@) == 52214130) by {
        reveal(fingerprint);
        reveal_strlit("nifi.security.truststore");
    }
    assert(fingerprint("nifi.security.truststoreType"@) == 60602483) by {
        reveal(fingerprint);
        reveal_strlit("nifi.security.truststoreType");
    }
    assert(fingerprint("nifi.security.truststorePasswd"@) == 64797679) by {
        reveal(fingerprint);
        reveal_strlit("nifi.security.truststorePasswd");
    }
    assert(fingerprint("nifi.security.user.login.identity.provider"@) == 89961134) by {
        reveal(fingerprint);
        reveal_strlit("nifi.security.user.login.identity.provider");
    }
    assert(fingerprint("nifi.security.user.authorizer"@) == 62698229) by {
        reveal(fingerprint);
        reveal_strlit("nifi.security.user.authorizer");
    }
    assert(fingerprint("nifi.security.allow.anonymous.authentication"@) == 94156782) by {
        reveal(fingerprint);
        reveal_strlit("nifi.security.allow.anonymous.authentication");
    }
    assert(fingerprint("nifi.cluster.protocol.is.secure"@) == 66926953) by {
        reveal(fingerprint);
        reveal_strlit("nifi.cluster.protocol.is.secure");
    }
    assert(fingerprint("nifi.cluster.is.node"@) == 43856498) by {
        reveal(fingerprint);
        reveal_strlit("nifi.cluster.is.node");
    }
    assert(fingerprint("nifi.cluster.node.address"@) == 54344165) by {
        reveal(fingerprint);
        reveal_strlit("nifi.cluster.node.address");
    }
    assert(fingerprint("nifi.cluster.node.protocol.port"@) == 66926959) by {
        reveal(fingerprint);
        reveal_strlit("nifi.cluster.node.protocol.port");
    }
    assert(fingerprint("nifi.cluster.flow.election.max.candidates"@) == 87896801) by {
        reveal(fingerprint);
        reveal_strlit("nifi.cluster.flow.election.max.candidates");
    }
    assert(fingerprint("nifi.zookeeper.connect.string"@) == 62486371) by {
        reveal(fingerprint);
        reveal_strlit("nifi.zookeeper.connect.string");
    }
    assert(fingerprint("nifi.zookeeper.root.node"@) == 51999346) by {
        reveal(fingerprint);
        reveal_strlit("nifi.zookeeper.root.node");
    }
    assert(fingerprint("nifi.cluster.leader.election.implementation"@) == 92092397) by {
        reveal(fingerprint);
        reveal_strlit("nifi.cluster.leader.election.implementation");
    }
    assert(fingerprint("nifi.cluster.leader.election.kubernetes.lease.prefix"@) == 110966003) by {
        reveal(fingerprint);
        reveal_strlit("nifi.cluster.leader.election.kubernetes.lease.prefix");
    }
    assert(fingerprint("nifi.python.command"@) == 41678702) by {
        reveal(fingerprint);
        reveal_strlit("nifi.python.command");
    }
    assert(fingerprint("nifi.python.framework.source.directory"@) == 81525092) by {
        reveal(fingerprint);
        reveal_strlit("nifi.python.framework.source.directory");
    }
    assert(fingerprint("nifi.python.working.directory"@) == 62650724) by {
        reveal(fingerprint);
        reveal_strlit("nifi.python.working.directory");
    }
    assert(fingerprint("nifi.python.extensions.source.directory.default"@) == 100398713) by {
        reveal(fingerprint);
        reveal_strlit("nifi.python.extensions.source.directory.default");
    }
    assert(fingerprint("nifi.flow.configuration.file"@) == 59487860) by {
        reveal(fingerprint);
        reveal_strlit("nifi.flow.configuration.file");
    }
    assert(fingerprint("nifi.flow.configuration.json.file"@) == 69973610) by {
        reveal(fingerprint);
        reveal_strlit("nifi.flow.configuration.json.file");
    }
    assert(fingerprint("nifi.flow.configuration.archive.max.storage"@) == 90944504) by {
        reveal(fingerprint);
        reveal_strlit("nifi.flow.configuration.archive.max.storage");
    }
    assert(fingerprint("nifi.provenance.repository.max.storage.size"@) == 91848050) by {
        reveal(fingerprint);
        reveal_strlit("nifi.provenance.repository.max.storage.size");
    }
}

/// Whether a name is not the one of a directory of custom components.
#[verifier::opaque]
spec fn names_no_component(name: Seq<char>) -> bool {
    forall|n: nat|
        name != "nifi.python.extensions.source.directory."@ + #[trigger] text::decimal(n) && name
            != "nifi.nar.library.directory."@ + text::decimal(n)
}

/// A name that differs early from those of the directories of custom components.
proof fn lemma_names_no_component(name: Seq<char>)
    requires
        name.len() > 6,
        name[5] != 'n',
        name[5] != 'p' || name[6] != 'y',
    ensures
        names_no_component(name),
{
    reveal(names_no_component);
    reveal_strlit("nifi.python.extensions.source.directory.");
    reveal_strlit("nifi.nar.library.directory.");
    assert forall|n: nat|
        name != "nifi.python.extensions.source.directory."@ + #[trigger] text::decimal(n) && name
            != "nifi.nar.library.directory."@ + text::decimal(n) by {
        assert(("nifi.python.extensions.source.directory."@ + text::decimal(n))[5] == 'p');
        assert(("nifi.python.extensions.source.directory."@ + text::decimal(n))[6] == 'y');
        assert(("nifi.nar.library.directory."@ + text::decimal(n))[5] == 'n');
    }
}

/// No property that is always set has the name of a directory of custom components.
proof fn lemma_fixed_names()
    ensures
        names_no_component("nifi.flow.configuration.archive.enabled"@),
        names_no_component("nifi.flow.configuration.archive.dir"@),
        names_no_component("nifi.flow.configuration.archive.max.time"@),
        names_no_component("nifi.flow.configuration.archive.max.count"@),
        names_no_component("nifi.flowcontroller.autoResumeState"@),
        names_no_component("nifi.flowcontroller.graceful.shutdown.period"@),
        names_no_component("nifi.flowservice.writedelay.interval"@),
        names_no_component("nifi.administrative.yield.duration"@),
        names_no_component("nifi.authorizer.configuration.file"@),
        names_no_component("nifi.login.identity.provider.configuration.file"@),
        names_no_component("nifi.templates.directory"@),
        names_no_component("nifi.ui.banner.text"@),
        names_no_component("nifi.ui.autorefresh.interval"@),
        names_no_component("nifi.nar.library.directory"@),
        names_no_component("nifi.nar.library.autoload.directory"@),
        names_no_component("nifi.nar.working.directory"@),
        names_no_component("nifi.documentation.working.directory"@),
        names_no_component("nifi.state.management.configuration.file"@),
        names_no_component("nifi.state.management.provider.local"@),
        names_no_component("nifi.state.management.provider.cluster"@),
        names_no_component("nifi.state.management.embedded.zookeeper.start"@),
        names_no_component("nifi.database.directory"@),
        names_no_component("nifi.h2.url.append"@),
        names_no_component("nifi.flowfile.repository.implementation"@),
        names_no_component("nifi.flowfile.repository.wal.implementation"@),
        names_no_component("nifi.flowfile.repository.directory"@),
        names_no_component("nifi.flowfile.repository.checkpoint.interval"@),
        names_no_component("nifi.flowfile.repository.always.sync"@),
        names_no_component("nifi.flowfile.repository.retain.orphaned.flowfiles"@),
        names_no_component("nifi.swap.manager.implementation"@),
        names_no_component("nifi.queue.swap.threshold"@),
        names_no_component("nifi.content.repository.implementation"@),
        names_no_component("nifi.content.claim.max.appendable.size"@),
        names_no_component("nifi.content.repository.directory.default"@),
        names_no_component("nifi.content.repository.archive.max.retention.period"@),
        names_no_component("nifi.content.repository.archive.max.usage.percentage"@),
        names_no_component("nifi.content.repository.archive.enabled"@),
        names_no_component("nifi.content.repository.always.sync"@),
        names_no_component("nifi.content.viewer.url"@),
        names_no_component("nifi.provenance.repository.implementation"@),
        names_no_component("nifi.provenance.repository.directory.default"@),
        names_no_component("nifi.provenance.repository.max.storage.time"@),
        names_no_component("nifi.provenance.repository.rollover.time"@),
        names_no_component("nifi.provenance.repository.rollover.size"@),
        names_no_component("nifi.provenance.repository.query.threads"@),
        names_no_component("nifi.provenance.repository.index.threads"@),
        names_no_component("nifi.provenance.repository.compress.on.rollover"@),
        names_no_component("nifi.provenance.repository.always.sync"@),
        names_no_component("nifi.provenance.repository.indexed.fields"@),
        names_no_component("nifi.provenance.repository.indexed.attributes"@),
        names_no_component("nifi.provenance.repository.index.shard.size"@),
        names_no_component("nifi.provenance.repository.max.attribute.length"@),
        names_no_component("nifi.provenance.repository.concurrent.merge.threads"@),
        names_no_component("nifi.provenance.repository.buffer.size"@),
        names_no_component("nifi.components.status.repository.implementation"@),
        names_no_component("nifi.components.status.repository.buffer.size"@),
        names_no_component("nifi.components.status.snapshot.frequency"@),
        names_no_component("nifi.status.repository.questdb.persist.node.days"@),
        names_no_component("nifi.status.repository.questdb.persist.component.days"@),
        names_no_component("nifi.status.repository.questdb.persist.location"@),
        names_no_component("nifi.web.https.host"@),
        names_no_component("nifi.web.https.port"@),
        names_no_component("nifi.web.https.network.interface.default"@),
        names_no_component("nifi.web.https.network.interface.eth0"@),
        names_no_component("nifi.web.https.network.interface.lo"@),
        names_no_component("nifi.web.jetty.working.directory"@),
        names_no_component("nifi.web.jetty.threads"@),
        names_no_component("nifi.web.max.header.size"@),
        names_no_component("nifi.web.proxy.context.path"@),
        names_no_component("nifi.web.proxy.host"@),
        names_no_component("nifi.sensitive.props.key"@),
        names_no_component("nifi.sensitive.props.key.protected"@),
        names_no_component("nifi.sensitive.props.algorithm"@),
        names_no_component("nifi.security.keystore"@),
        names_no_component("nifi.security.keystoreType"@),
        names_no_component("nifi.security.keystorePasswd"@),
        names_no_component("nifi.security.truststore"@),
        names_no_component("nifi.security.truststoreType"@),
        names_no_component("nifi.security.truststorePasswd"@),
        names_no_component("nifi.security.user.login.identity.provider"@),
        names_no_component("nifi.security.user.authorizer"@),
        names_no_component("nifi.security.allow.anonymous.authentication"@),
        names_no_component("nifi.cluster.protocol.is.secure"@),
        names_no_component("nifi.cluster.is.node"@),
        names_no_component("nifi.cluster.node.address"@),
        names_no_component("nifi.cluster.node.protocol.port"@),
        names_no_component("nifi.cluster.flow.election.max.candidates"@),
        names_no_component("nifi.zookeeper.connect.string"@),
        names_no_component("nifi.zookeeper.root.node"@),
        names_no_component("nifi.cluster.leader.election.implementation"@),
        names_no_component("nifi.cluster.leader.election.kubernetes.lease.prefix"@),
        names_no_component("nifi.python.command"@),
        names_no_component("nifi.python.framework.source.directory"@),
        names_no_component("nifi.python.working.directory"@),
        names_no_component("nifi.python.extensions.source.directory.default"@),
        names_no_component("nifi.flow.configuration.file"@),
        names_no_component("nifi.flow.configuration.json.file"@),
        names_no_component("nifi.flow.configuration.archive.max.storage"@),
        names_no_component("nifi.provenance.repository.max.storage.size"@),
{
    assert(names_no_component("nifi.flow.configuration.archive.enabled"@)) by {
        reveal_strlit("nifi.flow.configuration.archive.enabled");
        lemma_names_no_component("nifi.flow.configuration.archive.enabled"@);
    }
    assert(names_no_component("nifi.flow.configuration.archive.dir"@)) by {
        reveal_strlit("nifi.flow.configuration.archive.dir");
        lemma_names_no_component("nifi.flow.configuration.archive.dir"@);
    }
    assert(names_no_component("nifi.flow.configuration.archive.max.time"@)) by {
        reveal_strlit("nifi.flow.configuration.archive.max.time");
        lemma_names_no_component("nifi.flow.configuration.archive.max.time"@);
    }
    assert(names_no_component("nifi.flow.configuration.archive.max.count"@)) by {
        reveal_strlit("nifi.flow.configuration.archive.max.count");
        lemma_names_no_component("nifi.flow.configuration.archive.max.count"@);
    }
    assert(names_no_component("nifi.flowcontroller.autoResumeState"@)) by {
        reveal_strlit("nifi.flowcontroller.autoResumeState");
        lemma_names_no_component("nifi.flowcontroller.autoResumeState"@);
    }
    assert(names_no_component("nifi.flowcontroller.graceful.shutdown.period"@)) by {
        reveal_strlit("nifi.flowcontroller.graceful.shutdown.period");
        lemma_names_no_component("nifi.flowcontroller.graceful.shutdown.period"@);
    }
    assert(names_no_component("nifi.flowservice.writedelay.interval"@)) by {
        reveal_strlit("nifi.flowservice.writedelay.interval");
        lemma_names_no_component("nifi.flowservice.writedelay.interval"@);
    }
    assert(names_no_component("nifi.administrative.yield.duration"@)) by {
        reveal_strlit("nifi.administrative.yield.duration");
        lemma_names_no_component("nifi.administrative.yield.duration"@);
    }
    assert(names_no_component("nifi.authorizer.configuration.file"@)) by {
        reveal_strlit("nifi.authorizer.configuration.file");
        lemma_names_no_component("nifi.authorizer.configuration.file"@);
    }
    assert(names_no_component("nifi.login.identity.provider.configuration.file"@)) by {
        reveal_strlit("nifi.login.identity.provider.configuration.file");
        lemma_names_no_component("nifi.login.identity.provider.configuration.file"@);
    }
    assert(names_no_component("nifi.templates.directory"@)) by {
        reveal_strlit("nifi.templates.directory");
        lemma_names_no_component("nifi.templates.directory"@);
    }
    assert(names_no_component("nifi.ui.banner.text"@)) by {
        reveal_strlit("nifi.ui.banner.text");
        lemma_names_no_component("nifi.ui.banner.text"@);
    }
    assert(names_no_component("nifi.ui.autorefresh.interval"@)) by {
        reveal_strlit("nifi.ui.autorefresh.interval");
        lemma_names_no_component("nifi.ui.autorefresh.interval"@);
    }
    assert(names_no_component("nifi.nar.library.directory"@)) by {
        reveal(names_no_component);
        reveal_strlit("nifi.nar.library.directory");
        reveal_strlit("nifi.python.extensions.source.directory.");
        reveal_strlit("nifi.nar.library.directory.");
        assert forall|n: nat| "nifi.nar.library.directory"@ != "nifi.python.extensions.source.directory."@
            + #[trigger] text::decimal(n) && "nifi.nar.library.directory"@ != "nifi.nar.library.directory."@
            + text::decimal(n) by {
            assert(("nifi.python.extensions.source.directory."@ + text::decimal(n))[5] == 'p');
            assert(("nifi.nar.library.directory."@ + text::decimal(n)).len() >= 27);
        }
    }
    assert(names_no_component("nifi.nar.library.autoload.directory"@)) by {
        reveal(names_no_component);
        reveal_strlit("nifi.nar.library.autoload.directory");
        reveal_strlit("nifi.python.extensions.source.directory.");
        reveal_strlit("nifi.nar.library.directory.");
        assert forall|n: nat| "nifi.nar.library.autoload.directory"@ != "nifi.python.extensions.source.directory."@
            + #[trigger] text::decimal(n) && "nifi.nar.library.autoload.directory"@ != "nifi.nar.library.directory."@
            + text::decimal(n) by {
            assert(("nifi.python.extensions.source.directory."@ + text::decimal(n))[5] == 'p');
            assert(("nifi.nar.library.directory."@ + text::decimal(n))[17] == 'd');
        }
    }
    assert(names_no_component("nifi.nar.working.directory"@)) by {
        reveal(names_no_component);
        reveal_strlit("nifi.nar.working.directory");
        reveal_strlit("nifi.python.extensions.source.directory.");
        reveal_strlit("nifi.nar.library.directory.");
        assert forall|n: nat| "nifi.nar.working.directory"@ != "nifi.python.extensions.source.directory."@
            + #[trigger] text::decimal(n) && "nifi.nar.working.directory"@ != "nifi.nar.library.directory."@
            + text::decimal(n) by {
            assert(("nifi.python.extensions.source.directory."@ + text::decimal(n))[5] == 'p');
            assert(("nifi.nar.library.directory."@ + text::decimal(n))[9] == 'l');
        }
    }
    assert(names_no_component("nifi.documentation.working.directory"@)) by {
        reveal_strlit("nifi.documentation.working.directory");
        lemma_names_no_component("nifi.documentation.working.directory"@);
    }
    assert(names_no_component("nifi.state.management.configuration.file"@)) by {
        reveal_strlit("nifi.state.management.configuration.file");
        lemma_names_no_component("nifi.state.management.configuration.file"@);
    }
    assert(names_no_component("nifi.state.management.provider.local"@)) by {
        reveal_strlit("nifi.state.management.provider.local");
        lemma_names_no_component("nifi.state.management.provider.local"@);
    }
    assert(names_no_component("nifi.state.management.provider.cluster"@)) by {
        reveal_strlit("nifi.state.management.provider.cluster");
        lemma_names_no_component("nifi.state.management.provider.cluster"@);
    }
    assert(names_no_component("nifi.state.management.embedded.zookeeper.start"@)) by {
        reveal_strlit("nifi.state.management.embedded.zookeeper.start");
        lemma_names_no_component("nifi.state.management.embedded.zookeeper.start"@);
    }
    assert(names_no_component("nifi.database.directory"@)) by {
        reveal_strlit("nifi.database.directory");
        lemma_names_no_component("nifi.database.directory"@);
    }
    assert(names_no_component("nifi.h2.url.append"@)) by {
        reveal_strlit("nifi.h2.url.append");
        lemma_names_no_component("nifi.h2.url.append"@);
    }
    assert(names_no_component("nifi.flowfile.repository.implementation"@)) by {
        reveal_strlit("nifi.flowfile.repository.implementation");
        lemma_names_no_component("nifi.flowfile.repository.implementation"@);
    }
    assert(names_no_component("nifi.flowfile.repository.wal.implementation"@)) by {
        reveal_strlit("nifi.flowfile.repository.wal.implementation");
        lemma_names_no_component("nifi.flowfile.repository.wal.implementation"@);
    }
    assert(names_no_component("nifi.flowfile.repository.directory"@)) by {
        reveal_strlit("nifi.flowfile.repository.directory");
        lemma_names_no_component("nifi.flowfile.repository.directory"@);
    }
    assert(names_no_component("nifi.flowfile.repository.checkpoint.interval"@)) by {
        reveal_strlit("nifi.flowfile.repository.checkpoint.interval");
        lemma_names_no_component("nifi.flowfile.repository.checkpoint.interval"@);
    }
    assert(names_no_component("nifi.flowfile.repository.always.sync"@)) by {
        reveal_strlit("nifi.flowfile.repository.always.sync");
        lemma_names_no_component("nifi.flowfile.repository.always.sync"@);
    }
    assert(names_no_component("nifi.flowfile.repository.retain.orphaned.flowfiles"@)) by {
        reveal_strlit("nifi.flowfile.repository.retain.orphaned.flowfiles");
        lemma_names_no_component("nifi.flowfile.repository.retain.orphaned.flowfiles"@);
    }
    assert(names_no_component("nifi.swap.manager.implementation"@)) by {
        reveal_strlit("nifi.swap.manager.implementation");
        lemma_names_no_component("nifi.swap.manager.implementation"@);
    }
    assert(names_no_component("nifi.queue.swap.threshold"@)) by {
        reveal_strlit("nifi.queue.swap.threshold");
        lemma_names_no_component("nifi.queue.swap.threshold"@);
    }
    assert(names_no_component("nifi.content.repository.implementation"@)) by {
        reveal_strlit("nifi.content.repository.implementation");
        lemma_names_no_component("nifi.content.repository.implementation"@);
    }
    assert(names_no_component("nifi.content.claim.max.appendable.size"@)) by {
        reveal_strlit("nifi.content.claim.max.appendable.size");
        lemma_names_no_component("nifi.content.claim.max.appendable.size"@);
    }
    assert(names_no_component("nifi.content.repository.directory.default"@)) by {
        reveal_strlit("nifi.content.repository.directory.default");
        lemma_names_no_component("nifi.content.repository.directory.default"@);
    }
    assert(names_no_component("nifi.content.repository.archive.max.retention.period"@)) by {
        reveal_strlit("nifi.content.repository.archive.max.retention.period");
        lemma_names_no_component("nifi.content.repository.archive.max.retention.period"@);
    }
    assert(names_no_component("nifi.content.repository.archive.max.usage.percentage"@)) by {
        reveal_strlit("nifi.content.repository.archive.max.usage.percentage");
        lemma_names_no_component("nifi.content.repository.archive.max.usage.percentage"@);
    }
    assert(names_no_component("nifi.content.repository.archive.enabled"@)) by {
        reveal_strlit("nifi.content.repository.archive.enabled");
        lemma_names_no_component("nifi.content.repository.archive.enabled"@);
    }
    assert(names_no_component("nifi.content.repository.always.sync"@)) by {
        reveal_strlit("nifi.content.repository.always.sync");
        lemma_names_no_component("nifi.content.repository.always.sync"@);
    }
    assert(names_no_component("nifi.content.viewer.url"@)) by {
        reveal_strlit("nifi.content.viewer.url");
        lemma_names_no_component("nifi.content.viewer.url"@);
    }
    assert(names_no_component("nifi.provenance.repository.implementation"@)) by {
        reveal_strlit("nifi.provenance.repository.implementation");
        lemma_names_no_component("nifi.provenance.repository.implementation"@);
    }
    assert(names_no_component("nifi.provenance.repository.directory.default"@)) by {
        reveal_strlit("nifi.provenance.repository.directory.default");
        lemma_names_no_component("nifi.provenance.repository.directory.default"@);
    }
    assert(names_no_component("nifi.provenance.repository.max.storage.time"@)) by {
        reveal_strlit("nifi.provenance.repository.max.storage.time");
        lemma_names_no_component("nifi.provenance.repository.max.storage.time"@);
    }
    assert(names_no_component("nifi.provenance.repository.rollover.time"@)) by {
        reveal_strlit("nifi.provenance.repository.rollover.time");
        lemma_names_no_component("nifi.provenance.repository.rollover.time"@);
    }
    assert(names_no_component("nifi.provenance.repository.rollover.size"@)) by {
        reveal_strlit("nifi.provenance.repository.rollover.size");
        lemma_names_no_component("nifi.provenance.repository.rollover.size"@);
    }
    assert(names_no_component("nifi.provenance.repository.query.threads"@)) by {
        reveal_strlit("nifi.provenance.repository.query.threads");
        lemma_names_no_component("nifi.provenance.repository.query.threads"@);
    }
    assert(names_no_component("nifi.provenance.repository.index.threads"@)) by {
        reveal_strlit("nifi.provenance.repository.index.threads");
        lemma_names_no_component("nifi.provenance.repository.index.threads"@);
    }
    assert(names_no_component("nifi.provenance.repository.compress.on.rollover"@)) by {
        reveal_strlit("nifi.provenance.repository.compress.on.rollover");
        lemma_names_no_component("nifi.provenance.repository.compress.on.rollover"@);
    }
    assert(names_no_component("nifi.provenance.repository.always.sync"@)) by {
        reveal_strlit("nifi.provenance.repository.always.sync");
        lemma_names_no_component("nifi.provenance.repository.always.sync"@);
    }
    assert(names_no_component("nifi.provenance.repository.indexed.fields"@)) by {
        reveal_strlit("nifi.provenance.repository.indexed.fields");
        lemma_names_no_component("nifi.provenance.repository.indexed.fields"@);
    }
    assert(names_no_component("nifi.provenance.repository.indexed.attributes"@)) by {
        reveal_strlit("nifi.provenance.repository.indexed.attributes");
        lemma_names_no_component("nifi.provenance.repository.indexed.attributes"@);
    }
    assert(names_no_component("nifi.provenance.repository.index.shard.size"@)) by {
        reveal_strlit("nifi.provenance.repository.index.shard.size");
        lemma_names_no_component("nifi.provenance.repository.index.shard.size"@);
    }
    assert(names_no_component("nifi.provenance.repository.max.attribute.length"@)) by {
        reveal_strlit("nifi.provenance.repository.max.attribute.length");
        lemma_names_no_component("nifi.provenance.repository.max.attribute.length"@);
    }
    assert(names_no_component("nifi.provenance.repository.concurrent.merge.threads"@)) by {
        reveal_strlit("nifi.provenance.repository.concurrent.merge.threads");
        lemma_names_no_component("nifi.provenance.repository.concurrent.merge.threads"@);
    }
    assert(names_no_component("nifi.provenance.repository.buffer.size"@)) by {
        reveal_strlit("nifi.provenance.repository.buffer.size");
        lemma_names_no_component("nifi.provenance.repository.buffer.size"@);
    }
    assert(names_no_component("nifi.components.status.repository.implementation"@)) by {
        reveal_strlit("nifi.components.status.repository.implementation");
        lemma_names_no_component("nifi.components.status.repository.implementation"@);
    }
    assert(names_no_component("nifi.components.status.repository.buffer.size"@)) by {
        reveal_strlit("nifi.components.status.repository.buffer.size");
        lemma_names_no_component("nifi.components.status.repository.buffer.size"@);
    }
    assert(names_no_component("nifi.components.status.snapshot.frequency"@)) by {
        reveal_strlit("nifi.components.status.snapshot.frequency");
        lemma_names_no_component("nifi.components.status.snapshot.frequency"@);
    }
    assert(names_no_component("nifi.status.repository.questdb.persist.node.days"@)) by {
        reveal_strlit("nifi.status.repository.questdb.persist.node.days");
        lemma_names_no_component("nifi.status.repository.questdb.persist.node.days"@);
    }
    assert(names_no_component("nifi.status.repository.questdb.persist.component.days"@)) by {
        reveal_strlit("nifi.status.repository.questdb.persist.component.days");
        lemma_names_no_component("nifi.status.repository.questdb.persist.component.days"@);
    }
    assert(names_no_component("nifi.status.repository.questdb.persist.location"@)) by {
        reveal_strlit("nifi.status.repository.questdb.persist.location");
        lemma_names_no_component("nifi.status.repository.questdb.persist.location"@);
    }
    assert(names_no_component("nifi.web.https.host"@)) by {
        reveal_strlit("nifi.web.https.host");
        lemma_names_no_component("nifi.web.https.host"@);
    }
    assert(names_no_component("nifi.web.https.port"@)) by {
        reveal_strlit("nifi.web.https.port");
        lemma_names_no_component("nifi.web.https.port"@);
    }
    assert(names_no_component("nifi.web.https.network.interface.default"@)) by {
        reveal_strlit("nifi.web.https.network.interface.default");
        lemma_names_no_component("nifi.web.https.network.interface.default"@);
    }
    assert(names_no_component("nifi.web.https.network.interface.eth0"@)) by {
        reveal_strlit("nifi.web.https.network.interface.eth0");
        lemma_names_no_component("nifi.web.https.network.interface.eth0"@);
    }
    assert(names_no_component("nifi.web.https.network.interface.lo"@)) by {
        reveal_strlit("nifi.web.https.network.interface.lo");
        lemma_names_no_component("nifi.web.https.network.interface.lo"@);
    }
    assert(names_no_component("nifi.web.jetty.working.directory"@)) by {
        reveal_strlit("nifi.web.jetty.working.directory");
        lemma_names_no_component("nifi.web.jetty.working.directory"@);
    }
    assert(names_no_component("nifi.web.jetty.threads"@)) by {
        reveal_strlit("nifi.web.jetty.threads");
        lemma_names_no_component("nifi.web.jetty.threads"@);
    }
    assert(names_no_component("nifi.web.max.header.size"@)) by {
        reveal_strlit("nifi.web.max.header.size");
        lemma_names_no_component("nifi.web.max.header.size"@);
    }
    assert(names_no_component("nifi.web.proxy.context.path"@)) by {
        reveal_strlit("nifi.web.proxy.context.path");
        lemma_names_no_component("nifi.web.proxy.context.path"@);
    }
    assert(names_no_component("nifi.web.proxy.host"@)) by {
        reveal_strlit("nifi.web.proxy.host");
        lemma_names_no_component("nifi.web.proxy.host"@);
    }
    assert(names_no_component("nifi.sensitive.props.key"@)) by {
        reveal_strlit("nifi.sensitive.props.key");
        lemma_names_no_component("nifi.sensitive.props.key"@);
    }
    assert(names_no_component("nifi.sensitive.props.key.protected"@)) by {
        reveal_strlit("nifi.sensitive.props.key.protected");
        lemma_names_no_component("nifi.sensitive.props.key.protected"@);
    }
    assert(names_no_component("nifi.sensitive.props.algorithm"@)) by {
        reveal_strlit("nifi.sensitive.props.algorithm");
        lemma_names_no_component("nifi.sensitive.props.algorithm"@);
    }
    assert(names_no_component("nifi.security.keystore"@)) by {
        reveal_strlit("nifi.security.keystore");
        lemma_names_no_component("nifi.security.keystore"@);
    }
    assert(names_no_component("nifi.security.keystoreType"@)) by {
        reveal_strlit("nifi.security.keystoreType");
        lemma_names_no_component("nifi.security.keystoreType"@);
    }
    assert(names_no_component("nifi.security.keystorePasswd"@)) by {
        reveal_strlit("nifi.security.keystorePasswd");
        lemma_names_no_component("nifi.security.keystorePasswd"@);
    }
    assert(names_no_component("nifi.security.truststore"@)) by {
        reveal_strlit("nifi.security.truststore");
        lemma_names_no_component("nifi.security.truststore"@);
    }
    assert(names_no_component("nifi.security.truststoreType"@)) by {
        reveal_strlit("nifi.security.truststoreType");
        lemma_names_no_component("nifi.security.truststoreType"@);
    }
    assert(names_no_component("nifi.security.truststorePasswd"@)) by {
        reveal_strlit("nifi.security.truststorePasswd");
        lemma_names_no_component("nifi.security.truststorePasswd"@);
    }
    assert(names_no_component("nifi.security.user.login.identity.provider"@)) by {
        reveal_strlit("nifi.security.user.login.identity.provider");
        lemma_names_no_component("nifi.security.user.login.identity.provider"@);
    }
    assert(names_no_component("nifi.security.user.authorizer"@)) by {
        reveal_strlit("nifi.security.user.authorizer");
        lemma_names_no_component("nifi.security.user.authorizer"@);
    }
    assert(names_no_component("nifi.security.allow.anonymous.authentication"@)) by {
        reveal_strlit("nifi.security.allow.anonymous.authentication");
        lemma_names_no_component("nifi.security.allow.anonymous.authentication"@);
    }
    assert(names_no_component("nifi.cluster.protocol.is.secure"@)) by {
        reveal_strlit("nifi.cluster.protocol.is.secure");
        lemma_names_no_component("nifi.cluster.protocol.is.secure"@);
    }
    assert(names_no_component("nifi.cluster.is.node"@)) by {
        reveal_strlit("nifi.cluster.is.node");
        lemma_names_no_component("nifi.cluster.is.node"@);
    }
    assert(names_no_component("nifi.cluster.node.address"@)) by {
        reveal_strlit("nifi.cluster.node.address");
        lemma_names_no_component("nifi.cluster.node.address"@);
    }
    assert(names_no_component("nifi.cluster.node.protocol.port"@)) by {
        reveal_strlit("nifi.cluster.node.protocol.port");
        lemma_names_no_component("nifi.cluster.node.protocol.port"@);
    }
    assert(names_no_component("nifi.cluster.flow.election.max.candidates"@)) by {
        reveal_strlit("nifi.cluster.flow.election.max.candidates");
        lemma_names_no_component("nifi.cluster.flow.election.max.candidates"@);
    }
    assert(names_no_component("nifi.zookeeper.connect.string"@)) by {
        reveal_strlit("nifi.zookeeper.connect.string");
        lemma_names_no_component("nifi.zookeeper.connect.string"@);
    }
    assert(names_no_component("nifi.zookeeper.root.node"@)) by {
        reveal_strlit("nifi.zookeeper.root.node");
        lemma_names_no_component("nifi.zookeeper.root.node"@);
    }
    assert(names_no_component("nifi.cluster.leader.election.implementation"@)) by {
        reveal_strlit("nifi.cluster.leader.election.implementation");
        lemma_names_no_component("nifi.cluster.leader.election.implementation"@);
    }
    assert(names_no_component("nifi.cluster.leader.election.kubernetes.lease.prefix"@)) by {
        reveal_strlit("nifi.cluster.leader.election.kubernetes.lease.prefix");
        lemma_names_no_component("nifi.cluster.leader.election.kubernetes.lease.prefix"@);
    }
    assert(names_no_component("nifi.python.command"@)) by {
        reveal(names_no_component);
        reveal_strlit("nifi.python.command");
        reveal_strlit("nifi.python.extensions.source.directory.");
        reveal_strlit("nifi.nar.library.directory.");
        assert forall|n: nat| "nifi.python.command"@ != "nifi.python.extensions.source.directory."@
            + #[trigger] text::decimal(n) && "nifi.python.command"@ != "nifi.nar.library.directory."@
            + text::decimal(n) by {
            assert(("nifi.python.extensions.source.directory."@ + text::decimal(n))[12] == 'e');
            assert(("nifi.nar.library.directory."@ + text::decimal(n))[5] == 'n');
        }
    }
    assert(names_no_component("nifi.python.framework.source.directory"@)) by {
        reveal(names_no_component);
        reveal_strlit("nifi.python.framework.source.directory");
        reveal_strlit("nifi.python.extensions.source.directory.");
        reveal_strlit("nifi.nar.library.directory.");
        assert forall|n: nat| "nifi.python.framework.source.directory"@ != "nifi.python.extensions.source.directory."@
            + #[trigger] text::decimal(n) && "nifi.python.framework.source.directory"@ != "nifi.nar.library.directory."@
            + text::decimal(n) by {
            assert(("nifi.python.extensions.source.directory."@ + text::decimal(n))[12] == 'e');
            assert(("nifi.nar.library.directory."@ + text::decimal(n))[5] == 'n');
        }
    }
    assert(names_no_component("nifi.python.working.directory"@)) by {
        reveal(names_no_component);
        reveal_strlit("nifi.python.working.directory");
        reveal_strlit("nifi.python.extensions.source.directory.");
        reveal_strlit("nifi.nar.library.directory.");
        assert forall|n: nat| "nifi.python.working.directory"@ != "nifi.python.extensions.source.directory."@
            + #[trigger] text::decimal(n) && "nifi.python.working.directory"@ != "nifi.nar.library.directory."@
            + text::decimal(n) by {
            assert(("nifi.python.extensions.source.directory."@ + text::decimal(n))[12] == 'e');
            assert(("nifi.nar.library.directory."@ + text::decimal(n))[5] == 'n');
        }
    }
    assert(names_no_component("nifi.python.extensions.source.directory.default"@)) by {
        reveal(names_no_component);
        reveal_strlit("nifi.python.extensions.source.directory.default");
        reveal_strlit("nifi.python.extensions.source.directory.");
        reveal_strlit("nifi.nar.library.directory.");
        assert forall|n: nat| "nifi.python.extensions.source.directory.default"@ != "nifi.python.extensions.source.directory."@
            + #[trigger] text::decimal(n) && "nifi.python.extensions.source.directory.default"@ != "nifi.nar.library.directory."@
            + text::decimal(n) by {
            lemma_decimal_starts_with_a_digit(n);
            assert(("nifi.python.extensions.source.directory."@ + text::decimal(n))[40] == text::decimal(n)[0]);
            assert("nifi.python.extensions.source.directory.default"@[40] == 'd');
            assert(("nifi.nar.library.directory."@ + text::decimal(n))[5] == 'n');
        }
    }
    assert(names_no_component("nifi.flow.configuration.file"@)) by {
        reveal_strlit("nifi.flow.configuration.file");
        lemma_names_no_component("nifi.flow.configuration.file"@);
    }
    assert(names_no_component("nifi.flow.configuration.json.file"@)) by {
        reveal_strlit("nifi.flow.configuration.json.file");
        lemma_names_no_component("nifi.flow.configuration.json.file"@);
    }
    assert(names_no_component("nifi.flow.configuration.archive.max.storage"@)) by {
        reveal_strlit("nifi.flow.configuration.archive.max.storage");
        lemma_names_no_component("nifi.flow.configuration.archive.max.storage"@);
    }
    assert(names_no_component("nifi.provenance.repository.max.storage.size"@)) by {
        reveal_strlit("nifi.provenance.repository.max.storage.size");
        lemma_names_no_component("nifi.provenance.repository.max.storage.size"@);
    }
}

/// The first digit of a number.
proof fn lemma_decimal_starts_with_a_digit(n: nat)
    ensures
        text::decimal(n).len() > 0,
        '0' <= text::decimal(n)[0] <= '9',
    decreases n,
{
    if n >= 10 {
        lemma_decimal_starts_with_a_digit(n / 10);
    }
}

/// What the file says of a property, where it says anything.
pub open spec fn value_of(
    settings: NifiSettingsView,
    proxy_hosts: Seq<char>,
    quotas: StorageQuotasView,
    key: Seq<char>,
) -> Option<Seq<char>> {
    let properties = nifi_properties::nifi_properties(settings, proxy_hosts, quotas);
    if properties.dom().contains(key) {
        Some(properties[key])
    } else {
        None
    }
}

/// Whether the file says the given of a property, unless the user or the OpenID Connect provider
/// says otherwise.
pub open spec fn says(
    settings: NifiSettingsView,
    proxy_hosts: Seq<char>,
    quotas: StorageQuotasView,
    key: Seq<char>,
    value: Seq<char>,
) -> bool {
    !consistency::set_from_outside(settings, key) ==> value_of(settings, proxy_hosts, quotas, key)
        == Some(value)
}

/// Whether the file does not speak of a property, unless the user or the OpenID Connect provider
/// does.
pub open spec fn says_nothing(
    settings: NifiSettingsView,
    proxy_hosts: Seq<char>,
    quotas: StorageQuotasView,
    key: Seq<char>,
) -> bool {
    !consistency::set_from_outside(settings, key) ==> value_of(settings, proxy_hosts, quotas, key)
        == None::<Seq<char>>
}

/// The properties about the cluster, over others.
spec fn with_membership(
    properties: Map<Seq<char>, Seq<char>>,
    backend: NifiClusteringBackendView,
) -> Map<Seq<char>, Seq<char>> {
    nifi_sections::python_properties(
        nifi_properties::backend_properties(
            nifi_sections::flow_election_properties(
                nifi_sections::cluster_node_properties(properties),
            ),
            backend,
        ),
    )
}

/// The properties about addresses and security, over others.
spec fn with_access(
    properties: Map<Seq<char>, Seq<char>>,
    settings: NifiSettingsView,
    proxy_hosts: Seq<char>,
) -> Map<Seq<char>, Seq<char>> {
    nifi_sections::security_properties(
        nifi_sections::web_server_properties(
            nifi_sections::web_interface_properties(
                nifi_sections::web_address_properties(properties),
            ),
            proxy_hosts,
        ),
        settings.sensitive_properties_algorithm.text(),
    )
}

/// The properties that the operator alone sets, besides those of custom components.
spec fn own_properties(
    settings: NifiSettingsView,
    proxy_hosts: Seq<char>,
    quotas: StorageQuotasView,
) -> Map<Seq<char>, Seq<char>> {
    with_membership(
        with_access(nifi_properties::storage_properties(settings, quotas), settings, proxy_hosts),
        settings.clustering_backend,
    )
}

/// The directories of custom components have properties of their own.
proof fn lemma_components_keep(
    properties: Map<Seq<char>, Seq<char>>,
    folders: Seq<Seq<char>>,
    key: Seq<char>,
)
    requires
        names_no_component(key),
    ensures
        nifi_properties::custom_component_properties(properties, folders)[key] == properties[key],
        nifi_properties::custom_component_properties(properties, folders).dom().contains(key)
            == properties.dom().contains(key),
    decreases folders.len(),
{
    if folders.len() > 0 {
        reveal(names_no_component);
        lemma_components_keep(properties, folders.drop_last(), key);
        let number = text::decimal((folders.len() - 1) as nat);
        assert(key != "nifi.python.extensions.source.directory."@ + number);
    }
}

/// What the file says of a property that nobody else sets is what the operator sets.
proof fn lemma_own_value(
    settings: NifiSettingsView,
    proxy_hosts: Seq<char>,
    quotas: StorageQuotasView,
    key: Seq<char>,
)
    requires
        names_no_component(key),
        nifi_properties::failure(settings, quotas).is_none(),
        !consistency::set_from_outside(settings, key),
    ensures
        value_of(settings, proxy_hosts, quotas, key) == (if own_properties(
            settings,
            proxy_hosts,
            quotas,
        ).dom().contains(key) {
            Some(own_properties(settings, proxy_hosts, quotas)[key])
        } else {
            None
        }),
{
    let storage = nifi_properties::storage_properties(settings, quotas);
    let own = with_access(storage, settings, proxy_hosts);
    let access = nifi_properties::access_properties(storage, settings, proxy_hosts);
    assert(access == nifi_properties::oidc_properties(own, settings.authentication));
    assert(access.dom().contains(key) == own.dom().contains(key));
    assert(own.dom().contains(key) ==> access[key] == own[key]);
    let with_own = with_membership(own, settings.clustering_backend);
    let with_all = with_membership(access, settings.clustering_backend);
    assert(with_all.dom().contains(key) == with_own.dom().contains(key));
    assert(with_own.dom().contains(key) ==> with_all[key] == with_own[key]);
    lemma_components_keep(with_all, settings.git_content_folders, key);
}

/// The properties up to those about flow files.
spec fn up_to_flow_files(
    settings: NifiSettingsView,
    proxy_hosts: Seq<char>,
    quotas: StorageQuotasView,
) -> Map<Seq<char>, Seq<char>> {
    nifi_properties::flow_file_properties(Map::empty(), nifi_properties::is_nifi_1(settings.product_version))
}

/// The properties up to those about flow archive.
spec fn up_to_flow_archive(
    settings: NifiSettingsView,
    proxy_hosts: Seq<char>,
    quotas: StorageQuotasView,
) -> Map<Seq<char>, Seq<char>> {
    nifi_sections::flow_archive_properties(up_to_flow_files(settings, proxy_hosts, quotas))
}

/// The properties up to those about flow quota.
spec fn up_to_flow_quota(
    settings: NifiSettingsView,
    proxy_hosts: Seq<char>,
    quotas: StorageQuotasView,
) -> Map<Seq<char>, Seq<char>> {
    nifi_properties::with_quota(up_to_flow_archive(settings, proxy_hosts, quotas), "nifi.flow.configuration.archive.max.storage"@, settings.storage.flowfile_repo.capacity, quotas.flow_archive)
}

/// The properties up to those about core.
spec fn up_to_core(
    settings: NifiSettingsView,
    proxy_hosts: Seq<char>,
    quotas: StorageQuotasView,
) -> Map<Seq<char>, Seq<char>> {
    nifi_sections::core_properties(up_to_flow_quota(settings, proxy_hosts, quotas))
}

/// The properties up to those about state.
spec fn up_to_state(
    settings: NifiSettingsView,
    proxy_hosts: Seq<char>,
    quotas: StorageQuotasView,
) -> Map<Seq<char>, Seq<char>> {
    nifi_sections::state_management_properties(up_to_core(settings, proxy_hosts, quotas), settings.clustering_backend.state_provider_id())
}

/// The properties up to those about flowfile.
spec fn up_to_flowfile(
    settings: NifiSettingsView,
    proxy_hosts: Seq<char>,
    quotas: StorageQuotasView,
) -> Map<Seq<char>, Seq<char>> {
    nifi_sections::flowfile_properties(up_to_state(settings, proxy_hosts, quotas))
}

/// The properties up to those about content.
spec fn up_to_content(
    settings: NifiSettingsView,
    proxy_hosts: Seq<char>,
    quotas: StorageQuotasView,
) -> Map<Seq<char>, Seq<char>> {
    nifi_sections::content_properties(up_to_flowfile(settings, proxy_hosts, quotas), "3 days"@)
}

/// The properties up to those about provenance.
spec fn up_to_provenance(
    settings: NifiSettingsView,
    proxy_hosts: Seq<char>,
    quotas: StorageQuotasView,
) -> Map<Seq<char>, Seq<char>> {
    nifi_sections::provenance_properties(up_to_content(settings, proxy_hosts, quotas))
}

/// The properties up to those about provenance quota.
spec fn up_to_provenance_quota(
    settings: NifiSettingsView,
    proxy_hosts: Seq<char>,
    quotas: StorageQuotasView,
) -> Map<Seq<char>, Seq<char>> {
    nifi_properties::with_quota(up_to_provenance(settings, proxy_hosts, quotas), "nifi.provenance.repository.max.storage.size"@, settings.storage.provenance_repo.capacity, quotas.provenance)
}

/// The properties up to those about tuning.
spec fn up_to_tuning(
    settings: NifiSettingsView,
    proxy_hosts: Seq<char>,
    quotas: StorageQuotasView,
) -> Map<Seq<char>, Seq<char>> {
    nifi_sections::provenance_tuning_properties(up_to_provenance_quota(settings, proxy_hosts, quotas))
}

/// The properties up to those about status.
spec fn up_to_status(
    settings: NifiSettingsView,
    proxy_hosts: Seq<char>,
    quotas: StorageQuotasView,
) -> Map<Seq<char>, Seq<char>> {
    nifi_sections::status_properties(up_to_tuning(settings, proxy_hosts, quotas))
}

/// The properties up to those about web address.
spec fn up_to_web_address(
    settings: NifiSettingsView,
    proxy_hosts: Seq<char>,
    quotas: StorageQuotasView,
) -> Map<Seq<char>, Seq<char>> {
    nifi_sections::web_address_properties(up_to_status(settings, proxy_hosts, quotas))
}

/// The properties up to those about web interface.
spec fn up_to_web_interface(
    settings: NifiSettingsView,
    proxy_hosts: Seq<char>,
    quotas: StorageQuotasView,
) -> Map<Seq<char>, Seq<char>> {
    nifi_sections::web_interface_properties(up_to_web_address(settings, proxy_hosts, quotas))
}

/// The properties up to those about web server.
spec fn up_to_web_server(
    settings: NifiSettingsView,
    proxy_hosts: Seq<char>,
    quotas: StorageQuotasView,
) -> Map<Seq<char>, Seq<char>> {
    nifi_sections::web_server_properties(up_to_web_interface(settings, proxy_hosts, quotas), proxy_hosts)
}

/// The properties up to those about security.
spec fn up_to_security(
    settings: NifiSettingsView,
    proxy_hosts: Seq<char>,
    quotas: StorageQuotasView,
) -> Map<Seq<char>, Seq<char>> {
    nifi_sections::security_properties(up_to_web_server(settings, proxy_hosts, quotas), settings.sensitive_properties_algorithm.text())
}

/// The properties up to those about cluster node.
spec fn up_to_cluster_node(
    settings: NifiSettingsView,
    proxy_hosts: Seq<char>,
    quotas: StorageQuotasView,
) -> Map<Seq<char>, Seq<char>> {
    nifi_sections::cluster_node_properties(up_to_security(settings, proxy_hosts, quotas))
}

/// The properties up to those about flow election.
spec fn up_to_flow_election(
    settings: NifiSettingsView,
    proxy_hosts: Seq<char>,
    quotas: StorageQuotasView,
) -> Map<Seq<char>, Seq<char>> {
    nifi_sections::flow_election_properties(up_to_cluster_node(settings, proxy_hosts, quotas))
}

/// The properties up to those about backend.
spec fn up_to_backend(
    settings: NifiSettingsView,
    proxy_hosts: Seq<char>,
    quotas: StorageQuotasView,
) -> Map<Seq<char>, Seq<char>> {
    nifi_properties::backend_properties(up_to_flow_election(settings, proxy_hosts, quotas), settings.clustering_backend)
}

/// The properties up to those about python.
spec fn up_to_python(
    settings: NifiSettingsView,
    proxy_hosts: Seq<char>,
    quotas: StorageQuotasView,
) -> Map<Seq<char>, Seq<char>> {
    nifi_sections::python_properties(up_to_backend(settings, proxy_hosts, quotas))
}

/// Later properties have other names than one up to those about python.
proof fn lemma_after_python(
    settings: NifiSettingsView,
    proxy_hosts: Seq<char>,
    quotas: StorageQuotasView,
    key: Seq<char>,
)
    ensures
        own_properties(settings, proxy_hosts, quotas).dom().contains(key) == up_to_python(
            settings,
            proxy_hosts,
            quotas,
        ).dom().contains(key),
        up_to_python(settings, proxy_hosts, quotas).dom().contains(key) ==> own_properties(
            settings,
            proxy_hosts,
            quotas,
        )[key] == up_to_python(settings, proxy_hosts, quotas)[key],
{
    assert(own_properties(settings, proxy_hosts, quotas) == up_to_python(
        settings,
        proxy_hosts,
        quotas,
    ));
}

/// Later properties have other names than one up to those about backend.
proof fn lemma_after_backend(
    settings: NifiSettingsView,
    proxy_hosts: Seq<char>,
    quotas: StorageQuotasView,
    key: Seq<char>,
)
    requires
        fingerprint(key) != 41678702,
        fingerprint(key) != 81525092,
        fingerprint(key) != 62650724,
        fingerprint(key) != 100398713,
    ensures
        own_properties(settings, proxy_hosts, quotas).dom().contains(key) == up_to_backend(
            settings,
            proxy_hosts,
            quotas,
        ).dom().contains(key),
        up_to_backend(settings, proxy_hosts, quotas).dom().contains(key) ==> own_properties(
            settings,
            proxy_hosts,
            quotas,
        )[key] == up_to_backend(settings, proxy_hosts, quotas)[key],
{
    lemma_fingerprints();
    let before = up_to_backend(settings, proxy_hosts, quotas);
    let after = up_to_python(settings, proxy_hosts, quotas);
    assert(after.dom().contains(key) == before.dom().contains(key));
    assert(before.dom().contains(key) ==> after[key] == before[key]);
    lemma_after_python(settings, proxy_hosts, quotas, key);
}

/// Later properties have other names than one up to those about flow election.
proof fn lemma_after_flow_election(
    settings: NifiSettingsView,
    proxy_hosts: Seq<char>,
    quotas: StorageQuotasView,
    key: Seq<char>,
)
    requires
        fingerprint(key) != 92092397,
        fingerprint(key) != 62486371,
        fingerprint(key) != 51999346,
        fingerprint(key) != 110966003,
        fingerprint(key) != 41678702,
        fingerprint(key) != 81525092,
        fingerprint(key) != 62650724,
        fingerprint(key) != 100398713,
    ensures
        own_properties(settings, proxy_hosts, quotas).dom().contains(key) == up_to_flow_election(
            settings,
            proxy_hosts,
            quotas,
        ).dom().contains(key),
        up_to_flow_election(settings, proxy_hosts, quotas).dom().contains(key) ==> own_properties(
            settings,
            proxy_hosts,
            quotas,
        )[key] == up_to_flow_election(settings, proxy_hosts, quotas)[key],
{
    lemma_fingerprints();
    let before = up_to_flow_election(settings, proxy_hosts, quotas);
    let after = up_to_backend(settings, proxy_hosts, quotas);
    assert(after.dom().contains(key) == before.dom().contains(key));
    assert(before.dom().contains(key) ==> after[key] == before[key]);
    lemma_after_backend(settings, proxy_hosts, quotas, key);
}

/// Later properties have other names than one up to those about cluster node.
proof fn lemma_after_cluster_node(
    settings: NifiSettingsView,
    proxy_hosts: Seq<char>,
    quotas: StorageQuotasView,
    key: Seq<char>,
)
    requires
        fingerprint(key) != 87896801,
        fingerprint(key) != 92092397,
        fingerprint(key) != 62486371,
        fingerprint(key) != 51999346,
        fingerprint(key) != 110966003,
        fingerprint(key) != 41678702,
        fingerprint(key) != 81525092,
        fingerprint(key) != 62650724,
        fingerprint(key) != 100398713,
    ensures
        own_properties(settings, proxy_hosts, quotas).dom().contains(key) == up_to_cluster_node(
            settings,
            proxy_hosts,
            quotas,
        ).dom().contains(key),
        up_to_cluster_node(settings, proxy_hosts, quotas).dom().contains(key) ==> own_properties(
            settings,
            proxy_hosts,
            quotas,
        )[key] == up_to_cluster_node(settings, proxy_hosts, quotas)[key],
{
    lemma_fingerprints();
    let before = up_to_cluster_node(settings, proxy_hosts, quotas);
    let after = up_to_flow_election(settings, proxy_hosts, quotas);
    assert(after.dom().contains(key) == before.dom().contains(key));
    assert(before.dom().contains(key) ==> after[key] == before[key]);
    lemma_after_flow_election(settings, proxy_hosts, quotas, key);
}

/// Later properties have other names than one up to those about security.
proof fn lemma_after_security(
    settings: NifiSettingsView,
    proxy_hosts: Seq<char>,
    quotas: StorageQuotasView,
    key: Seq<char>,
)
    requires
        fingerprint(key) != 43856498,
        fingerprint(key) != 54344165,
        fingerprint(key) != 66926959,
        fingerprint(key) != 87896801,
        fingerprint(key) != 92092397,
        fingerprint(key) != 62486371,
        fingerprint(key) != 51999346,
        fingerprint(key) != 110966003,
        fingerprint(key) != 41678702,
        fingerprint(key) != 81525092,
        fingerprint(key) != 62650724,
        fingerprint(key) != 100398713,
    ensures
        own_properties(settings, proxy_hosts, quotas).dom().contains(key) == up_to_security(
            settings,
            proxy_hosts,
            quotas,
        ).dom().contains(key),
        up_to_security(settings, proxy_hosts, quotas).dom().contains(key) ==> own_properties(
            settings,
            proxy_hosts,
            quotas,
        )[key] == up_to_security(settings, proxy_hosts, quotas)[key],
{
    lemma_fingerprints();
    let before = up_to_security(settings, proxy_hosts, quotas);
    let after = up_to_cluster_node(settings, proxy_hosts, quotas);
    assert(after.dom().contains(key) == before.dom().contains(key));
    assert(before.dom().contains(key) ==> after[key] == before[key]);
    lemma_after_cluster_node(settings, proxy_hosts, quotas, key);
}

/// Later properties have other names than one up to those about web server.
proof fn lemma_after_web_server(
    settings: NifiSettingsView,
    proxy_hosts: Seq<char>,
    quotas: StorageQuotasView,
    key: Seq<char>,
)
    requires
        fingerprint(key) != 52065008,
        fingerprint(key) != 73036528,
        fingerprint(key) != 64648289,
        fingerprint(key) != 48019758,
        fingerprint(key) != 56408179,
        fingerprint(key) != 60603375,
        fingerprint(key) != 52214130,
        fingerprint(key) != 60602483,
        fingerprint(key) != 64797679,
        fingerprint(key) != 89961134,
        fingerprint(key) != 62698229,
        fingerprint(key) != 94156782,
        fingerprint(key) != 66926953,
        fingerprint(key) != 43856498,
        fingerprint(key) != 54344165,
        fingerprint(key) != 66926959,
        fingerprint(key) != 87896801,
        fingerprint(key) != 92092397,
        fingerprint(key) != 62486371,
        fingerprint(key) != 51999346,
        fingerprint(key) != 110966003,
        fingerprint(key) != 41678702,
        fingerprint(key) != 81525092,
        fingerprint(key) != 62650724,
        fingerprint(key) != 100398713,
    ensures
        own_properties(settings, proxy_hosts, quotas).dom().contains(key) == up_to_web_server(
            settings,
            proxy_hosts,
            quotas,
        ).dom().contains(key),
        up_to_web_server(settings, proxy_hosts, quotas).dom().contains(key) ==> own_properties(
            settings,
            proxy_hosts,
            quotas,
        )[key] == up_to_web_server(settings, proxy_hosts, quotas)[key],
{
    lemma_fingerprints();
    let before = up_to_web_server(settings, proxy_hosts, quotas);
    let after = up_to_security(settings, proxy_hosts, quotas);
    assert(after.dom().contains(key) == before.dom().contains(key));
    assert(before.dom().contains(key) ==> after[key] == before[key]);
    lemma_after_security(settings, proxy_hosts, quotas, key);
}

/// Later properties have other names than one up to those about web interface.
proof fn lemma_after_web_interface(
    settings: NifiSettingsView,
    proxy_hosts: Seq<char>,
    quotas: StorageQuotasView,
    key: Seq<char>,
)
    requires
        fingerprint(key) != 68860260,
        fingerprint(key) != 47886969,
        fingerprint(key) != 52133217,
        fingerprint(key) != 58473076,
        fingerprint(key) != 41695730,
        fingerprint(key) != 52065008,
        fingerprint(key) != 73036528,
        fingerprint(key) != 64648289,
        fingerprint(key) != 48019758,
        fingerprint(key) != 56408179,
        fingerprint(key) != 60603375,
        fingerprint(key) != 52214130,
        fingerprint(key) != 60602483,
        fingerprint(key) != 64797679,
        fingerprint(key) != 89961134,
        fingerprint(key) != 62698229,
        fingerprint(key) != 94156782,
        fingerprint(key) != 66926953,
        fingerprint(key) != 43856498,
        fingerprint(key) != 54344165,
        fingerprint(key) != 66926959,
        fingerprint(key) != 87896801,
        fingerprint(key) != 92092397,
        fingerprint(key) != 62486371,
        fingerprint(key) != 51999346,
        fingerprint(key) != 110966003,
        fingerprint(key) != 41678702,
        fingerprint(key) != 81525092,
        fingerprint(key) != 62650724,
        fingerprint(key) != 100398713,
    ensures
        own_properties(settings, proxy_hosts, quotas).dom().contains(key) == up_to_web_interface(
            settings,
            proxy_hosts,
            quotas,
        ).dom().contains(key),
        up_to_web_interface(settings, proxy_hosts, quotas).dom().contains(key) ==> own_properties(
            settings,
            proxy_hosts,
            quotas,
        )[key] == up_to_web_interface(settings, proxy_hosts, quotas)[key],
{
    lemma_fingerprints();
    let before = up_to_web_interface(settings, proxy_hosts, quotas);
    let after = up_to_web_server(settings, proxy_hosts, quotas);
    assert(after.dom().contains(key) == before.dom().contains(key));
    assert(before.dom().contains(key) ==> after[key] == before[key]);
    lemma_after_web_server(settings, proxy_hosts, quotas, key);
}

/// Later properties have other names than one up to those about web address.
proof fn lemma_after_web_address(
    settings: NifiSettingsView,
    proxy_hosts: Seq<char>,
    quotas: StorageQuotasView,
    key: Seq<char>,
)
    requires
        fingerprint(key) != 79311974,
        fingerprint(key) != 75118181,
        fingerprint(key) != 68860260,
        fingerprint(key) != 47886969,
        fingerprint(key) != 52133217,
        fingerprint(key) != 58473076,
        fingerprint(key) != 41695730,
        fingerprint(key) != 52065008,
        fingerprint(key) != 73036528,
        fingerprint(key) != 64648289,
        fingerprint(key) != 48019758,
        fingerprint(key) != 56408179,
        fingerprint(key) != 60603375,
        fingerprint(key) != 52214130,
        fingerprint(key) != 60602483,
        fingerprint(key) != 64797679,
        fingerprint(key) != 89961134,
        fingerprint(key) != 62698229,
        fingerprint(key) != 94156782,
        fingerprint(key) != 66926953,
        fingerprint(key) != 43856498,
        fingerprint(key) != 54344165,
        fingerprint(key) != 66926959,
        fingerprint(key) != 87896801,
        fingerprint(key) != 92092397,
        fingerprint(key) != 62486371,
        fingerprint(key) != 51999346,
        fingerprint(key) != 110966003,
        fingerprint(key) != 41678702,
        fingerprint(key) != 81525092,
        fingerprint(key) != 62650724,
        fingerprint(key) != 100398713,
    ensures
        own_properties(settings, proxy_hosts, quotas).dom().contains(key) == up_to_web_address(
            settings,
            proxy_hosts,
            quotas,
        ).dom().contains(key),
        up_to_web_address(settings, proxy_hosts, quotas).dom().contains(key) ==> own_properties(
            settings,
            proxy_hosts,
            quotas,
        )[key] == up_to_web_address(settings, proxy_hosts, quotas)[key],
{
    lemma_fingerprints();
    let before = up_to_web_address(settings, proxy_hosts, quotas);
    let after = up_to_web_interface(settings, proxy_hosts, quotas);
    assert(after.dom().contains(key) == before.dom().contains(key));
    assert(before.dom().contains(key) ==> after[key] == before[key]);
    lemma_after_web_interface(settings, proxy_hosts, quotas, key);
}

/// Later properties have other names than one up to those about status.
proof fn lemma_after_status(
    settings: NifiSettingsView,
    proxy_hosts: Seq<char>,
    quotas: StorageQuotasView,
    key: Seq<char>,
)
    requires
        fingerprint(key) != 41564660,
        fingerprint(key) != 41564532,
        fingerprint(key) != 85603941,
        fingerprint(key) != 79311974,
        fingerprint(key) != 75118181,
        fingerprint(key) != 68860260,
        fingerprint(key) != 47886969,
        fingerprint(key) != 52133217,
        fingerprint(key) != 58473076,
        fingerprint(key) != 41695730,
        fingerprint(key) != 52065008,
        fingerprint(key) != 73036528,
        fingerprint(key) != 64648289,
        fingerprint(key) != 48019758,
        fingerprint(key) != 56408179,
        fingerprint(key) != 60603375,
        fingerprint(key) != 52214130,
        fingerprint(key) != 60602483,
        fingerprint(key) != 64797679,
        fingerprint(key) != 89961134,
        fingerprint(key) != 62698229,
        fingerprint(key) != 94156782,
        fingerprint(key) != 66926953,
        fingerprint(key) != 43856498,
        fingerprint(key) != 54344165,
        fingerprint(key) != 66926959,
        fingerprint(key) != 87896801,
        fingerprint(key) != 92092397,
        fingerprint(key) != 62486371,
        fingerprint(key) != 51999346,
        fingerprint(key) != 110966003,
        fingerprint(key) != 41678702,
        fingerprint(key) != 81525092,
        fingerprint(key) != 62650724,
        fingerprint(key) != 100398713,
    ensures
        own_properties(settings, proxy_hosts, quotas).dom().contains(key) == up_to_status(
            settings,
            proxy_hosts,
            quotas,
        ).dom().contains(key),
        up_to_status(settings, proxy_hosts, quotas).dom().contains(key) ==> own_properties(
            settings,
            proxy_hosts,
            quotas,
        )[key] == up_to_status(settings, proxy_hosts, quotas)[key],
{
    lemma_fingerprints();
    let before = up_to_status(settings, proxy_hosts, quotas);
    let after = up_to_web_address(settings, proxy_hosts, quotas);
    assert(after.dom().contains(key) == before.dom().contains(key));
    assert(before.dom().contains(key) ==> after[key] == before[key]);
    lemma_after_web_address(settings, proxy_hosts, quotas, key);
}

/// Later properties have other names than one up to those about tuning.
proof fn lemma_after_tuning(
    settings: NifiSettingsView,
    proxy_hosts: Seq<char>,
    quotas: StorageQuotasView,
    key: Seq<char>,
)
    requires
        fingerprint(key) != 102496237,
        fingerprint(key) != 96206182,
        fingerprint(key) != 87814630,
        fingerprint(key) != 102595822,
        fingerprint(key) != 113081582,
        fingerprint(key) != 100497326,
        fingerprint(key) != 41564660,
        fingerprint(key) != 41564532,
        fingerprint(key) != 85603941,
        fingerprint(key) != 79311974,
        fingerprint(key) != 75118181,
        fingerprint(key) != 68860260,
        fingerprint(key) != 47886969,
        fingerprint(key) != 52133217,
        fingerprint(key) != 58473076,
        fingerprint(key) != 41695730,
        fingerprint(key) != 52065008,
        fingerprint(key) != 73036528,
        fingerprint(key) != 64648289,
        fingerprint(key) != 48019758,
        fingerprint(key) != 56408179,
        fingerprint(key) != 60603375,
        fingerprint(key) != 52214130,
        fingerprint(key) != 60602483,
        fingerprint(key) != 64797679,
        fingerprint(key) != 89961134,
        fingerprint(key) != 62698229,
        fingerprint(key) != 94156782,
        fingerprint(key) != 66926953,
        fingerprint(key) != 43856498,
        fingerprint(key) != 54344165,
        fingerprint(key) != 66926959,
        fingerprint(key) != 87896801,
        fingerprint(key) != 92092397,
        fingerprint(key) != 62486371,
        fingerprint(key) != 51999346,
        fingerprint(key) != 110966003,
        fingerprint(key) != 41678702,
        fingerprint(key) != 81525092,
        fingerprint(key) != 62650724,
        fingerprint(key) != 100398713,
    ensures
        own_properties(settings, proxy_hosts, quotas).dom().contains(key) == up_to_tuning(
            settings,
            proxy_hosts,
            quotas,
        ).dom().contains(key),
        up_to_tuning(settings, proxy_hosts, quotas).dom().contains(key) ==> own_properties(
            settings,
            proxy_hosts,
            quotas,
        )[key] == up_to_tuning(settings, proxy_hosts, quotas)[key],
{
    lemma_fingerprints();
    let before = up_to_tuning(settings, proxy_hosts, quotas);
    let after = up_to_status(settings, proxy_hosts, quotas);
    assert(after.dom().contains(key) == before.dom().contains(key));
    assert(before.dom().contains(key) ==> after[key] == before[key]);
    lemma_after_status(settings, proxy_hosts, quotas, key);
}

/// Later properties have other names than one up to those about provenance quota.
proof fn lemma_after_provenance_quota(
    settings: NifiSettingsView,
    proxy_hosts: Seq<char>,
    quotas: StorageQuotasView,
    key: Seq<char>,
)
    requires
        fingerprint(key) != 85554927,
        fingerprint(key) != 85556591,
        fingerprint(key) != 85553785,
        fingerprint(key) != 85553784,
        fingerprint(key) != 100233902,
        fingerprint(key) != 81360759,
        fingerprint(key) != 87650917,
        fingerprint(key) != 96039668,
        fingerprint(key) != 91848040,
        fingerprint(key) != 100235892,
        fingerprint(key) != 108622437,
        fingerprint(key) != 81362278,
        fingerprint(key) != 102496237,
        fingerprint(key) != 96206182,
        fingerprint(key) != 87814630,
        fingerprint(key) != 102595822,
        fingerprint(key) != 113081582,
        fingerprint(key) != 100497326,
        fingerprint(key) != 41564660,
        fingerprint(key) != 41564532,
        fingerprint(key) != 85603941,
        fingerprint(key) != 79311974,
        fingerprint(key) != 75118181,
        fingerprint(key) != 68860260,
        fingerprint(key) != 47886969,
        fingerprint(key) != 52133217,
        fingerprint(key) != 58473076,
        fingerprint(key) != 41695730,
        fingerprint(key) != 52065008,
        fingerprint(key) != 73036528,
        fingerprint(key) != 64648289,
        fingerprint(key) != 48019758,
        fingerprint(key) != 56408179,
        fingerprint(key) != 60603375,
        fingerprint(key) != 52214130,
        fingerprint(key) != 60602483,
        fingerprint(key) != 64797679,
        fingerprint(key) != 89961134,
        fingerprint(key) != 62698229,
        fingerprint(key) != 94156782,
        fingerprint(key) != 66926953,
        fingerprint(key) != 43856498,
        fingerprint(key) != 54344165,
        fingerprint(key) != 66926959,
        fingerprint(key) != 87896801,
        fingerprint(key) != 92092397,
        fingerprint(key) != 62486371,
        fingerprint(key) != 51999346,
        fingerprint(key) != 110966003,
        fingerprint(key) != 41678702,
        fingerprint(key) != 81525092,
        fingerprint(key) != 62650724,
        fingerprint(key) != 100398713,
    ensures
        own_properties(settings, proxy_hosts, quotas).dom().contains(key) == up_to_provenance_quota(
            settings,
            proxy_hosts,
            quotas,
        ).dom().contains(key),
        up_to_provenance_quota(settings, proxy_hosts, quotas).dom().contains(key) ==> own_properties(
            settings,
            proxy_hosts,
            quotas,
        )[key] == up_to_provenance_quota(settings, proxy_hosts, quotas)[key],
{
    lemma_fingerprints();
    let before = up_to_provenance_quota(settings, proxy_hosts, quotas);
    let after = up_to_tuning(settings, proxy_hosts, quotas);
    assert(after.dom().contains(key) == before.dom().contains(key));
    assert(before.dom().contains(key) ==> after[key] == before[key]);
    lemma_after_tuning(settings, proxy_hosts, quotas, key);
}

/// Later properties have other names than one up to those about provenance.
proof fn lemma_after_provenance(
    settings: NifiSettingsView,
    proxy_hosts: Seq<char>,
    quotas: StorageQuotasView,
    key: Seq<char>,
)
    requires
        fingerprint(key) != 91848050,
        fingerprint(key) != 85554927,
        fingerprint(key) != 85556591,
        fingerprint(key) != 85553785,
        fingerprint(key) != 85553784,
        fingerprint(key) != 100233902,
        fingerprint(key) != 81360759,
        fingerprint(key) != 87650917,
        fingerprint(key) != 96039668,
        fingerprint(key) != 91848040,
        fingerprint(key) != 100235892,
        fingerprint(key) != 108622437,
        fingerprint(key) != 81362278,
        fingerprint(key) != 102496237,
        fingerprint(key) != 96206182,
        fingerprint(key) != 87814630,
        fingerprint(key) != 102595822,
        fingerprint(key) != 113081582,
        fingerprint(key) != 100497326,
        fingerprint(key) != 41564660,
        fingerprint(key) != 41564532,
        fingerprint(key) != 85603941,
        fingerprint(key) != 79311974,
        fingerprint(key) != 75118181,
        fingerprint(key) != 68860260,
        fingerprint(key) != 47886969,
        fingerprint(key) != 52133217,
        fingerprint(key) != 58473076,
        fingerprint(key) != 41695730,
        fingerprint(key) != 52065008,
        fingerprint(key) != 73036528,
        fingerprint(key) != 64648289,
        fingerprint(key) != 48019758,
        fingerprint(key) != 56408179,
        fingerprint(key) != 60603375,
        fingerprint(key) != 52214130,
        fingerprint(key) != 60602483,
        fingerprint(key) != 64797679,
        fingerprint(key) != 89961134,
        fingerprint(key) != 62698229,
        fingerprint(key) != 94156782,
        fingerprint(key) != 66926953,
        fingerprint(key) != 43856498,
        fingerprint(key) != 54344165,
        fingerprint(key) != 66926959,
        fingerprint(key) != 87896801,
        fingerprint(key) != 92092397,
        fingerprint(key) != 62486371,
        fingerprint(key) != 51999346,
        fingerprint(key) != 110966003,
        fingerprint(key) != 41678702,
        fingerprint(key) != 81525092,
        fingerprint(key) != 62650724,
        fingerprint(key) != 100398713,
    ensures
        own_properties(settings, proxy_hosts, quotas).dom().contains(key) == up_to_provenance(
            settings,
            proxy_hosts,
            quotas,
        ).dom().contains(key),
        up_to_provenance(settings, proxy_hosts, quotas).dom().contains(key) ==> own_properties(
            settings,
            proxy_hosts,
            quotas,
        )[key] == up_to_provenance(settings, proxy_hosts, quotas)[key],
{
    lemma_fingerprints();
    let before = up_to_provenance(settings, proxy_hosts, quotas);
    let after = up_to_provenance_quota(settings, proxy_hosts, quotas);
    assert(after.dom().contains(key) == before.dom().contains(key));
    assert(before.dom().contains(key) ==> after[key] == before[key]);
    lemma_after_provenance_quota(settings, proxy_hosts, quotas, key);
}

/// Later properties have other names than one up to those about content.
proof fn lemma_after_content(
    settings: NifiSettingsView,
    proxy_hosts: Seq<char>,
    quotas: StorageQuotasView,
    key: Seq<char>,
)
    requires
        fingerprint(key) != 87652333,
        fingerprint(key) != 93943417,
        fingerprint(key) != 91846386,
        fingerprint(key) != 91848050,
        fingerprint(key) != 85554927,
        fingerprint(key) != 85556591,
        fingerprint(key) != 85553785,
        fingerprint(key) != 85553784,
        fingerprint(key) != 100233902,
        fingerprint(key) != 81360759,
        fingerprint(key) != 87650917,
        fingerprint(key) != 96039668,
        fingerprint(key) != 91848040,
        fingerprint(key) != 100235892,
        fingerprint(key) != 108622437,
        fingerprint(key) != 81362278,
        fingerprint(key) != 102496237,
        fingerprint(key) != 96206182,
        fingerprint(key) != 87814630,
        fingerprint(key) != 102595822,
        fingerprint(key) != 113081582,
        fingerprint(key) != 100497326,
        fingerprint(key) != 41564660,
        fingerprint(key) != 41564532,
        fingerprint(key) != 85603941,
        fingerprint(key) != 79311974,
        fingerprint(key) != 75118181,
        fingerprint(key) != 68860260,
        fingerprint(key) != 47886969,
        fingerprint(key) != 52133217,
        fingerprint(key) != 58473076,
        fingerprint(key) != 41695730,
        fingerprint(key) != 52065008,
        fingerprint(key) != 73036528,
        fingerprint(key) != 64648289,
        fingerprint(key) != 48019758,
        fingerprint(key) != 56408179,
        fingerprint(key) != 60603375,
        fingerprint(key) != 52214130,
        fingerprint(key) != 60602483,
        fingerprint(key) != 64797679,
        fingerprint(key) != 89961134,
        fingerprint(key) != 62698229,
        fingerprint(key) != 94156782,
        fingerprint(key) != 66926953,
        fingerprint(key) != 43856498,
        fingerprint(key) != 54344165,
        fingerprint(key) != 66926959,
        fingerprint(key) != 87896801,
        fingerprint(key) != 92092397,
        fingerprint(key) != 62486371,
        fingerprint(key) != 51999346,
        fingerprint(key) != 110966003,
        fingerprint(key) != 41678702,
        fingerprint(key) != 81525092,
        fingerprint(key) != 62650724,
        fingerprint(key) != 100398713,
    ensures
        own_properties(settings, proxy_hosts, quotas).dom().contains(key) == up_to_content(
            settings,
            proxy_hosts,
            quotas,
        ).dom().contains(key),
        up_to_content(settings, proxy_hosts, quotas).dom().contains(key) ==> own_properties(
            settings,
            proxy_hosts,
            quotas,
        )[key] == up_to_content(settings, proxy_hosts, quotas)[key],
{
    lemma_fingerprints();
    let before = up_to_content(settings, proxy_hosts, quotas);
    let after = up_to_provenance(settings, proxy_hosts, quotas);
    assert(after.dom().contains(key) == before.dom().contains(key));
    assert(before.dom().contains(key) ==> after[key] == before[key]);
    lemma_after_provenance(settings, proxy_hosts, quotas, key);
}

/// Later properties have other names than one up to those about flowfile.
proof fn lemma_after_flowfile(
    settings: NifiSettingsView,
    proxy_hosts: Seq<char>,
    quotas: StorageQuotasView,
    key: Seq<char>,
)
    requires
        fingerprint(key) != 81360877,
        fingerprint(key) != 81362273,
        fingerprint(key) != 87651961,
        fingerprint(key) != 110721007,
        fingerprint(key) != 110719973,
        fingerprint(key) != 83456741,
        fingerprint(key) != 75069303,
        fingerprint(key) != 49903977,
        fingerprint(key) != 87652333,
        fingerprint(key) != 93943417,
        fingerprint(key) != 91846386,
        fingerprint(key) != 91848050,
        fingerprint(key) != 85554927,
        fingerprint(key) != 85556591,
        fingerprint(key) != 85553785,
        fingerprint(key) != 85553784,
        fingerprint(key) != 100233902,
        fingerprint(key) != 81360759,
        fingerprint(key) != 87650917,
        fingerprint(key) != 96039668,
        fingerprint(key) != 91848040,
        fingerprint(key) != 100235892,
        fingerprint(key) != 108622437,
        fingerprint(key) != 81362278,
        fingerprint(key) != 102496237,
        fingerprint(key) != 96206182,
        fingerprint(key) != 87814630,
        fingerprint(key) != 102595822,
        fingerprint(key) != 113081582,
        fingerprint(key) != 100497326,
        fingerprint(key) != 41564660,
        fingerprint(key) != 41564532,
        fingerprint(key) != 85603941,
        fingerprint(key) != 79311974,
        fingerprint(key) != 75118181,
        fingerprint(key) != 68860260,
        fingerprint(key) != 47886969,
        fingerprint(key) != 52133217,
        fingerprint(key) != 58473076,
        fingerprint(key) != 41695730,
        fingerprint(key) != 52065008,
        fingerprint(key) != 73036528,
        fingerprint(key) != 64648289,
        fingerprint(key) != 48019758,
        fingerprint(key) != 56408179,
        fingerprint(key) != 60603375,
        fingerprint(key) != 52214130,
        fingerprint(key) != 60602483,
        fingerprint(key) != 64797679,
        fingerprint(key) != 89961134,
        fingerprint(key) != 62698229,
        fingerprint(key) != 94156782,
        fingerprint(key) != 66926953,
        fingerprint(key) != 43856498,
        fingerprint(key) != 54344165,
        fingerprint(key) != 66926959,
        fingerprint(key) != 87896801,
        fingerprint(key) != 92092397,
        fingerprint(key) != 62486371,
        fingerprint(key) != 51999346,
        fingerprint(key) != 110966003,
        fingerprint(key) != 41678702,
        fingerprint(key) != 81525092,
        fingerprint(key) != 62650724,
        fingerprint(key) != 100398713,
    ensures
        own_properties(settings, proxy_hosts, quotas).dom().contains(key) == up_to_flowfile(
            settings,
            proxy_hosts,
            quotas,
        ).dom().contains(key),
        up_to_flowfile(settings, proxy_hosts, quotas).dom().contains(key) ==> own_properties(
            settings,
            proxy_hosts,
            quotas,
        )[key] == up_to_flowfile(settings, proxy_hosts, quotas)[key],
{
    lemma_fingerprints();
    let before = up_to_flowfile(settings, proxy_hosts, quotas);
    let after = up_to_content(settings, proxy_hosts, quotas);
    assert(after.dom().contains(key) == before.dom().contains(key));
    assert(before.dom().contains(key) ==> after[key] == before[key]);
    lemma_after_content(settings, proxy_hosts, quotas, key);
}

/// Later properties have other names than one up to those about state.
proof fn lemma_after_state(
    settings: NifiSettingsView,
    proxy_hosts: Seq<char>,
    quotas: StorageQuotasView,
    key: Seq<char>,
)
    requires
        fingerprint(key) != 49854820,
        fingerprint(key) != 39630706,
        fingerprint(key) != 83474413,
        fingerprint(key) != 91863021,
        fingerprint(key) != 72989028,
        fingerprint(key) != 93958318,
        fingerprint(key) != 77182839,
        fingerprint(key) != 106541798,
        fingerprint(key) != 67876845,
        fingerprint(key) != 54097524,
        fingerprint(key) != 81360877,
        fingerprint(key) != 81362273,
        fingerprint(key) != 87651961,
        fingerprint(key) != 110721007,
        fingerprint(key) != 110719973,
        fingerprint(key) != 83456741,
        fingerprint(key) != 75069303,
        fingerprint(key) != 49903977,
        fingerprint(key) != 87652333,
        fingerprint(key) != 93943417,
        fingerprint(key) != 91846386,
        fingerprint(key) != 91848050,
        fingerprint(key) != 85554927,
        fingerprint(key) != 85556591,
        fingerprint(key) != 85553785,
        fingerprint(key) != 85553784,
        fingerprint(key) != 100233902,
        fingerprint(key) != 81360759,
        fingerprint(key) != 87650917,
        fingerprint(key) != 96039668,
        fingerprint(key) != 91848040,
        fingerprint(key) != 100235892,
        fingerprint(key) != 108622437,
        fingerprint(key) != 81362278,
        fingerprint(key) != 102496237,
        fingerprint(key) != 96206182,
        fingerprint(key) != 87814630,
        fingerprint(key) != 102595822,
        fingerprint(key) != 113081582,
        fingerprint(key) != 100497326,
        fingerprint(key) != 41564660,
        fingerprint(key) != 41564532,
        fingerprint(key) != 85603941,
        fingerprint(key) != 79311974,
        fingerprint(key) != 75118181,
        fingerprint(key) != 68860260,
        fingerprint(key) != 47886969,
        fingerprint(key) != 52133217,
        fingerprint(key) != 58473076,
        fingerprint(key) != 41695730,
        fingerprint(key) != 52065008,
        fingerprint(key) != 73036528,
        fingerprint(key) != 64648289,
        fingerprint(key) != 48019758,
        fingerprint(key) != 56408179,
        fingerprint(key) != 60603375,
        fingerprint(key) != 52214130,
        fingerprint(key) != 60602483,
        fingerprint(key) != 64797679,
        fingerprint(key) != 89961134,
        fingerprint(key) != 62698229,
        fingerprint(key) != 94156782,
        fingerprint(key) != 66926953,
        fingerprint(key) != 43856498,
        fingerprint(key) != 54344165,
        fingerprint(key) != 66926959,
        fingerprint(key) != 87896801,
        fingerprint(key) != 92092397,
        fingerprint(key) != 62486371,
        fingerprint(key) != 51999346,
        fingerprint(key) != 110966003,
        fingerprint(key) != 41678702,
        fingerprint(key) != 81525092,
        fingerprint(key) != 62650724,
        fingerprint(key) != 100398713,
    ensures
        own_properties(settings, proxy_hosts, quotas).dom().contains(key) == up_to_state(
            settings,
            proxy_hosts,
            quotas,
        ).dom().contains(key),
        up_to_state(settings, proxy_hosts, quotas).dom().contains(key) ==> own_properties(
            settings,
            proxy_hosts,
            quotas,
        )[key] == up_to_state(settings, proxy_hosts, quotas)[key],
{
    lemma_fingerprints();
    let before = up_to_state(settings, proxy_hosts, quotas);
    let after = up_to_flowfile(settings, proxy_hosts, quotas);
    assert(after.dom().contains(key) == before.dom().contains(key));
    assert(before.dom().contains(key) ==> after[key] == before[key]);
    lemma_after_flowfile(settings, proxy_hosts, quotas, key);
}

/// Later properties have other names than one up to those about core.
proof fn lemma_after_core(
    settings: NifiSettingsView,
    proxy_hosts: Seq<char>,
    quotas: StorageQuotasView,
    key: Seq<char>,
)
    requires
        fingerprint(key) != 85554804,
        fingerprint(key) != 77164772,
        fingerprint(key) != 81359602,
        fingerprint(key) != 98138480,
        fingerprint(key) != 49854820,
        fingerprint(key) != 39630706,
        fingerprint(key) != 83474413,
        fingerprint(key) != 91863021,
        fingerprint(key) != 72989028,
        fingerprint(key) != 93958318,
        fingerprint(key) != 77182839,
        fingerprint(key) != 106541798,
        fingerprint(key) != 67876845,
        fingerprint(key) != 54097524,
        fingerprint(key) != 81360877,
        fingerprint(key) != 81362273,
        fingerprint(key) != 87651961,
        fingerprint(key) != 110721007,
        fingerprint(key) != 110719973,
        fingerprint(key) != 83456741,
        fingerprint(key) != 75069303,
        fingerprint(key) != 49903977,
        fingerprint(key) != 87652333,
        fingerprint(key) != 93943417,
        fingerprint(key) != 91846386,
        fingerprint(key) != 91848050,
        fingerprint(key) != 85554927,
        fingerprint(key) != 85556591,
        fingerprint(key) != 85553785,
        fingerprint(key) != 85553784,
        fingerprint(key) != 100233902,
        fingerprint(key) != 81360759,
        fingerprint(key) != 87650917,
        fingerprint(key) != 96039668,
        fingerprint(key) != 91848040,
        fingerprint(key) != 100235892,
        fingerprint(key) != 108622437,
        fingerprint(key) != 81362278,
        fingerprint(key) != 102496237,
        fingerprint(key) != 96206182,
        fingerprint(key) != 87814630,
        fingerprint(key) != 102595822,
        fingerprint(key) != 113081582,
        fingerprint(key) != 100497326,
        fingerprint(key) != 41564660,
        fingerprint(key) != 41564532,
        fingerprint(key) != 85603941,
        fingerprint(key) != 79311974,
        fingerprint(key) != 75118181,
        fingerprint(key) != 68860260,
        fingerprint(key) != 47886969,
        fingerprint(key) != 52133217,
        fingerprint(key) != 58473076,
        fingerprint(key) != 41695730,
        fingerprint(key) != 52065008,
        fingerprint(key) != 73036528,
        fingerprint(key) != 64648289,
        fingerprint(key) != 48019758,
        fingerprint(key) != 56408179,
        fingerprint(key) != 60603375,
        fingerprint(key) != 52214130,
        fingerprint(key) != 60602483,
        fingerprint(key) != 64797679,
        fingerprint(key) != 89961134,
        fingerprint(key) != 62698229,
        fingerprint(key) != 94156782,
        fingerprint(key) != 66926953,
        fingerprint(key) != 43856498,
        fingerprint(key) != 54344165,
        fingerprint(key) != 66926959,
        fingerprint(key) != 87896801,
        fingerprint(key) != 92092397,
        fingerprint(key) != 62486371,
        fingerprint(key) != 51999346,
        fingerprint(key) != 110966003,
        fingerprint(key) != 41678702,
        fingerprint(key) != 81525092,
        fingerprint(key) != 62650724,
        fingerprint(key) != 100398713,
    ensures
        own_properties(settings, proxy_hosts, quotas).dom().contains(key) == up_to_core(
            settings,
            proxy_hosts,
            quotas,
        ).dom().contains(key),
        up_to_core(settings, proxy_hosts, quotas).dom().contains(key) ==> own_properties(
            settings,
            proxy_hosts,
            quotas,
        )[key] == up_to_core(settings, proxy_hosts, quotas)[key],
{
    lemma_fingerprints();
    let before = up_to_core(settings, proxy_hosts, quotas);
    let after = up_to_state(settings, proxy_hosts, quotas);
    assert(after.dom().contains(key) == before.dom().contains(key));
    assert(before.dom().contains(key) ==> after[key] == before[key]);
    lemma_after_state(settings, proxy_hosts, quotas, key);
}

/// Later properties have other names than one up to those about flow quota.
proof fn lemma_after_flow_quota(
    settings: NifiSettingsView,
    proxy_hosts: Seq<char>,
    quotas: StorageQuotasView,
    key: Seq<char>,
)
    requires
        fingerprint(key) != 86751085,
        fingerprint(key) != 75037299,
        fingerprint(key) != 93911031,
        fingerprint(key) != 77394094,
        fingerprint(key) != 73119662,
        fingerprint(key) != 73135732,
        fingerprint(key) != 100382324,
        fingerprint(key) != 52115812,
        fingerprint(key) != 41450606,
        fingerprint(key) != 60649646,
        fingerprint(key) != 56310116,
        fingerprint(key) != 75184484,
        fingerprint(key) != 56490340,
        fingerprint(key) != 77298020,
        fingerprint(key) != 85554804,
        fingerprint(key) != 77164772,
        fingerprint(key) != 81359602,
        fingerprint(key) != 98138480,
        fingerprint(key) != 49854820,
        fingerprint(key) != 39630706,
        fingerprint(key) != 83474413,
        fingerprint(key) != 91863021,
        fingerprint(key) != 72989028,
        fingerprint(key) != 93958318,
        fingerprint(key) != 77182839,
        fingerprint(key) != 106541798,
        fingerprint(key) != 67876845,
        fingerprint(key) != 54097524,
        fingerprint(key) != 81360877,
        fingerprint(key) != 81362273,
        fingerprint(key) != 87651961,
        fingerprint(key) != 110721007,
        fingerprint(key) != 110719973,
        fingerprint(key) != 83456741,
        fingerprint(key) != 75069303,
        fingerprint(key) != 49903977,
        fingerprint(key) != 87652333,
        fingerprint(key) != 93943417,
        fingerprint(key) != 91846386,
        fingerprint(key) != 91848050,
        fingerprint(key) != 85554927,
        fingerprint(key) != 85556591,
        fingerprint(key) != 85553785,
        fingerprint(key) != 85553784,
        fingerprint(key) != 100233902,
        fingerprint(key) != 81360759,
        fingerprint(key) != 87650917,
        fingerprint(key) != 96039668,
        fingerprint(key) != 91848040,
        fingerprint(key) != 100235892,
        fingerprint(key) != 108622437,
        fingerprint(key) != 81362278,
        fingerprint(key) != 102496237,
        fingerprint(key) != 96206182,
        fingerprint(key) != 87814630,
        fingerprint(key) != 102595822,
        fingerprint(key) != 113081582,
        fingerprint(key) != 100497326,
        fingerprint(key) != 41564660,
        fingerprint(key) != 41564532,
        fingerprint(key) != 85603941,
        fingerprint(key) != 79311974,
        fingerprint(key) != 75118181,
        fingerprint(key) != 68860260,
        fingerprint(key) != 47886969,
        fingerprint(key) != 52133217,
        fingerprint(key) != 58473076,
        fingerprint(key) != 41695730,
        fingerprint(key) != 52065008,
        fingerprint(key) != 73036528,
        fingerprint(key) != 64648289,
        fingerprint(key) != 48019758,
        fingerprint(key) != 56408179,
        fingerprint(key) != 60603375,
        fingerprint(key) != 52214130,
        fingerprint(key) != 60602483,
        fingerprint(key) != 64797679,
        fingerprint(key) != 89961134,
        fingerprint(key) != 62698229,
        fingerprint(key) != 94156782,
        fingerprint(key) != 66926953,
        fingerprint(key) != 43856498,
        fingerprint(key) != 54344165,
        fingerprint(key) != 66926959,
        fingerprint(key) != 87896801,
        fingerprint(key) != 92092397,
        fingerprint(key) != 62486371,
        fingerprint(key) != 51999346,
        fingerprint(key) != 110966003,
        fingerprint(key) != 41678702,
        fingerprint(key) != 81525092,
        fingerprint(key) != 62650724,
        fingerprint(key) != 100398713,
    ensures
        own_properties(settings, proxy_hosts, quotas).dom().contains(key) == up_to_flow_quota(
            settings,
            proxy_hosts,
            quotas,
        ).dom().contains(key),
        up_to_flow_quota(settings, proxy_hosts, quotas).dom().contains(key) ==> own_properties(
            settings,
            proxy_hosts,
            quotas,
        )[key] == up_to_flow_quota(settings, proxy_hosts, quotas)[key],
{
    lemma_fingerprints();
    let before = up_to_flow_quota(settings, proxy_hosts, quotas);
    let after = up_to_core(settings, proxy_hosts, quotas);
    assert(after.dom().contains(key) == before.dom().contains(key));
    assert(before.dom().contains(key) ==> after[key] == before[key]);
    lemma_after_core(settings, proxy_hosts, quotas, key);
}

/// Later properties have other names than one up to those about flow archive.
proof fn lemma_after_flow_archive(
    settings: NifiSettingsView,
    proxy_hosts: Seq<char>,
    quotas: StorageQuotasView,
    key: Seq<char>,
)
    requires
        fingerprint(key) != 90944504,
        fingerprint(key) != 86751085,
        fingerprint(key) != 75037299,
        fingerprint(key) != 93911031,
        fingerprint(key) != 77394094,
        fingerprint(key) != 73119662,
        fingerprint(key) != 73135732,
        fingerprint(key) != 100382324,
        fingerprint(key) != 52115812,
        fingerprint(key) != 41450606,
        fingerprint(key) != 60649646,
        fingerprint(key) != 56310116,
        fingerprint(key) != 75184484,
        fingerprint(key) != 56490340,
        fingerprint(key) != 77298020,
        fingerprint(key) != 85554804,
        fingerprint(key) != 77164772,
        fingerprint(key) != 81359602,
        fingerprint(key) != 98138480,
        fingerprint(key) != 49854820,
        fingerprint(key) != 39630706,
        fingerprint(key) != 83474413,
        fingerprint(key) != 91863021,
        fingerprint(key) != 72989028,
        fingerprint(key) != 93958318,
        fingerprint(key) != 77182839,
        fingerprint(key) != 106541798,
        fingerprint(key) != 67876845,
        fingerprint(key) != 54097524,
        fingerprint(key) != 81360877,
        fingerprint(key) != 81362273,
        fingerprint(key) != 87651961,
        fingerprint(key) != 110721007,
        fingerprint(key) != 110719973,
        fingerprint(key) != 83456741,
        fingerprint(key) != 75069303,
        fingerprint(key) != 49903977,
        fingerprint(key) != 87652333,
        fingerprint(key) != 93943417,
        fingerprint(key) != 91846386,
        fingerprint(key) != 91848050,
        fingerprint(key) != 85554927,
        fingerprint(key) != 85556591,
        fingerprint(key) != 85553785,
        fingerprint(key) != 85553784,
        fingerprint(key) != 100233902,
        fingerprint(key) != 81360759,
        fingerprint(key) != 87650917,
        fingerprint(key) != 96039668,
        fingerprint(key) != 91848040,
        fingerprint(key) != 100235892,
        fingerprint(key) != 108622437,
        fingerprint(key) != 81362278,
        fingerprint(key) != 102496237,
        fingerprint(key) != 96206182,
        fingerprint(key) != 87814630,
        fingerprint(key) != 102595822,
        fingerprint(key) != 113081582,
        fingerprint(key) != 100497326,
        fingerprint(key) != 41564660,
        fingerprint(key) != 41564532,
        fingerprint(key) != 85603941,
        fingerprint(key) != 79311974,
        fingerprint(key) != 75118181,
        fingerprint(key) != 68860260,
        fingerprint(key) != 47886969,
        fingerprint(key) != 52133217,
        fingerprint(key) != 58473076,
        fingerprint(key) != 41695730,
        fingerprint(key) != 52065008,
        fingerprint(key) != 73036528,
        fingerprint(key) != 64648289,
        fingerprint(key) != 48019758,
        fingerprint(key) != 56408179,
        fingerprint(key) != 60603375,
        fingerprint(key) != 52214130,
        fingerprint(key) != 60602483,
        fingerprint(key) != 64797679,
        fingerprint(key) != 89961134,
        fingerprint(key) != 62698229,
        fingerprint(key) != 94156782,
        fingerprint(key) != 66926953,
        fingerprint(key) != 43856498,
        fingerprint(key) != 54344165,
        fingerprint(key) != 66926959,
        fingerprint(key) != 87896801,
        fingerprint(key) != 92092397,
        fingerprint(key) != 62486371,
        fingerprint(key) != 51999346,
        fingerprint(key) != 110966003,
        fingerprint(key) != 41678702,
        fingerprint(key) != 81525092,
        fingerprint(key) != 62650724,
        fingerprint(key) != 100398713,
    ensures
        own_properties(settings, proxy_hosts, quotas).dom().contains(key) == up_to_flow_archive(
            settings,
            proxy_hosts,
            quotas,
        ).dom().contains(key),
        up_to_flow_archive(settings, proxy_hosts, quotas).dom().contains(key) ==> own_properties(
            settings,
            proxy_hosts,
            quotas,
        )[key] == up_to_flow_archive(settings, proxy_hosts, quotas)[key],
{
    lemma_fingerprints();
    let before = up_to_flow_archive(settings, proxy_hosts, quotas);
    let after = up_to_flow_quota(settings, proxy_hosts, quotas);
    assert(after.dom().contains(key) == before.dom().contains(key));
    assert(before.dom().contains(key) ==> after[key] == before[key]);
    lemma_after_flow_quota(settings, proxy_hosts, quotas, key);
}

/// Later properties have other names than one up to those about flow files.
proof fn lemma_after_flow_files(
    settings: NifiSettingsView,
    proxy_hosts: Seq<char>,
    quotas: StorageQuotasView,
    key: Seq<char>,
)
    requires
        fingerprint(key) != 82555621,
        fingerprint(key) != 74167523,
        fingerprint(key) != 84653742,
        fingerprint(key) != 90944504,
        fingerprint(key) != 86751085,
        fingerprint(key) != 75037299,
        fingerprint(key) != 93911031,
        fingerprint(key) != 77394094,
        fingerprint(key) != 73119662,
        fingerprint(key) != 73135732,
        fingerprint(key) != 100382324,
        fingerprint(key) != 52115812,
        fingerprint(key) != 41450606,
        fingerprint(key) != 60649646,
        fingerprint(key) != 56310116,
        fingerprint(key) != 75184484,
        fingerprint(key) != 56490340,
        fingerprint(key) != 77298020,
        fingerprint(key) != 85554804,
        fingerprint(key) != 77164772,
        fingerprint(key) != 81359602,
        fingerprint(key) != 98138480,
        fingerprint(key) != 49854820,
        fingerprint(key) != 39630706,
        fingerprint(key) != 83474413,
        fingerprint(key) != 91863021,
        fingerprint(key) != 72989028,
        fingerprint(key) != 93958318,
        fingerprint(key) != 77182839,
        fingerprint(key) != 106541798,
        fingerprint(key) != 67876845,
        fingerprint(key) != 54097524,
        fingerprint(key) != 81360877,
        fingerprint(key) != 81362273,
        fingerprint(key) != 87651961,
        fingerprint(key) != 110721007,
        fingerprint(key) != 110719973,
        fingerprint(key) != 83456741,
        fingerprint(key) != 75069303,
        fingerprint(key) != 49903977,
        fingerprint(key) != 87652333,
        fingerprint(key) != 93943417,
        fingerprint(key) != 91846386,
        fingerprint(key) != 91848050,
        fingerprint(key) != 85554927,
        fingerprint(key) != 85556591,
        fingerprint(key) != 85553785,
        fingerprint(key) != 85553784,
        fingerprint(key) != 100233902,
        fingerprint(key) != 81360759,
        fingerprint(key) != 87650917,
        fingerprint(key) != 96039668,
        fingerprint(key) != 91848040,
        fingerprint(key) != 100235892,
        fingerprint(key) != 108622437,
        fingerprint(key) != 81362278,
        fingerprint(key) != 102496237,
        fingerprint(key) != 96206182,
        fingerprint(key) != 87814630,
        fingerprint(key) != 102595822,
        fingerprint(key) != 113081582,
        fingerprint(key) != 100497326,
        fingerprint(key) != 41564660,
        fingerprint(key) != 41564532,
        fingerprint(key) != 85603941,
        fingerprint(key) != 79311974,
        fingerprint(key) != 75118181,
        fingerprint(key) != 68860260,
        fingerprint(key) != 47886969,
        fingerprint(key) != 52133217,
        fingerprint(key) != 58473076,
        fingerprint(key) != 41695730,
        fingerprint(key) != 52065008,
        fingerprint(key) != 73036528,
        fingerprint(key) != 64648289,
        fingerprint(key) != 48019758,
        fingerprint(key) != 56408179,
        fingerprint(key) != 60603375,
        fingerprint(key) != 52214130,
        fingerprint(key) != 60602483,
        fingerprint(key) != 64797679,
        fingerprint(key) != 89961134,
        fingerprint(key) != 62698229,
        fingerprint(key) != 94156782,
        fingerprint(key) != 66926953,
        fingerprint(key) != 43856498,
        fingerprint(key) != 54344165,
        fingerprint(key) != 66926959,
        fingerprint(key) != 87896801,
        fingerprint(key) != 92092397,
        fingerprint(key) != 62486371,
        fingerprint(key) != 51999346,
        fingerprint(key) != 110966003,
        fingerprint(key) != 41678702,
        fingerprint(key) != 81525092,
        fingerprint(key) != 62650724,
        fingerprint(key) != 100398713,
    ensures
        own_properties(settings, proxy_hosts, quotas).dom().contains(key) == up_to_flow_files(
            settings,
            proxy_hosts,
            quotas,
        ).dom().contains(key),
        up_to_flow_files(settings, proxy_hosts, quotas).dom().contains(key) ==> own_properties(
            settings,
            proxy_hosts,
            quotas,
        )[key] == up_to_flow_files(settings, proxy_hosts, quotas)[key],
{
    lemma_fingerprints();
    let before = up_to_flow_files(settings, proxy_hosts, quotas);
    let after = up_to_flow_archive(settings, proxy_hosts, quotas);
    assert(after.dom().contains(key) == before.dom().contains(key));
    assert(before.dom().contains(key) ==> after[key] == before[key]);
    lemma_after_flow_archive(settings, proxy_hosts, quotas, key);
}

/// Earlier properties have other names.
proof fn lemma_none_before_flow_quota(
    settings: NifiSettingsView,
    proxy_hosts: Seq<char>,
    quotas: StorageQuotasView,
    key: Seq<char>,
)
    requires
        fingerprint(key) != 59487860,
        fingerprint(key) != 69973610,
        fingerprint(key) != 82555621,
        fingerprint(key) != 74167523,
        fingerprint(key) != 84653742,
    ensures
        !up_to_flow_archive(settings, proxy_hosts, quotas).dom().contains(key),
{
    lemma_fingerprints();
    assert(!up_to_flow_files(settings, proxy_hosts, quotas).dom().contains(key));
    assert(!up_to_flow_archive(settings, proxy_hosts, quotas).dom().contains(key));
}

/// Earlier properties have other names.
proof fn lemma_none_before_provenance_quota(
    settings: NifiSettingsView,
    proxy_hosts: Seq<char>,
    quotas: StorageQuotasView,
    key: Seq<char>,
)
    requires
        fingerprint(key) != 59487860,
        fingerprint(key) != 69973610,
        fingerprint(key) != 82555621,
        fingerprint(key) != 74167523,
        fingerprint(key) != 84653742,
        fingerprint(key) != 90944504,
        fingerprint(key) != 86751085,
        fingerprint(key) != 75037299,
        fingerprint(key) != 93911031,
        fingerprint(key) != 77394094,
        fingerprint(key) != 73119662,
        fingerprint(key) != 73135732,
        fingerprint(key) != 100382324,
        fingerprint(key) != 52115812,
        fingerprint(key) != 41450606,
        fingerprint(key) != 60649646,
        fingerprint(key) != 56310116,
        fingerprint(key) != 75184484,
        fingerprint(key) != 56490340,
        fingerprint(key) != 77298020,
        fingerprint(key) != 85554804,
        fingerprint(key) != 77164772,
        fingerprint(key) != 81359602,
        fingerprint(key) != 98138480,
        fingerprint(key) != 49854820,
        fingerprint(key) != 39630706,
        fingerprint(key) != 83474413,
        fingerprint(key) != 91863021,
        fingerprint(key) != 72989028,
        fingerprint(key) != 93958318,
        fingerprint(key) != 77182839,
        fingerprint(key) != 106541798,
        fingerprint(key) != 67876845,
        fingerprint(key) != 54097524,
        fingerprint(key) != 81360877,
        fingerprint(key) != 81362273,
        fingerprint(key) != 87651961,
        fingerprint(key) != 110721007,
        fingerprint(key) != 110719973,
        fingerprint(key) != 83456741,
        fingerprint(key) != 75069303,
        fingerprint(key) != 49903977,
        fingerprint(key) != 87652333,
        fingerprint(key) != 93943417,
        fingerprint(key) != 91846386,
    ensures
        !up_to_provenance(settings, proxy_hosts, quotas).dom().contains(key),
{
    lemma_fingerprints();
    assert(!up_to_flow_files(settings, proxy_hosts, quotas).dom().contains(key));
    assert(!up_to_flow_archive(settings, proxy_hosts, quotas).dom().contains(key));
    assert(!up_to_flow_quota(settings, proxy_hosts, quotas).dom().contains(key));
    assert(!up_to_core(settings, proxy_hosts, quotas).dom().contains(key));
    assert(!up_to_state(settings, proxy_hosts, quotas).dom().contains(key));
    assert(!up_to_flowfile(settings, proxy_hosts, quotas).dom().contains(key));
    assert(!up_to_content(settings, proxy_hosts, quotas).dom().contains(key));
    assert(!up_to_provenance(settings, proxy_hosts, quotas).dom().contains(key));
}

/// Earlier properties have other names.
proof fn lemma_none_before_backend(
    settings: NifiSettingsView,
    proxy_hosts: Seq<char>,
    quotas: StorageQuotasView,
    key: Seq<char>,
)
    requires
        fingerprint(key) != 59487860,
        fingerprint(key) != 69973610,
        fingerprint(key) != 82555621,
        fingerprint(key) != 74167523,
        fingerprint(key) != 84653742,
        fingerprint(key) != 90944504,
        fingerprint(key) != 86751085,
        fingerprint(key) != 75037299,
        fingerprint(key) != 93911031,
        fingerprint(key) != 77394094,
        fingerprint(key) != 73119662,
        fingerprint(key) != 73135732,
        fingerprint(key) != 100382324,
        fingerprint(key) != 52115812,
        fingerprint(key) != 41450606,
        fingerprint(key) != 60649646,
        fingerprint(key) != 56310116,
        fingerprint(key) != 75184484,
        fingerprint(key) != 56490340,
        fingerprint(key) != 77298020,
        fingerprint(key) != 85554804,
        fingerprint(key) != 77164772,
        fingerprint(key) != 81359602,
        fingerprint(key) != 98138480,
        fingerprint(key) != 49854820,
        fingerprint(key) != 39630706,
        fingerprint(key) != 83474413,
        fingerprint(key) != 91863021,
        fingerprint(key) != 72989028,
        fingerprint(key) != 93958318,
        fingerprint(key) != 77182839,
        fingerprint(key) != 106541798,
        fingerprint(key) != 67876845,
        fingerprint(key) != 54097524,
        fingerprint(key) != 81360877,
        fingerprint(key) != 81362273,
        fingerprint(key) != 87651961,
        fingerprint(key) != 110721007,
        fingerprint(key) != 110719973,
        fingerprint(key) != 83456741,
        fingerprint(key) != 75069303,
        fingerprint(key) != 49903977,
        fingerprint(key) != 87652333,
        fingerprint(key) != 93943417,
        fingerprint(key) != 91846386,
        fingerprint(key) != 91848050,
        fingerprint(key) != 85554927,
        fingerprint(key) != 85556591,
        fingerprint(key) != 85553785,
        fingerprint(key) != 85553784,
        fingerprint(key) != 100233902,
        fingerprint(key) != 81360759,
        fingerprint(key) != 87650917,
        fingerprint(key) != 96039668,
        fingerprint(key) != 91848040,
        fingerprint(key) != 100235892,
        fingerprint(key) != 108622437,
        fingerprint(key) != 81362278,
        fingerprint(key) != 102496237,
        fingerprint(key) != 96206182,
        fingerprint(key) != 87814630,
        fingerprint(key) != 102595822,
        fingerprint(key) != 113081582,
        fingerprint(key) != 100497326,
        fingerprint(key) != 41564660,
        fingerprint(key) != 41564532,
        fingerprint(key) != 85603941,
        fingerprint(key) != 79311974,
        fingerprint(key) != 75118181,
        fingerprint(key) != 68860260,
        fingerprint(key) != 47886969,
        fingerprint(key) != 52133217,
        fingerprint(key) != 58473076,
        fingerprint(key) != 41695730,
        fingerprint(key) != 52065008,
        fingerprint(key) != 73036528,
        fingerprint(key) != 64648289,
        fingerprint(key) != 48019758,
        fingerprint(key) != 56408179,
        fingerprint(key) != 60603375,
        fingerprint(key) != 52214130,
        fingerprint(key) != 60602483,
        fingerprint(key) != 64797679,
        fingerprint(key) != 89961134,
        fingerprint(key) != 62698229,
        fingerprint(key) != 94156782,
        fingerprint(key) != 66926953,
        fingerprint(key) != 43856498,
        fingerprint(key) != 54344165,
        fingerprint(key) != 66926959,
        fingerprint(key) != 87896801,
    ensures
        !up_to_flow_election(settings, proxy_hosts, quotas).dom().contains(key),
{
    lemma_fingerprints();
    assert(!up_to_flow_files(settings, proxy_hosts, quotas).dom().contains(key));
    assert(!up_to_flow_archive(settings, proxy_hosts, quotas).dom().contains(key));
    assert(!up_to_flow_quota(settings, proxy_hosts, quotas).dom().contains(key));
    assert(!up_to_core(settings, proxy_hosts, quotas).dom().contains(key));
    assert(!up_to_state(settings, proxy_hosts, quotas).dom().contains(key));
    assert(!up_to_flowfile(settings, proxy_hosts, quotas).dom().contains(key));
    assert(!up_to_content(settings, proxy_hosts, quotas).dom().contains(key));
    assert(!up_to_provenance(settings, proxy_hosts, quotas).dom().contains(key));
    assert(!up_to_provenance_quota(settings, proxy_hosts, quotas).dom().contains(key));
    assert(!up_to_tuning(settings, proxy_hosts, quotas).dom().contains(key));
    assert(!up_to_status(settings, proxy_hosts, quotas).dom().contains(key));
    assert(!up_to_web_address(settings, proxy_hosts, quotas).dom().contains(key));
    assert(!up_to_web_interface(settings, proxy_hosts, quotas).dom().contains(key));
    assert(!up_to_web_server(settings, proxy_hosts, quotas).dom().contains(key));
    assert(!up_to_security(settings, proxy_hosts, quotas).dom().contains(key));
    assert(!up_to_cluster_node(settings, proxy_hosts, quotas).dom().contains(key));
    assert(!up_to_flow_election(settings, proxy_hosts, quotas).dom().contains(key));
}

/// Every repository is kept in the directory of its own volume, and the flow beside the database.
/// No two of these directories are the same.
pub proof fn law_repositories_have_their_directories(
    settings: NifiSettingsView,
    proxy_hosts: Seq<char>,
    quotas: StorageQuotasView,
)
    requires
        nifi_properties::failure(settings, quotas).is_none(),
    ensures
        says(
            settings,
            proxy_hosts,
            quotas,
            "nifi.database.directory"@,
            "/stackable/data/database"@,
        ),
        says(
            settings,
            proxy_hosts,
            quotas,
            "nifi.flowfile.repository.directory"@,
            "/stackable/data/flowfile"@,
        ),
        says(
            settings,
            proxy_hosts,
            quotas,
            "nifi.content.repository.directory.default"@,
            "/stackable/data/content"@,
        ),
        says(
            settings,
            proxy_hosts,
            quotas,
            "nifi.provenance.repository.directory.default"@,
            "/stackable/data/provenance"@,
        ),
{
    lemma_fingerprints();
    lemma_fixed_names();
    lemma_directories();
    let flowfile = up_to_flowfile(settings, proxy_hosts, quotas);
    assert(flowfile.dom().contains("nifi.database.directory"@) && flowfile["nifi.database.directory"@] == "/stackable/data/database"@);
    lemma_after_flowfile(settings, proxy_hosts, quotas, "nifi.database.directory"@);
    assert(flowfile.dom().contains("nifi.flowfile.repository.directory"@) && flowfile["nifi.flowfile.repository.directory"@] == "/stackable/data/flowfile"@);
    lemma_after_flowfile(settings, proxy_hosts, quotas, "nifi.flowfile.repository.directory"@);
    let content = up_to_content(settings, proxy_hosts, quotas);
    assert(content.dom().contains("nifi.content.repository.directory.default"@) && content["nifi.content.repository.directory.default"@] == "/stackable/data/content"@);
    lemma_after_content(settings, proxy_hosts, quotas, "nifi.content.repository.directory.default"@);
    let provenance = up_to_provenance(settings, proxy_hosts, quotas);
    assert(provenance.dom().contains("nifi.provenance.repository.directory.default"@) && provenance["nifi.provenance.repository.directory.default"@] == "/stackable/data/provenance"@);
    lemma_after_provenance(settings, proxy_hosts, quotas, "nifi.provenance.repository.directory.default"@);
    if !consistency::set_from_outside(settings, "nifi.database.directory"@) {
        lemma_own_value(settings, proxy_hosts, quotas, "nifi.database.directory"@);
    }
    if !consistency::set_from_outside(settings, "nifi.flowfile.repository.directory"@) {
        lemma_own_value(settings, proxy_hosts, quotas, "nifi.flowfile.repository.directory"@);
    }
    if !consistency::set_from_outside(settings, "nifi.content.repository.directory.default"@) {
        lemma_own_value(settings, proxy_hosts, quotas, "nifi.content.repository.directory.default"@);
    }
    if !consistency::set_from_outside(settings, "nifi.provenance.repository.directory.default"@) {
        lemma_own_value(settings, proxy_hosts, quotas, "nifi.provenance.repository.directory.default"@);
    }
}

/// NiFi 2.x keeps the flow in one format, in the volume of the database.
pub proof fn law_flow_is_kept_with_the_database_in_nifi_2(
    settings: NifiSettingsView,
    proxy_hosts: Seq<char>,
    quotas: StorageQuotasView,
)
    requires
        nifi_properties::failure(settings, quotas).is_none(),
        !"1."@.is_prefix_of(settings.product_version),
    ensures
        says(
            settings,
            proxy_hosts,
            quotas,
            "nifi.flow.configuration.file"@,
            "/stackable/data/database/flow.json.gz"@,
        ),
        says_nothing(settings, proxy_hosts, quotas, "nifi.flow.configuration.json.file"@),
{
    lemma_fingerprints();
    lemma_fixed_names();
    lemma_directories();
    let flow_files = up_to_flow_files(settings, proxy_hosts, quotas);
    assert(flow_files.dom().contains("nifi.flow.configuration.file"@) && flow_files["nifi.flow.configuration.file"@] == "/stackable/data/database/flow.json.gz"@);
    lemma_after_flow_files(settings, proxy_hosts, quotas, "nifi.flow.configuration.file"@);
    assert(!up_to_flow_files(settings, proxy_hosts, quotas).dom().contains("nifi.flow.configuration.json.file"@));
    lemma_after_flow_files(settings, proxy_hosts, quotas, "nifi.flow.configuration.json.file"@);
    if !consistency::set_from_outside(settings, "nifi.flow.configuration.file"@) {
        lemma_own_value(settings, proxy_hosts, quotas, "nifi.flow.configuration.file"@);
    }
    if !consistency::set_from_outside(settings, "nifi.flow.configuration.json.file"@) {
        lemma_own_value(settings, proxy_hosts, quotas, "nifi.flow.configuration.json.file"@);
    }
}

/// NiFi 1.x keeps the flow in two formats, both in the volume of the database.
pub proof fn law_flow_is_kept_with_the_database_in_nifi_1(
    settings: NifiSettingsView,
    proxy_hosts: Seq<char>,
    quotas: StorageQuotasView,
)
    requires
        nifi_properties::failure(settings, quotas).is_none(),
        "1."@.is_prefix_of(settings.product_version),
    ensures
        says(
            settings,
            proxy_hosts,
            quotas,
            "nifi.flow.configuration.file"@,
            "/stackable/data/database/flow.xml.gz"@,
        ),
        says(
            settings,
            proxy_hosts,
            quotas,
            "nifi.flow.configuration.json.file"@,
            "/stackable/data/database/flow.json.gz"@,
        ),
{
    lemma_fingerprints();
    lemma_fixed_names();
    lemma_directories();
    let flow_files = up_to_flow_files(settings, proxy_hosts, quotas);
    assert(flow_files.dom().contains("nifi.flow.configuration.file"@) && flow_files["nifi.flow.configuration.file"@] == "/stackable/data/database/flow.xml.gz"@);
    lemma_after_flow_files(settings, proxy_hosts, quotas, "nifi.flow.configuration.file"@);
    assert(flow_files.dom().contains("nifi.flow.configuration.json.file"@) && flow_files["nifi.flow.configuration.json.file"@] == "/stackable/data/database/flow.json.gz"@);
    lemma_after_flow_files(settings, proxy_hosts, quotas, "nifi.flow.configuration.json.file"@);
    if !consistency::set_from_outside(settings, "nifi.flow.configuration.file"@) {
        lemma_own_value(settings, proxy_hosts, quotas, "nifi.flow.configuration.file"@);
    }
    if !consistency::set_from_outside(settings, "nifi.flow.configuration.json.file"@) {
        lemma_own_value(settings, proxy_hosts, quotas, "nifi.flow.configuration.json.file"@);
    }
}

/// Nodes listen at the address under which the other nodes reach them, for users at the port that
/// the Services and the probes name, and for each other at the port of the protocol; and they
/// accept exactly the given hosts.
pub proof fn law_nodes_listen_where_they_are_called(
    settings: NifiSettingsView,
    proxy_hosts: Seq<char>,
    quotas: StorageQuotasView,
)
    requires
        nifi_properties::failure(settings, quotas).is_none(),
    ensures
        says(
            settings,
            proxy_hosts,
            quotas,
            "nifi.web.https.host"@,
            "${env:NODE_ADDRESS}"@,
        ),
        says(
            settings,
            proxy_hosts,
            quotas,
            "nifi.web.https.port"@,
            "8443"@,
        ),
        says(
            settings,
            proxy_hosts,
            quotas,
            "nifi.cluster.node.address"@,
            "${env:NODE_ADDRESS}"@,
        ),
        says(
            settings,
            proxy_hosts,
            quotas,
            "nifi.cluster.node.protocol.port"@,
            "9088"@,
        ),
        says(
            settings,
            proxy_hosts,
            quotas,
            "nifi.cluster.is.node"@,
            "true"@,
        ),
        says(
            settings,
            proxy_hosts,
            quotas,
            "nifi.web.proxy.host"@,
            proxy_hosts,
        ),
        says(
            settings,
            proxy_hosts,
            quotas,
            "nifi.web.proxy.context.path"@,
            ""@,
        ),
        says(
            settings,
            proxy_hosts,
            quotas,
            "nifi.web.https.network.interface.default"@,
            ""@,
        ),
        says(
            settings,
            proxy_hosts,
            quotas,
            "nifi.web.https.network.interface.eth0"@,
            "eth0"@,
        ),
        says(
            settings,
            proxy_hosts,
            quotas,
            "nifi.web.https.network.interface.lo"@,
            "lo"@,
        ),
{
    lemma_fingerprints();
    lemma_fixed_names();
    lemma_ports();
    let web_address = up_to_web_address(settings, proxy_hosts, quotas);
    assert(web_address.dom().contains("nifi.web.https.host"@) && web_address["nifi.web.https.host"@] == "${env:NODE_ADDRESS}"@);
    lemma_after_web_address(settings, proxy_hosts, quotas, "nifi.web.https.host"@);
    assert(web_address.dom().contains("nifi.web.https.port"@) && web_address["nifi.web.https.port"@] == "8443"@);
    lemma_after_web_address(settings, proxy_hosts, quotas, "nifi.web.https.port"@);
    assert(web_address.dom().contains("nifi.web.https.network.interface.default"@) && web_address["nifi.web.https.network.interface.default"@] == ""@);
    lemma_after_web_address(settings, proxy_hosts, quotas, "nifi.web.https.network.interface.default"@);
    let web_interface = up_to_web_interface(settings, proxy_hosts, quotas);
    assert(web_interface.dom().contains("nifi.web.https.network.interface.eth0"@) && web_interface["nifi.web.https.network.interface.eth0"@] == "eth0"@);
    lemma_after_web_interface(settings, proxy_hosts, quotas, "nifi.web.https.network.interface.eth0"@);
    assert(web_interface.dom().contains("nifi.web.https.network.interface.lo"@) && web_interface["nifi.web.https.network.interface.lo"@] == "lo"@);
    lemma_after_web_interface(settings, proxy_hosts, quotas, "nifi.web.https.network.interface.lo"@);
    let web_server = up_to_web_server(settings, proxy_hosts, quotas);
    assert(web_server.dom().contains("nifi.web.proxy.host"@) && web_server["nifi.web.proxy.host"@] == proxy_hosts);
    lemma_after_web_server(settings, proxy_hosts, quotas, "nifi.web.proxy.host"@);
    assert(web_server.dom().contains("nifi.web.proxy.context.path"@) && web_server["nifi.web.proxy.context.path"@] == ""@);
    lemma_after_web_server(settings, proxy_hosts, quotas, "nifi.web.proxy.context.path"@);
    let cluster_node = up_to_cluster_node(settings, proxy_hosts, quotas);
    assert(cluster_node.dom().contains("nifi.cluster.node.address"@) && cluster_node["nifi.cluster.node.address"@] == "${env:NODE_ADDRESS}"@);
    lemma_after_cluster_node(settings, proxy_hosts, quotas, "nifi.cluster.node.address"@);
    assert(cluster_node.dom().contains("nifi.cluster.node.protocol.port"@) && cluster_node["nifi.cluster.node.protocol.port"@] == "9088"@);
    lemma_after_cluster_node(settings, proxy_hosts, quotas, "nifi.cluster.node.protocol.port"@);
    assert(cluster_node.dom().contains("nifi.cluster.is.node"@) && cluster_node["nifi.cluster.is.node"@] == "true"@);
    lemma_after_cluster_node(settings, proxy_hosts, quotas, "nifi.cluster.is.node"@);
    if !consistency::set_from_outside(settings, "nifi.web.https.host"@) {
        lemma_own_value(settings, proxy_hosts, quotas, "nifi.web.https.host"@);
    }
    if !consistency::set_from_outside(settings, "nifi.web.https.port"@) {
        lemma_own_value(settings, proxy_hosts, quotas, "nifi.web.https.port"@);
    }
    if !consistency::set_from_outside(settings, "nifi.cluster.node.address"@) {
        lemma_own_value(settings, proxy_hosts, quotas, "nifi.cluster.node.address"@);
    }
    if !consistency::set_from_outside(settings, "nifi.cluster.node.protocol.port"@) {
        lemma_own_value(settings, proxy_hosts, quotas, "nifi.cluster.node.protocol.port"@);
    }
    if !consistency::set_from_outside(settings, "nifi.cluster.is.node"@) {
        lemma_own_value(settings, proxy_hosts, quotas, "nifi.cluster.is.node"@);
    }
    if !consistency::set_from_outside(settings, "nifi.web.proxy.host"@) {
        lemma_own_value(settings, proxy_hosts, quotas, "nifi.web.proxy.host"@);
    }
    if !consistency::set_from_outside(settings, "nifi.web.proxy.context.path"@) {
        lemma_own_value(settings, proxy_hosts, quotas, "nifi.web.proxy.context.path"@);
    }
    if !consistency::set_from_outside(settings, "nifi.web.https.network.interface.default"@) {
        lemma_own_value(settings, proxy_hosts, quotas, "nifi.web.https.network.interface.default"@);
    }
    if !consistency::set_from_outside(settings, "nifi.web.https.network.interface.eth0"@) {
        lemma_own_value(settings, proxy_hosts, quotas, "nifi.web.https.network.interface.eth0"@);
    }
    if !consistency::set_from_outside(settings, "nifi.web.https.network.interface.lo"@) {
        lemma_own_value(settings, proxy_hosts, quotas, "nifi.web.https.network.interface.lo"@);
    }
}

/// Connections are secured by the key and the trust store of the node, nobody gets in without a
/// login, and sensitive properties are encrypted with the wanted algorithm under the key from the
/// Secret.
pub proof fn law_connections_are_secured(
    settings: NifiSettingsView,
    proxy_hosts: Seq<char>,
    quotas: StorageQuotasView,
)
    requires
        nifi_properties::failure(settings, quotas).is_none(),
    ensures
        says(
            settings,
            proxy_hosts,
            quotas,
            "nifi.security.keystore"@,
            "/stackable/server_tls/keystore.p12"@,
        ),
        says(
            settings,
            proxy_hosts,
            quotas,
            "nifi.security.keystoreType"@,
            "PKCS12"@,
        ),
        says(
            settings,
            proxy_hosts,
            quotas,
            "nifi.security.keystorePasswd"@,
            "secret"@,
        ),
        says(
            settings,
            proxy_hosts,
            quotas,
            "nifi.security.truststore"@,
            "/stackable/server_tls/truststore.p12"@,
        ),
        says(
            settings,
            proxy_hosts,
            quotas,
            "nifi.security.truststoreType"@,
            "PKCS12"@,
        ),
        says(
            settings,
            proxy_hosts,
            quotas,
            "nifi.security.truststorePasswd"@,
            "secret"@,
        ),
        says(
            settings,
            proxy_hosts,
            quotas,
            "nifi.cluster.protocol.is.secure"@,
            "true"@,
        ),
        says(
            settings,
            proxy_hosts,
            quotas,
            "nifi.security.allow.anonymous.authentication"@,
            "false"@,
        ),
        says(
            settings,
            proxy_hosts,
            quotas,
            "nifi.security.user.login.identity.provider"@,
            "login-identity-provider"@,
        ),
        says(
            settings,
            proxy_hosts,
            quotas,
            "nifi.security.user.authorizer"@,
            "authorizer"@,
        ),
        says(
            settings,
            proxy_hosts,
            quotas,
            "nifi.sensitive.props.algorithm"@,
            settings.sensitive_properties_algorithm.text(),
        ),
        says(
            settings,
            proxy_hosts,
            quotas,
            "nifi.sensitive.props.key"@,
            "${file:UTF-8:/stackable/sensitiveproperty/nifiSensitivePropsKey}"@,
        ),
        says(
            settings,
            proxy_hosts,
            quotas,
            "nifi.sensitive.props.key.protected"@,
            ""@,
        ),
{
    lemma_fingerprints();
    lemma_fixed_names();
    lemma_stores();
    let security = up_to_security(settings, proxy_hosts, quotas);
    assert(security.dom().contains("nifi.security.keystore"@) && security["nifi.security.keystore"@] == "/stackable/server_tls/keystore.p12"@);
    lemma_after_security(settings, proxy_hosts, quotas, "nifi.security.keystore"@);
    assert(security.dom().contains("nifi.security.keystoreType"@) && security["nifi.security.keystoreType"@] == "PKCS12"@);
    lemma_after_security(settings, proxy_hosts, quotas, "nifi.security.keystoreType"@);
    assert(security.dom().contains("nifi.security.keystorePasswd"@) && security["nifi.security.keystorePasswd"@] == "secret"@);
    lemma_after_security(settings, proxy_hosts, quotas, "nifi.security.keystorePasswd"@);
    assert(security.dom().contains("nifi.security.truststore"@) && security["nifi.security.truststore"@] == "/stackable/server_tls/truststore.p12"@);
    lemma_after_security(settings, proxy_hosts, quotas, "nifi.security.truststore"@);
    assert(security.dom().contains("nifi.security.truststoreType"@) && security["nifi.security.truststoreType"@] == "PKCS12"@);
    lemma_after_security(settings, proxy_hosts, quotas, "nifi.security.truststoreType"@);
    assert(security.dom().contains("nifi.security.truststorePasswd"@) && security["nifi.security.truststorePasswd"@] == "secret"@);
    lemma_after_security(settings, proxy_hosts, quotas, "nifi.security.truststorePasswd"@);
    assert(security.dom().contains("nifi.cluster.protocol.is.secure"@) && security["nifi.cluster.protocol.is.secure"@] == "true"@);
    lemma_after_security(settings, proxy_hosts, quotas, "nifi.cluster.protocol.is.secure"@);
    assert(security.dom().contains("nifi.security.allow.anonymous.authentication"@) && security["nifi.security.allow.anonymous.authentication"@] == "false"@);
    lemma_after_security(settings, proxy_hosts, quotas, "nifi.security.allow.anonymous.authentication"@);
    assert(security.dom().contains("nifi.security.user.login.identity.provider"@) && security["nifi.security.user.login.identity.provider"@] == "login-identity-provider"@);
    lemma_after_security(settings, proxy_hosts, quotas, "nifi.security.user.login.identity.provider"@);
    assert(security.dom().contains("nifi.security.user.authorizer"@) && security["nifi.security.user.authorizer"@] == "authorizer"@);
    lemma_after_security(settings, proxy_hosts, quotas, "nifi.security.user.authorizer"@);
    assert(security.dom().contains("nifi.sensitive.props.algorithm"@) && security["nifi.sensitive.props.algorithm"@] == settings.sensitive_properties_algorithm.text());
    lemma_after_security(settings, proxy_hosts, quotas, "nifi.sensitive.props.algorithm"@);
    assert(security.dom().contains("nifi.sensitive.props.key"@) && security["nifi.sensitive.props.key"@] == "${file:UTF-8:/stackable/sensitiveproperty/nifiSensitivePropsKey}"@);
    lemma_after_security(settings, proxy_hosts, quotas, "nifi.sensitive.props.key"@);
    assert(security.dom().contains("nifi.sensitive.props.key.protected"@) && security["nifi.sensitive.props.key.protected"@] == ""@);
    lemma_after_security(settings, proxy_hosts, quotas, "nifi.sensitive.props.key.protected"@);
    if !consistency::set_from_outside(settings, "nifi.security.keystore"@) {
        lemma_own_value(settings, proxy_hosts, quotas, "nifi.security.keystore"@);
    }
    if !consistency::set_from_outside(settings, "nifi.security.keystoreType"@) {
        lemma_own_value(settings, proxy_hosts, quotas, "nifi.security.keystoreType"@);
    }
    if !consistency::set_from_outside(settings, "nifi.security.keystorePasswd"@) {
        lemma_own_value(settings, proxy_hosts, quotas, "nifi.security.keystorePasswd"@);
    }
    if !consistency::set_from_outside(settings, "nifi.security.truststore"@) {
        lemma_own_value(settings, proxy_hosts, quotas, "nifi.security.truststore"@);
    }
    if !consistency::set_from_outside(settings, "nifi.security.truststoreType"@) {
        lemma_own_value(settings, proxy_hosts, quotas, "nifi.security.truststoreType"@);
    }
    if !consistency::set_from_outside(settings, "nifi.security.truststorePasswd"@) {
        lemma_own_value(settings, proxy_hosts, quotas, "nifi.security.truststorePasswd"@);
    }
    if !consistency::set_from_outside(settings, "nifi.cluster.protocol.is.secure"@) {
        lemma_own_value(settings, proxy_hosts, quotas, "nifi.cluster.protocol.is.secure"@);
    }
    if !consistency::set_from_outside(settings, "nifi.security.allow.anonymous.authentication"@) {
        lemma_own_value(settings, proxy_hosts, quotas, "nifi.security.allow.anonymous.authentication"@);
    }
    if !consistency::set_from_outside(settings, "nifi.security.user.login.identity.provider"@) {
        lemma_own_value(settings, proxy_hosts, quotas, "nifi.security.user.login.identity.provider"@);
    }
    if !consistency::set_from_outside(settings, "nifi.security.user.authorizer"@) {
        lemma_own_value(settings, proxy_hosts, quotas, "nifi.security.user.authorizer"@);
    }
    if !consistency::set_from_outside(settings, "nifi.sensitive.props.algorithm"@) {
        lemma_own_value(settings, proxy_hosts, quotas, "nifi.sensitive.props.algorithm"@);
    }
    if !consistency::set_from_outside(settings, "nifi.sensitive.props.key"@) {
        lemma_own_value(settings, proxy_hosts, quotas, "nifi.sensitive.props.key"@);
    }
    if !consistency::set_from_outside(settings, "nifi.sensitive.props.key.protected"@) {
        lemma_own_value(settings, proxy_hosts, quotas, "nifi.sensitive.props.key.protected"@);
    }
}

/// The files that the properties refer to lie in the directory of the live configuration.
pub proof fn law_configuration_files_are_the_live_ones(
    settings: NifiSettingsView,
    proxy_hosts: Seq<char>,
    quotas: StorageQuotasView,
)
    requires
        nifi_properties::failure(settings, quotas).is_none(),
    ensures
        says(
            settings,
            proxy_hosts,
            quotas,
            "nifi.authorizer.configuration.file"@,
            "/stackable/nifi/conf/authorizers.xml"@,
        ),
        says(
            settings,
            proxy_hosts,
            quotas,
            "nifi.login.identity.provider.configuration.file"@,
            "/stackable/nifi/conf/login-identity-providers.xml"@,
        ),
        says(
            settings,
            proxy_hosts,
            quotas,
            "nifi.state.management.configuration.file"@,
            "./conf/state-management.xml"@,
        ),
        says(
            settings,
            proxy_hosts,
            quotas,
            "nifi.flow.configuration.archive.dir"@,
            "/stackable/nifi/conf/archive/"@,
        ),
        says(
            settings,
            proxy_hosts,
            quotas,
            "nifi.state.management.provider.local"@,
            "local-provider"@,
        ),
        says(
            settings,
            proxy_hosts,
            quotas,
            "nifi.state.management.embedded.zookeeper.start"@,
            "false"@,
        ),
{
    lemma_fingerprints();
    lemma_fixed_names();
    lemma_live_files();
    let flow_archive = up_to_flow_archive(settings, proxy_hosts, quotas);
    assert(flow_archive.dom().contains("nifi.flow.configuration.archive.dir"@) && flow_archive["nifi.flow.configuration.archive.dir"@] == "/stackable/nifi/conf/archive/"@);
    lemma_after_flow_archive(settings, proxy_hosts, quotas, "nifi.flow.configuration.archive.dir"@);
    let core = up_to_core(settings, proxy_hosts, quotas);
    assert(core.dom().contains("nifi.authorizer.configuration.file"@) && core["nifi.authorizer.configuration.file"@] == "/stackable/nifi/conf/authorizers.xml"@);
    lemma_after_core(settings, proxy_hosts, quotas, "nifi.authorizer.configuration.file"@);
    assert(core.dom().contains("nifi.login.identity.provider.configuration.file"@) && core["nifi.login.identity.provider.configuration.file"@] == "/stackable/nifi/conf/login-identity-providers.xml"@);
    lemma_after_core(settings, proxy_hosts, quotas, "nifi.login.identity.provider.configuration.file"@);
    let state = up_to_state(settings, proxy_hosts, quotas);
    assert(state.dom().contains("nifi.state.management.configuration.file"@) && state["nifi.state.management.configuration.file"@] == "./conf/state-management.xml"@);
    lemma_after_state(settings, proxy_hosts, quotas, "nifi.state.management.configuration.file"@);
    assert(state.dom().contains("nifi.state.management.provider.local"@) && state["nifi.state.management.provider.local"@] == "local-provider"@);
    lemma_after_state(settings, proxy_hosts, quotas, "nifi.state.management.provider.local"@);
    assert(state.dom().contains("nifi.state.management.embedded.zookeeper.start"@) && state["nifi.state.management.embedded.zookeeper.start"@] == "false"@);
    lemma_after_state(settings, proxy_hosts, quotas, "nifi.state.management.embedded.zookeeper.start"@);
    if !consistency::set_from_outside(settings, "nifi.authorizer.configuration.file"@) {
        lemma_own_value(settings, proxy_hosts, quotas, "nifi.authorizer.configuration.file"@);
    }
    if !consistency::set_from_outside(settings, "nifi.login.identity.provider.configuration.file"@) {
        lemma_own_value(settings, proxy_hosts, quotas, "nifi.login.identity.provider.configuration.file"@);
    }
    if !consistency::set_from_outside(settings, "nifi.state.management.configuration.file"@) {
        lemma_own_value(settings, proxy_hosts, quotas, "nifi.state.management.configuration.file"@);
    }
    if !consistency::set_from_outside(settings, "nifi.flow.configuration.archive.dir"@) {
        lemma_own_value(settings, proxy_hosts, quotas, "nifi.flow.configuration.archive.dir"@);
    }
    if !consistency::set_from_outside(settings, "nifi.state.management.provider.local"@) {
        lemma_own_value(settings, proxy_hosts, quotas, "nifi.state.management.provider.local"@);
    }
    if !consistency::set_from_outside(settings, "nifi.state.management.embedded.zookeeper.start"@) {
        lemma_own_value(settings, proxy_hosts, quotas, "nifi.state.management.embedded.zookeeper.start"@);
    }
}

/// Where ZooKeeper manages the cluster, it elects the leader and keeps the shared state, and nodes
/// find it by the variables that its discovery ConfigMap gives.
pub proof fn law_zookeeper_elects_the_leader(
    settings: NifiSettingsView,
    proxy_hosts: Seq<char>,
    quotas: StorageQuotasView,
)
    requires
        nifi_properties::failure(settings, quotas).is_none(),
        settings.clustering_backend is ZooKeeper,
    ensures
        says(
            settings,
            proxy_hosts,
            quotas,
            "nifi.cluster.leader.election.implementation"@,
            "CuratorLeaderElectionManager"@,
        ),
        says(
            settings,
            proxy_hosts,
            quotas,
            "nifi.zookeeper.connect.string"@,
            "${env:ZOOKEEPER_HOSTS}"@,
        ),
        says(
            settings,
            proxy_hosts,
            quotas,
            "nifi.zookeeper.root.node"@,
            "${env:ZOOKEEPER_CHROOT}"@,
        ),
        says(
            settings,
            proxy_hosts,
            quotas,
            "nifi.state.management.provider.cluster"@,
            "zk-provider"@,
        ),
        says(
            settings,
            proxy_hosts,
            quotas,
            "nifi.cluster.flow.election.max.candidates"@,
            ""@,
        ),
        says_nothing(settings, proxy_hosts, quotas, "nifi.cluster.leader.election.kubernetes.lease.prefix"@),
{
    lemma_fingerprints();
    lemma_fixed_names();
    let state = up_to_state(settings, proxy_hosts, quotas);
    assert(state.dom().contains("nifi.state.management.provider.cluster"@) && state["nifi.state.management.provider.cluster"@] == "zk-provider"@);
    lemma_after_state(settings, proxy_hosts, quotas, "nifi.state.management.provider.cluster"@);
    let flow_election = up_to_flow_election(settings, proxy_hosts, quotas);
    assert(flow_election.dom().contains("nifi.cluster.flow.election.max.candidates"@) && flow_election["nifi.cluster.flow.election.max.candidates"@] == ""@);
    lemma_after_flow_election(settings, proxy_hosts, quotas, "nifi.cluster.flow.election.max.candidates"@);
    let backend = up_to_backend(settings, proxy_hosts, quotas);
    assert(backend.dom().contains("nifi.cluster.leader.election.implementation"@) && backend["nifi.cluster.leader.election.implementation"@] == "CuratorLeaderElectionManager"@);
    lemma_after_backend(settings, proxy_hosts, quotas, "nifi.cluster.leader.election.implementation"@);
    assert(backend.dom().contains("nifi.zookeeper.connect.string"@) && backend["nifi.zookeeper.connect.string"@] == "${env:ZOOKEEPER_HOSTS}"@);
    lemma_after_backend(settings, proxy_hosts, quotas, "nifi.zookeeper.connect.string"@);
    assert(backend.dom().contains("nifi.zookeeper.root.node"@) && backend["nifi.zookeeper.root.node"@] == "${env:ZOOKEEPER_CHROOT}"@);
    lemma_after_backend(settings, proxy_hosts, quotas, "nifi.zookeeper.root.node"@);
    lemma_none_before_backend(settings, proxy_hosts, quotas, "nifi.cluster.leader.election.kubernetes.lease.prefix"@);
    assert(!up_to_backend(settings, proxy_hosts, quotas).dom().contains("nifi.cluster.leader.election.kubernetes.lease.prefix"@));
    lemma_after_backend(settings, proxy_hosts, quotas, "nifi.cluster.leader.election.kubernetes.lease.prefix"@);
    if !consistency::set_from_outside(settings, "nifi.cluster.leader.election.implementation"@) {
        lemma_own_value(settings, proxy_hosts, quotas, "nifi.cluster.leader.election.implementation"@);
    }
    if !consistency::set_from_outside(settings, "nifi.zookeeper.connect.string"@) {
        lemma_own_value(settings, proxy_hosts, quotas, "nifi.zookeeper.connect.string"@);
    }
    if !consistency::set_from_outside(settings, "nifi.zookeeper.root.node"@) {
        lemma_own_value(settings, proxy_hosts, quotas, "nifi.zookeeper.root.node"@);
    }
    if !consistency::set_from_outside(settings, "nifi.state.management.provider.cluster"@) {
        lemma_own_value(settings, proxy_hosts, quotas, "nifi.state.management.provider.cluster"@);
    }
    if !consistency::set_from_outside(settings, "nifi.cluster.flow.election.max.candidates"@) {
        lemma_own_value(settings, proxy_hosts, quotas, "nifi.cluster.flow.election.max.candidates"@);
    }
    if !consistency::set_from_outside(settings, "nifi.cluster.leader.election.kubernetes.lease.prefix"@) {
        lemma_own_value(settings, proxy_hosts, quotas, "nifi.cluster.leader.election.kubernetes.lease.prefix"@);
    }
}

/// Where Kubernetes manages the cluster, it elects the leader by a lease of the cluster and keeps
/// the shared state, and no ZooKeeper is named.
pub proof fn law_kubernetes_elects_the_leader(
    settings: NifiSettingsView,
    proxy_hosts: Seq<char>,
    quotas: StorageQuotasView,
)
    requires
        nifi_properties::failure(settings, quotas).is_none(),
        settings.clustering_backend is Kubernetes,
    ensures
        says(
            settings,
            proxy_hosts,
            quotas,
            "nifi.cluster.leader.election.implementation"@,
            "KubernetesLeaderElectionManager"@,
        ),
        says(
            settings,
            proxy_hosts,
            quotas,
            "nifi.cluster.leader.election.kubernetes.lease.prefix"@,
            "${env:STACKLET_NAME}"@,
        ),
        says(
            settings,
            proxy_hosts,
            quotas,
            "nifi.state.management.provider.cluster"@,
            "kubernetes-provider"@,
        ),
        says(
            settings,
            proxy_hosts,
            quotas,
            "nifi.cluster.flow.election.max.candidates"@,
            ""@,
        ),
        says_nothing(settings, proxy_hosts, quotas, "nifi.zookeeper.connect.string"@),
        says_nothing(settings, proxy_hosts, quotas, "nifi.zookeeper.root.node"@),
{
    lemma_fingerprints();
    lemma_fixed_names();
    let state = up_to_state(settings, proxy_hosts, quotas);
    assert(state.dom().contains("nifi.state.management.provider.cluster"@) && state["nifi.state.management.provider.cluster"@] == "kubernetes-provider"@);
    lemma_after_state(settings, proxy_hosts, quotas, "nifi.state.management.provider.cluster"@);
    let flow_election = up_to_flow_election(settings, proxy_hosts, quotas);
    assert(flow_election.dom().contains("nifi.cluster.flow.election.max.candidates"@) && flow_election["nifi.cluster.flow.election.max.candidates"@] == ""@);
    lemma_after_flow_election(settings, proxy_hosts, quotas, "nifi.cluster.flow.election.max.candidates"@);
    let backend = up_to_backend(settings, proxy_hosts, quotas);
    assert(backend.dom().contains("nifi.cluster.leader.election.implementation"@) && backend["nifi.cluster.leader.election.implementation"@] == "KubernetesLeaderElectionManager"@);
    lemma_after_backend(settings, proxy_hosts, quotas, "nifi.cluster.leader.election.implementation"@);
    assert(backend.dom().contains("nifi.cluster.leader.election.kubernetes.lease.prefix"@) && backend["nifi.cluster.leader.election.kubernetes.lease.prefix"@] == "${env:STACKLET_NAME}"@);
    lemma_after_backend(settings, proxy_hosts, quotas, "nifi.cluster.leader.election.kubernetes.lease.prefix"@);
    lemma_none_before_backend(settings, proxy_hosts, quotas, "nifi.zookeeper.connect.string"@);
    assert(!up_to_backend(settings, proxy_hosts, quotas).dom().contains("nifi.zookeeper.connect.string"@));
    lemma_after_backend(settings, proxy_hosts, quotas, "nifi.zookeeper.connect.string"@);
    lemma_none_before_backend(settings, proxy_hosts, quotas, "nifi.zookeeper.root.node"@);
    assert(!up_to_backend(settings, proxy_hosts, quotas).dom().contains("nifi.zookeeper.root.node"@));
    lemma_after_backend(settings, proxy_hosts, quotas, "nifi.zookeeper.root.node"@);
    if !consistency::set_from_outside(settings, "nifi.cluster.leader.election.implementation"@) {
        lemma_own_value(settings, proxy_hosts, quotas, "nifi.cluster.leader.election.implementation"@);
    }
    if !consistency::set_from_outside(settings, "nifi.cluster.leader.election.kubernetes.lease.prefix"@) {
        lemma_own_value(settings, proxy_hosts, quotas, "nifi.cluster.leader.election.kubernetes.lease.prefix"@);
    }
    if !consistency::set_from_outside(settings, "nifi.state.management.provider.cluster"@) {
        lemma_own_value(settings, proxy_hosts, quotas, "nifi.state.management.provider.cluster"@);
    }
    if !consistency::set_from_outside(settings, "nifi.cluster.flow.election.max.candidates"@) {
        lemma_own_value(settings, proxy_hosts, quotas, "nifi.cluster.flow.election.max.candidates"@);
    }
    if !consistency::set_from_outside(settings, "nifi.zookeeper.connect.string"@) {
        lemma_own_value(settings, proxy_hosts, quotas, "nifi.zookeeper.connect.string"@);
    }
    if !consistency::set_from_outside(settings, "nifi.zookeeper.root.node"@) {
        lemma_own_value(settings, proxy_hosts, quotas, "nifi.zookeeper.root.node"@);
    }
}

/// The archive of the flow and the provenance repository respect the quotas of their volumes.
pub proof fn law_repositories_respect_their_quotas(
    settings: NifiSettingsView,
    proxy_hosts: Seq<char>,
    quotas: StorageQuotasView,
)
    requires
        nifi_properties::failure(settings, quotas).is_none(),
        settings.storage.flowfile_repo.capacity.is_some(),
        settings.storage.provenance_repo.capacity.is_some(),
    ensures
        says(
            settings,
            proxy_hosts,
            quotas,
            "nifi.flow.configuration.archive.max.storage"@,
            quotas.flow_archive.unwrap(),
        ),
        says(
            settings,
            proxy_hosts,
            quotas,
            "nifi.provenance.repository.max.storage.size"@,
            quotas.provenance.unwrap(),
        ),
        says(
            settings,
            proxy_hosts,
            quotas,
            "nifi.flow.configuration.archive.max.time"@,
            ""@,
        ),
        says(
            settings,
            proxy_hosts,
            quotas,
            "nifi.flow.configuration.archive.max.count"@,
            ""@,
        ),
        says(
            settings,
            proxy_hosts,
            quotas,
            "nifi.provenance.repository.max.storage.time"@,
            ""@,
        ),
        says(
            settings,
            proxy_hosts,
            quotas,
            "nifi.content.repository.archive.max.retention.period"@,
            "3 days"@,
        ),
        says(
            settings,
            proxy_hosts,
            quotas,
            "nifi.content.repository.archive.max.usage.percentage"@,
            "50%"@,
        ),
{
    lemma_fingerprints();
    lemma_fixed_names();
    let flow_archive = up_to_flow_archive(settings, proxy_hosts, quotas);
    assert(flow_archive.dom().contains("nifi.flow.configuration.archive.max.time"@) && flow_archive["nifi.flow.configuration.archive.max.time"@] == ""@);
    lemma_after_flow_archive(settings, proxy_hosts, quotas, "nifi.flow.configuration.archive.max.time"@);
    let flow_quota = up_to_flow_quota(settings, proxy_hosts, quotas);
    assert(flow_quota.dom().contains("nifi.flow.configuration.archive.max.storage"@) && flow_quota["nifi.flow.configuration.archive.max.storage"@] == quotas.flow_archive.unwrap());
    lemma_after_flow_quota(settings, proxy_hosts, quotas, "nifi.flow.configuration.archive.max.storage"@);
    let core = up_to_core(settings, proxy_hosts, quotas);
    assert(core.dom().contains("nifi.flow.configuration.archive.max.count"@) && core["nifi.flow.configuration.archive.max.count"@] == ""@);
    lemma_after_core(settings, proxy_hosts, quotas, "nifi.flow.configuration.archive.max.count"@);
    let content = up_to_content(settings, proxy_hosts, quotas);
    assert(content.dom().contains("nifi.content.repository.archive.max.retention.period"@) && content["nifi.content.repository.archive.max.retention.period"@] == "3 days"@);
    lemma_after_content(settings, proxy_hosts, quotas, "nifi.content.repository.archive.max.retention.period"@);
    assert(content.dom().contains("nifi.content.repository.archive.max.usage.percentage"@) && content["nifi.content.repository.archive.max.usage.percentage"@] == "50%"@);
    lemma_after_content(settings, proxy_hosts, quotas, "nifi.content.repository.archive.max.usage.percentage"@);
    let provenance = up_to_provenance(settings, proxy_hosts, quotas);
    assert(provenance.dom().contains("nifi.provenance.repository.max.storage.time"@) && provenance["nifi.provenance.repository.max.storage.time"@] == ""@);
    lemma_after_provenance(settings, proxy_hosts, quotas, "nifi.provenance.repository.max.storage.time"@);
    let provenance_quota = up_to_provenance_quota(settings, proxy_hosts, quotas);
    assert(provenance_quota.dom().contains("nifi.provenance.repository.max.storage.size"@) && provenance_quota["nifi.provenance.repository.max.storage.size"@] == quotas.provenance.unwrap());
    lemma_after_provenance_quota(settings, proxy_hosts, quotas, "nifi.provenance.repository.max.storage.size"@);
    if !consistency::set_from_outside(settings, "nifi.flow.configuration.archive.max.storage"@) {
        lemma_own_value(settings, proxy_hosts, quotas, "nifi.flow.configuration.archive.max.storage"@);
    }
    if !consistency::set_from_outside(settings, "nifi.provenance.repository.max.storage.size"@) {
        lemma_own_value(settings, proxy_hosts, quotas, "nifi.provenance.repository.max.storage.size"@);
    }
    if !consistency::set_from_outside(settings, "nifi.flow.configuration.archive.max.time"@) {
        lemma_own_value(settings, proxy_hosts, quotas, "nifi.flow.configuration.archive.max.time"@);
    }
    if !consistency::set_from_outside(settings, "nifi.flow.configuration.archive.max.count"@) {
        lemma_own_value(settings, proxy_hosts, quotas, "nifi.flow.configuration.archive.max.count"@);
    }
    if !consistency::set_from_outside(settings, "nifi.provenance.repository.max.storage.time"@) {
        lemma_own_value(settings, proxy_hosts, quotas, "nifi.provenance.repository.max.storage.time"@);
    }
    if !consistency::set_from_outside(settings, "nifi.content.repository.archive.max.retention.period"@) {
        lemma_own_value(settings, proxy_hosts, quotas, "nifi.content.repository.archive.max.retention.period"@);
    }
    if !consistency::set_from_outside(settings, "nifi.content.repository.archive.max.usage.percentage"@) {
        lemma_own_value(settings, proxy_hosts, quotas, "nifi.content.repository.archive.max.usage.percentage"@);
    }
}

/// A volume whose capacity is not set has no quota.
pub proof fn law_volumes_without_capacity_have_no_quota(
    settings: NifiSettingsView,
    proxy_hosts: Seq<char>,
    quotas: StorageQuotasView,
)
    requires
        nifi_properties::failure(settings, quotas).is_none(),
        settings.storage.flowfile_repo.capacity.is_none(),
        settings.storage.provenance_repo.capacity.is_none(),
    ensures
        says_nothing(settings, proxy_hosts, quotas, "nifi.flow.configuration.archive.max.storage"@),
        says_nothing(settings, proxy_hosts, quotas, "nifi.provenance.repository.max.storage.size"@),
{
    lemma_fingerprints();
    lemma_fixed_names();
    lemma_none_before_flow_quota(settings, proxy_hosts, quotas, "nifi.flow.configuration.archive.max.storage"@);
    assert(!up_to_flow_quota(settings, proxy_hosts, quotas).dom().contains("nifi.flow.configuration.archive.max.storage"@));
    lemma_after_flow_quota(settings, proxy_hosts, quotas, "nifi.flow.configuration.archive.max.storage"@);
    lemma_none_before_provenance_quota(settings, proxy_hosts, quotas, "nifi.provenance.repository.max.storage.size"@);
    assert(!up_to_provenance_quota(settings, proxy_hosts, quotas).dom().contains("nifi.provenance.repository.max.storage.size"@));
    lemma_after_provenance_quota(settings, proxy_hosts, quotas, "nifi.provenance.repository.max.storage.size"@);
    if !consistency::set_from_outside(settings, "nifi.flow.configuration.archive.max.storage"@) {
        lemma_own_value(settings, proxy_hosts, quotas, "nifi.flow.configuration.archive.max.storage"@);
    }
    if !consistency::set_from_outside(settings, "nifi.provenance.repository.max.storage.size"@) {
        lemma_own_value(settings, proxy_hosts, quotas, "nifi.provenance.repository.max.storage.size"@);
    }
}

/// Flows, FlowFiles, contents and provenance events are written to disk, and a node goes on where
/// it stopped.
pub proof fn law_data_survives_restarts(
    settings: NifiSettingsView,
    proxy_hosts: Seq<char>,
    quotas: StorageQuotasView,
)
    requires
        nifi_properties::failure(settings, quotas).is_none(),
    ensures
        says(
            settings,
            proxy_hosts,
            quotas,
            "nifi.flowcontroller.autoResumeState"@,
            "true"@,
        ),
        says(
            settings,
            proxy_hosts,
            quotas,
            "nifi.flowcontroller.graceful.shutdown.period"@,
            "10 sec"@,
        ),
        says(
            settings,
            proxy_hosts,
            quotas,
            "nifi.flow.configuration.archive.enabled"@,
            "true"@,
        ),
        says(
            settings,
            proxy_hosts,
            quotas,
            "nifi.flowfile.repository.implementation"@,
            "org.apache.nifi.controller.repository.WriteAheadFlowFileRepository"@,
        ),
        says(
            settings,
            proxy_hosts,
            quotas,
            "nifi.flowfile.repository.wal.implementation"@,
            "org.apache.nifi.wali.SequentialAccessWriteAheadLog"@,
        ),
        says(
            settings,
            proxy_hosts,
            quotas,
            "nifi.flowfile.repository.retain.orphaned.flowfiles"@,
            "true"@,
        ),
        says(
            settings,
            proxy_hosts,
            quotas,
            "nifi.flowfile.repository.always.sync"@,
            "false"@,
        ),
        says(
            settings,
            proxy_hosts,
            quotas,
            "nifi.flowfile.repository.checkpoint.interval"@,
            "20 secs"@,
        ),
        says(
            settings,
            proxy_hosts,
            quotas,
            "nifi.swap.manager.implementation"@,
            "org.apache.nifi.controller.FileSystemSwapManager"@,
        ),
        says(
            settings,
            proxy_hosts,
            quotas,
            "nifi.queue.swap.threshold"@,
            "20000"@,
        ),
        says(
            settings,
            proxy_hosts,
            quotas,
            "nifi.content.repository.implementation"@,
            "org.apache.nifi.controller.repository.FileSystemRepository"@,
        ),
        says(
            settings,
            proxy_hosts,
            quotas,
            "nifi.content.repository.archive.enabled"@,
            "true"@,
        ),
        says(
            settings,
            proxy_hosts,
            quotas,
            "nifi.content.repository.always.sync"@,
            "false"@,
        ),
        says(
            settings,
            proxy_hosts,
            quotas,
            "nifi.content.claim.max.appendable.size"@,
            "1 MB"@,
        ),
        says(
            settings,
            proxy_hosts,
            quotas,
            "nifi.provenance.repository.implementation"@,
            "org.apache.nifi.provenance.WriteAheadProvenanceRepository"@,
        ),
        says(
            settings,
            proxy_hosts,
            quotas,
            "nifi.provenance.repository.always.sync"@,
            "false"@,
        ),
        says(
            settings,
            proxy_hosts,
            quotas,
            "nifi.h2.url.append"@,
            ";LOCK_TIMEOUT=25000;WRITE_DELAY=0;AUTO_SERVER=FALSE"@,
        ),
{
    lemma_fingerprints();
    lemma_fixed_names();
    let flow_archive = up_to_flow_archive(settings, proxy_hosts, quotas);
    assert(flow_archive.dom().contains("nifi.flow.configuration.archive.enabled"@) && flow_archive["nifi.flow.configuration.archive.enabled"@] == "true"@);
    lemma_after_flow_archive(settings, proxy_hosts, quotas, "nifi.flow.configuration.archive.enabled"@);
    let core = up_to_core(settings, proxy_hosts, quotas);
    assert(core.dom().contains("nifi.flowcontroller.autoResumeState"@) && core["nifi.flowcontroller.autoResumeState"@] == "true"@);
    lemma_after_core(settings, proxy_hosts, quotas, "nifi.flowcontroller.autoResumeState"@);
    assert(core.dom().contains("nifi.flowcontroller.graceful.shutdown.period"@) && core["nifi.flowcontroller.graceful.shutdown.period"@] == "10 sec"@);
    lemma_after_core(settings, proxy_hosts, quotas, "nifi.flowcontroller.graceful.shutdown.period"@);
    let flowfile = up_to_flowfile(settings, proxy_hosts, quotas);
    assert(flowfile.dom().contains("nifi.flowfile.repository.implementation"@) && flowfile["nifi.flowfile.repository.implementation"@] == "org.apache.nifi.controller.repository.WriteAheadFlowFileRepository"@);
    lemma_after_flowfile(settings, proxy_hosts, quotas, "nifi.flowfile.repository.implementation"@);
    assert(flowfile.dom().contains("nifi.flowfile.repository.wal.implementation"@) && flowfile["nifi.flowfile.repository.wal.implementation"@] == "org.apache.nifi.wali.SequentialAccessWriteAheadLog"@);
    lemma_after_flowfile(settings, proxy_hosts, quotas, "nifi.flowfile.repository.wal.implementation"@);
    assert(flowfile.dom().contains("nifi.flowfile.repository.retain.orphaned.flowfiles"@) && flowfile["nifi.flowfile.repository.retain.orphaned.flowfiles"@] == "true"@);
    lemma_after_flowfile(settings, proxy_hosts, quotas, "nifi.flowfile.repository.retain.orphaned.flowfiles"@);
    assert(flowfile.dom().contains("nifi.flowfile.repository.always.sync"@) && flowfile["nifi.flowfile.repository.always.sync"@] == "false"@);
    lemma_after_flowfile(settings, proxy_hosts, quotas, "nifi.flowfile.repository.always.sync"@);
    assert(flowfile.dom().contains("nifi.flowfile.repository.checkpoint.interval"@) && flowfile["nifi.flowfile.repository.checkpoint.interval"@] == "20 secs"@);
    lemma_after_flowfile(settings, proxy_hosts, quotas, "nifi.flowfile.repository.checkpoint.interval"@);
    assert(flowfile.dom().contains("nifi.swap.manager.implementation"@) && flowfile["nifi.swap.manager.implementation"@] == "org.apache.nifi.controller.FileSystemSwapManager"@);
    lemma_after_flowfile(settings, proxy_hosts, quotas, "nifi.swap.manager.implementation"@);
    assert(flowfile.dom().contains("nifi.queue.swap.threshold"@) && flowfile["nifi.queue.swap.threshold"@] == "20000"@);
    lemma_after_flowfile(settings, proxy_hosts, quotas, "nifi.queue.swap.threshold"@);
    assert(flowfile.dom().contains("nifi.h2.url.append"@) && flowfile["nifi.h2.url.append"@] == ";LOCK_TIMEOUT=25000;WRITE_DELAY=0;AUTO_SERVER=FALSE"@);
    lemma_after_flowfile(settings, proxy_hosts, quotas, "nifi.h2.url.append"@);
    let content = up_to_content(settings, proxy_hosts, quotas);
    assert(content.dom().contains("nifi.content.repository.implementation"@) && content["nifi.content.repository.implementation"@] == "org.apache.nifi.controller.repository.FileSystemRepository"@);
    lemma_after_content(settings, proxy_hosts, quotas, "nifi.content.repository.implementation"@);
    assert(content.dom().contains("nifi.content.repository.archive.enabled"@) && content["nifi.content.repository.archive.enabled"@] == "true"@);
    lemma_after_content(settings, proxy_hosts, quotas, "nifi.content.repository.archive.enabled"@);
    assert(content.dom().contains("nifi.content.repository.always.sync"@) && content["nifi.content.repository.always.sync"@] == "false"@);
    lemma_after_content(settings, proxy_hosts, quotas, "nifi.content.repository.always.sync"@);
    assert(content.dom().contains("nifi.content.claim.max.appendable.size"@) && content["nifi.content.claim.max.appendable.size"@] == "1 MB"@);
    lemma_after_content(settings, proxy_hosts, quotas, "nifi.content.claim.max.appendable.size"@);
    let provenance = up_to_provenance(settings, proxy_hosts, quotas);
    assert(provenance.dom().contains("nifi.provenance.repository.implementation"@) && provenance["nifi.provenance.repository.implementation"@] == "org.apache.nifi.provenance.WriteAheadProvenanceRepository"@);
    lemma_after_provenance(settings, proxy_hosts, quotas, "nifi.provenance.repository.implementation"@);
    let tuning = up_to_tuning(settings, proxy_hosts, quotas);
    assert(tuning.dom().contains("nifi.provenance.repository.always.sync"@) && tuning["nifi.provenance.repository.always.sync"@] == "false"@);
    lemma_after_tuning(settings, proxy_hosts, quotas, "nifi.provenance.repository.always.sync"@);
    if !consistency::set_from_outside(settings, "nifi.flowcontroller.autoResumeState"@) {
        lemma_own_value(settings, proxy_hosts, quotas, "nifi.flowcontroller.autoResumeState"@);
    }
    if !consistency::set_from_outside(settings, "nifi.flowcontroller.graceful.shutdown.period"@) {
        lemma_own_value(settings, proxy_hosts, quotas, "nifi.flowcontroller.graceful.shutdown.period"@);
    }
    if !consistency::set_from_outside(settings, "nifi.flow.configuration.archive.enabled"@) {
        lemma_own_value(settings, proxy_hosts, quotas, "nifi.flow.configuration.archive.enabled"@);
    }
    if !consistency::set_from_outside(settings, "nifi.flowfile.repository.implementation"@) {
        lemma_own_value(settings, proxy_hosts, quotas, "nifi.flowfile.repository.implementation"@);
    }
    if !consistency::set_from_outside(settings, "nifi.flowfile.repository.wal.implementation"@) {
        lemma_own_value(settings, proxy_hosts, quotas, "nifi.flowfile.repository.wal.implementation"@);
    }
    if !consistency::set_from_outside(settings, "nifi.flowfile.repository.retain.orphaned.flowfiles"@) {
        lemma_own_value(settings, proxy_hosts, quotas, "nifi.flowfile.repository.retain.orphaned.flowfiles"@);
    }
    if !consistency::set_from_outside(settings, "nifi.flowfile.repository.always.sync"@) {
        lemma_own_value(settings, proxy_hosts, quotas, "nifi.flowfile.repository.always.sync"@);
    }
    if !consistency::set_from_outside(settings, "nifi.flowfile.repository.checkpoint.interval"@) {
        lemma_own_value(settings, proxy_hosts, quotas, "nifi.flowfile.repository.checkpoint.interval"@);
    }
    if !consistency::set_from_outside(settings, "nifi.swap.manager.implementation"@) {
        lemma_own_value(settings, proxy_hosts, quotas, "nifi.swap.manager.implementation"@);
    }
    if !consistency::set_from_outside(settings, "nifi.queue.swap.threshold"@) {
        lemma_own_value(settings, proxy_hosts, quotas, "nifi.queue.swap.threshold"@);
    }
    if !consistency::set_from_outside(settings, "nifi.content.repository.implementation"@) {
        lemma_own_value(settings, proxy_hosts, quotas, "nifi.content.repository.implementation"@);
    }
    if !consistency::set_from_outside(settings, "nifi.content.repository.archive.enabled"@) {
        lemma_own_value(settings, proxy_hosts, quotas, "nifi.content.repository.archive.enabled"@);
    }
    if !consistency::set_from_outside(settings, "nifi.content.repository.always.sync"@) {
        lemma_own_value(settings, proxy_hosts, quotas, "nifi.content.repository.always.sync"@);
    }
    if !consistency::set_from_outside(settings, "nifi.content.claim.max.appendable.size"@) {
        lemma_own_value(settings, proxy_hosts, quotas, "nifi.content.claim.max.appendable.size"@);
    }
    if !consistency::set_from_outside(settings, "nifi.provenance.repository.implementation"@) {
        lemma_own_value(settings, proxy_hosts, quotas, "nifi.provenance.repository.implementation"@);
    }
    if !consistency::set_from_outside(settings, "nifi.provenance.repository.always.sync"@) {
        lemma_own_value(settings, proxy_hosts, quotas, "nifi.provenance.repository.always.sync"@);
    }
    if !consistency::set_from_outside(settings, "nifi.h2.url.append"@) {
        lemma_own_value(settings, proxy_hosts, quotas, "nifi.h2.url.append"@);
    }
}

/// How provenance events are rolled over and indexed.
pub proof fn law_provenance_is_indexed(
    settings: NifiSettingsView,
    proxy_hosts: Seq<char>,
    quotas: StorageQuotasView,
)
    requires
        nifi_properties::failure(settings, quotas).is_none(),
    ensures
        says(
            settings,
            proxy_hosts,
            quotas,
            "nifi.provenance.repository.rollover.time"@,
            "10 mins"@,
        ),
        says(
            settings,
            proxy_hosts,
            quotas,
            "nifi.provenance.repository.rollover.size"@,
            "100 MB"@,
        ),
        says(
            settings,
            proxy_hosts,
            quotas,
            "nifi.provenance.repository.query.threads"@,
            "2"@,
        ),
        says(
            settings,
            proxy_hosts,
            quotas,
            "nifi.provenance.repository.index.threads"@,
            "2"@,
        ),
        says(
            settings,
            proxy_hosts,
            quotas,
            "nifi.provenance.repository.compress.on.rollover"@,
            "true"@,
        ),
        says(
            settings,
            proxy_hosts,
            quotas,
            "nifi.provenance.repository.indexed.fields"@,
            "EventType, FlowFileUUID, Filename, ProcessorID, Relationship"@,
        ),
        says(
            settings,
            proxy_hosts,
            quotas,
            "nifi.provenance.repository.indexed.attributes"@,
            ""@,
        ),
        says(
            settings,
            proxy_hosts,
            quotas,
            "nifi.provenance.repository.index.shard.size"@,
            "500 MB"@,
        ),
        says(
            settings,
            proxy_hosts,
            quotas,
            "nifi.provenance.repository.max.attribute.length"@,
            "65536"@,
        ),
        says(
            settings,
            proxy_hosts,
            quotas,
            "nifi.provenance.repository.concurrent.merge.threads"@,
            "2"@,
        ),
        says(
            settings,
            proxy_hosts,
            quotas,
            "nifi.provenance.repository.buffer.size"@,
            "100000"@,
        ),
{
    lemma_fingerprints();
    lemma_fixed_names();
    let tuning = up_to_tuning(settings, proxy_hosts, quotas);
    assert(tuning.dom().contains("nifi.provenance.repository.rollover.time"@) && tuning["nifi.provenance.repository.rollover.time"@] == "10 mins"@);
    lemma_after_tuning(settings, proxy_hosts, quotas, "nifi.provenance.repository.rollover.time"@);
    assert(tuning.dom().contains("nifi.provenance.repository.rollover.size"@) && tuning["nifi.provenance.repository.rollover.size"@] == "100 MB"@);
    lemma_after_tuning(settings, proxy_hosts, quotas, "nifi.provenance.repository.rollover.size"@);
    assert(tuning.dom().contains("nifi.provenance.repository.query.threads"@) && tuning["nifi.provenance.repository.query.threads"@] == "2"@);
    lemma_after_tuning(settings, proxy_hosts, quotas, "nifi.provenance.repository.query.threads"@);
    assert(tuning.dom().contains("nifi.provenance.repository.index.threads"@) && tuning["nifi.provenance.repository.index.threads"@] == "2"@);
    lemma_after_tuning(settings, proxy_hosts, quotas, "nifi.provenance.repository.index.threads"@);
    assert(tuning.dom().contains("nifi.provenance.repository.compress.on.rollover"@) && tuning["nifi.provenance.repository.compress.on.rollover"@] == "true"@);
    lemma_after_tuning(settings, proxy_hosts, quotas, "nifi.provenance.repository.compress.on.rollover"@);
    assert(tuning.dom().contains("nifi.provenance.repository.indexed.fields"@) && tuning["nifi.provenance.repository.indexed.fields"@] == "EventType, FlowFileUUID, Filename, ProcessorID, Relationship"@);
    lemma_after_tuning(settings, proxy_hosts, quotas, "nifi.provenance.repository.indexed.fields"@);
    assert(tuning.dom().contains("nifi.provenance.repository.indexed.attributes"@) && tuning["nifi.provenance.repository.indexed.attributes"@] == ""@);
    lemma_after_tuning(settings, proxy_hosts, quotas, "nifi.provenance.repository.indexed.attributes"@);
    assert(tuning.dom().contains("nifi.provenance.repository.index.shard.size"@) && tuning["nifi.provenance.repository.index.shard.size"@] == "500 MB"@);
    lemma_after_tuning(settings, proxy_hosts, quotas, "nifi.provenance.repository.index.shard.size"@);
    assert(tuning.dom().contains("nifi.provenance.repository.max.attribute.length"@) && tuning["nifi.provenance.repository.max.attribute.length"@] == "65536"@);
    lemma_after_tuning(settings, proxy_hosts, quotas, "nifi.provenance.repository.max.attribute.length"@);
    assert(tuning.dom().contains("nifi.provenance.repository.concurrent.merge.threads"@) && tuning["nifi.provenance.repository.concurrent.merge.threads"@] == "2"@);
    lemma_after_tuning(settings, proxy_hosts, quotas, "nifi.provenance.repository.concurrent.merge.threads"@);
    assert(tuning.dom().contains("nifi.provenance.repository.buffer.size"@) && tuning["nifi.provenance.repository.buffer.size"@] == "100000"@);
    lemma_after_tuning(settings, proxy_hosts, quotas, "nifi.provenance.repository.buffer.size"@);
    if !consistency::set_from_outside(settings, "nifi.provenance.repository.rollover.time"@) {
        lemma_own_value(settings, proxy_hosts, quotas, "nifi.provenance.repository.rollover.time"@);
    }
    if !consistency::set_from_outside(settings, "nifi.provenance.repository.rollover.size"@) {
        lemma_own_value(settings, proxy_hosts, quotas, "nifi.provenance.repository.rollover.size"@);
    }
    if !consistency::set_from_outside(settings, "nifi.provenance.repository.query.threads"@) {
        lemma_own_value(settings, proxy_hosts, quotas, "nifi.provenance.repository.query.threads"@);
    }
    if !consistency::set_from_outside(settings, "nifi.provenance.repository.index.threads"@) {
        lemma_own_value(settings, proxy_hosts, quotas, "nifi.provenance.repository.index.threads"@);
    }
    if !consistency::set_from_outside(settings, "nifi.provenance.repository.compress.on.rollover"@) {
        lemma_own_value(settings, proxy_hosts, quotas, "nifi.provenance.repository.compress.on.rollover"@);
    }
    if !consistency::set_from_outside(settings, "nifi.provenance.repository.indexed.fields"@) {
        lemma_own_value(settings, proxy_hosts, quotas, "nifi.provenance.repository.indexed.fields"@);
    }
    if !consistency::set_from_outside(settings, "nifi.provenance.repository.indexed.attributes"@) {
        lemma_own_value(settings, proxy_hosts, quotas, "nifi.provenance.repository.indexed.attributes"@);
    }
    if !consistency::set_from_outside(settings, "nifi.provenance.repository.index.shard.size"@) {
        lemma_own_value(settings, proxy_hosts, quotas, "nifi.provenance.repository.index.shard.size"@);
    }
    if !consistency::set_from_outside(settings, "nifi.provenance.repository.max.attribute.length"@) {
        lemma_own_value(settings, proxy_hosts, quotas, "nifi.provenance.repository.max.attribute.length"@);
    }
    if !consistency::set_from_outside(settings, "nifi.provenance.repository.concurrent.merge.threads"@) {
        lemma_own_value(settings, proxy_hosts, quotas, "nifi.provenance.repository.concurrent.merge.threads"@);
    }
    if !consistency::set_from_outside(settings, "nifi.provenance.repository.buffer.size"@) {
        lemma_own_value(settings, proxy_hosts, quotas, "nifi.provenance.repository.buffer.size"@);
    }
}

/// Where NiFi finds its own components and those in Python, and where it works on them.
pub proof fn law_components_are_found(
    settings: NifiSettingsView,
    proxy_hosts: Seq<char>,
    quotas: StorageQuotasView,
)
    requires
        nifi_properties::failure(settings, quotas).is_none(),
    ensures
        says(
            settings,
            proxy_hosts,
            quotas,
            "nifi.nar.library.directory"@,
            "./lib"@,
        ),
        says(
            settings,
            proxy_hosts,
            quotas,
            "nifi.nar.library.autoload.directory"@,
            "./extensions"@,
        ),
        says(
            settings,
            proxy_hosts,
            quotas,
            "nifi.nar.working.directory"@,
            "./work/nar/"@,
        ),
        says(
            settings,
            proxy_hosts,
            quotas,
            "nifi.documentation.working.directory"@,
            "./work/docs/components"@,
        ),
        says(
            settings,
            proxy_hosts,
            quotas,
            "nifi.templates.directory"@,
            "./conf/templates"@,
        ),
        says(
            settings,
            proxy_hosts,
            quotas,
            "nifi.python.command"@,
            "python3"@,
        ),
        says(
            settings,
            proxy_hosts,
            quotas,
            "nifi.python.framework.source.directory"@,
            "/stackable/nifi/python/framework"@,
        ),
        says(
            settings,
            proxy_hosts,
            quotas,
            "nifi.python.working.directory"@,
            "/nifi-python-working-directory"@,
        ),
        says(
            settings,
            proxy_hosts,
            quotas,
            "nifi.python.extensions.source.directory.default"@,
            "/stackable/nifi/python/extensions"@,
        ),
{
    lemma_fingerprints();
    lemma_fixed_names();
    let core = up_to_core(settings, proxy_hosts, quotas);
    assert(core.dom().contains("nifi.nar.library.directory"@) && core["nifi.nar.library.directory"@] == "./lib"@);
    lemma_after_core(settings, proxy_hosts, quotas, "nifi.nar.library.directory"@);
    assert(core.dom().contains("nifi.nar.library.autoload.directory"@) && core["nifi.nar.library.autoload.directory"@] == "./extensions"@);
    lemma_after_core(settings, proxy_hosts, quotas, "nifi.nar.library.autoload.directory"@);
    assert(core.dom().contains("nifi.nar.working.directory"@) && core["nifi.nar.working.directory"@] == "./work/nar/"@);
    lemma_after_core(settings, proxy_hosts, quotas, "nifi.nar.working.directory"@);
    assert(core.dom().contains("nifi.documentation.working.directory"@) && core["nifi.documentation.working.directory"@] == "./work/docs/components"@);
    lemma_after_core(settings, proxy_hosts, quotas, "nifi.documentation.working.directory"@);
    assert(core.dom().contains("nifi.templates.directory"@) && core["nifi.templates.directory"@] == "./conf/templates"@);
    lemma_after_core(settings, proxy_hosts, quotas, "nifi.templates.directory"@);
    let python = up_to_python(settings, proxy_hosts, quotas);
    assert(python.dom().contains("nifi.python.command"@) && python["nifi.python.command"@] == "python3"@);
    lemma_after_python(settings, proxy_hosts, quotas, "nifi.python.command"@);
    assert(python.dom().contains("nifi.python.framework.source.directory"@) && python["nifi.python.framework.source.directory"@] == "/stackable/nifi/python/framework"@);
    lemma_after_python(settings, proxy_hosts, quotas, "nifi.python.framework.source.directory"@);
    assert(python.dom().contains("nifi.python.working.directory"@) && python["nifi.python.working.directory"@] == "/nifi-python-working-directory"@);
    lemma_after_python(settings, proxy_hosts, quotas, "nifi.python.working.directory"@);
    assert(python.dom().contains("nifi.python.extensions.source.directory.default"@) && python["nifi.python.extensions.source.directory.default"@] == "/stackable/nifi/python/extensions"@);
    lemma_after_python(settings, proxy_hosts, quotas, "nifi.python.extensions.source.directory.default"@);
    if !consistency::set_from_outside(settings, "nifi.nar.library.directory"@) {
        lemma_own_value(settings, proxy_hosts, quotas, "nifi.nar.library.directory"@);
    }
    if !consistency::set_from_outside(settings, "nifi.nar.library.autoload.directory"@) {
        lemma_own_value(settings, proxy_hosts, quotas, "nifi.nar.library.autoload.directory"@);
    }
    if !consistency::set_from_outside(settings, "nifi.nar.working.directory"@) {
        lemma_own_value(settings, proxy_hosts, quotas, "nifi.nar.working.directory"@);
    }
    if !consistency::set_from_outside(settings, "nifi.documentation.working.directory"@) {
        lemma_own_value(settings, proxy_hosts, quotas, "nifi.documentation.working.directory"@);
    }
    if !consistency::set_from_outside(settings, "nifi.templates.directory"@) {
        lemma_own_value(settings, proxy_hosts, quotas, "nifi.templates.directory"@);
    }
    if !consistency::set_from_outside(settings, "nifi.python.command"@) {
        lemma_own_value(settings, proxy_hosts, quotas, "nifi.python.command"@);
    }
    if !consistency::set_from_outside(settings, "nifi.python.framework.source.directory"@) {
        lemma_own_value(settings, proxy_hosts, quotas, "nifi.python.framework.source.directory"@);
    }
    if !consistency::set_from_outside(settings, "nifi.python.working.directory"@) {
        lemma_own_value(settings, proxy_hosts, quotas, "nifi.python.working.directory"@);
    }
    if !consistency::set_from_outside(settings, "nifi.python.extensions.source.directory.default"@) {
        lemma_own_value(settings, proxy_hosts, quotas, "nifi.python.extensions.source.directory.default"@);
    }
}

/// How often the user interface is refreshed, how long the status is kept, and how large requests
/// may be.
pub proof fn law_status_and_server_are_tuned(
    settings: NifiSettingsView,
    proxy_hosts: Seq<char>,
    quotas: StorageQuotasView,
)
    requires
        nifi_properties::failure(settings, quotas).is_none(),
    ensures
        says(
            settings,
            proxy_hosts,
            quotas,
            "nifi.flowservice.writedelay.interval"@,
            "500 ms"@,
        ),
        says(
            settings,
            proxy_hosts,
            quotas,
            "nifi.administrative.yield.duration"@,
            "30 sec"@,
        ),
        says(
            settings,
            proxy_hosts,
            quotas,
            "nifi.ui.banner.text"@,
            ""@,
        ),
        says(
            settings,
            proxy_hosts,
            quotas,
            "nifi.ui.autorefresh.interval"@,
            "30 sec"@,
        ),
        says(
            settings,
            proxy_hosts,
            quotas,
            "nifi.content.viewer.url"@,
            "../nifi-content-viewer/"@,
        ),
        says(
            settings,
            proxy_hosts,
            quotas,
            "nifi.components.status.repository.implementation"@,
            "org.apache.nifi.controller.status.history.VolatileComponentStatusRepository"@,
        ),
        says(
            settings,
            proxy_hosts,
            quotas,
            "nifi.components.status.repository.buffer.size"@,
            "1440"@,
        ),
        says(
            settings,
            proxy_hosts,
            quotas,
            "nifi.components.status.snapshot.frequency"@,
            "1 min"@,
        ),
        says(
            settings,
            proxy_hosts,
            quotas,
            "nifi.status.repository.questdb.persist.node.days"@,
            "14"@,
        ),
        says(
            settings,
            proxy_hosts,
            quotas,
            "nifi.status.repository.questdb.persist.component.days"@,
            "3"@,
        ),
        says(
            settings,
            proxy_hosts,
            quotas,
            "nifi.status.repository.questdb.persist.location"@,
            "./status_repository"@,
        ),
        says(
            settings,
            proxy_hosts,
            quotas,
            "nifi.web.jetty.working.directory"@,
            "./work/jetty"@,
        ),
        says(
            settings,
            proxy_hosts,
            quotas,
            "nifi.web.jetty.threads"@,
            "200"@,
        ),
        says(
            settings,
            proxy_hosts,
            quotas,
            "nifi.web.max.header.size"@,
            "16 KB"@,
        ),
{
    lemma_fingerprints();
    lemma_fixed_names();
    let core = up_to_core(settings, proxy_hosts, quotas);
    assert(core.dom().contains("nifi.flowservice.writedelay.interval"@) && core["nifi.flowservice.writedelay.interval"@] == "500 ms"@);
    lemma_after_core(settings, proxy_hosts, quotas, "nifi.flowservice.writedelay.interval"@);
    assert(core.dom().contains("nifi.administrative.yield.duration"@) && core["nifi.administrative.yield.duration"@] == "30 sec"@);
    lemma_after_core(settings, proxy_hosts, quotas, "nifi.administrative.yield.duration"@);
    assert(core.dom().contains("nifi.ui.banner.text"@) && core["nifi.ui.banner.text"@] == ""@);
    lemma_after_core(settings, proxy_hosts, quotas, "nifi.ui.banner.text"@);
    assert(core.dom().contains("nifi.ui.autorefresh.interval"@) && core["nifi.ui.autorefresh.interval"@] == "30 sec"@);
    lemma_after_core(settings, proxy_hosts, quotas, "nifi.ui.autorefresh.interval"@);
    let content = up_to_content(settings, proxy_hosts, quotas);
    assert(content.dom().contains("nifi.content.viewer.url"@) && content["nifi.content.viewer.url"@] == "../nifi-content-viewer/"@);
    lemma_after_content(settings, proxy_hosts, quotas, "nifi.content.viewer.url"@);
    let status = up_to_status(settings, proxy_hosts, quotas);
    assert(status.dom().contains("nifi.components.status.repository.implementation"@) && status["nifi.components.status.repository.implementation"@] == "org.apache.nifi.controller.status.history.VolatileComponentStatusRepository"@);
    lemma_after_status(settings, proxy_hosts, quotas, "nifi.components.status.repository.implementation"@);
    assert(status.dom().contains("nifi.components.status.repository.buffer.size"@) && status["nifi.components.status.repository.buffer.size"@] == "1440"@);
    lemma_after_status(settings, proxy_hosts, quotas, "nifi.components.status.repository.buffer.size"@);
    assert(status.dom().contains("nifi.components.status.snapshot.frequency"@) && status["nifi.components.status.snapshot.frequency"@] == "1 min"@);
    lemma_after_status(settings, proxy_hosts, quotas, "nifi.components.status.snapshot.frequency"@);
    assert(status.dom().contains("nifi.status.repository.questdb.persist.node.days"@) && status["nifi.status.repository.questdb.persist.node.days"@] == "14"@);
    lemma_after_status(settings, proxy_hosts, quotas, "nifi.status.repository.questdb.persist.node.days"@);
    assert(status.dom().contains("nifi.status.repository.questdb.persist.component.days"@) && status["nifi.status.repository.questdb.persist.component.days"@] == "3"@);
    lemma_after_status(settings, proxy_hosts, quotas, "nifi.status.repository.questdb.persist.component.days"@);
    assert(status.dom().contains("nifi.status.repository.questdb.persist.location"@) && status["nifi.status.repository.questdb.persist.location"@] == "./status_repository"@);
    lemma_after_status(settings, proxy_hosts, quotas, "nifi.status.repository.questdb.persist.location"@);
    let web_server = up_to_web_server(settings, proxy_hosts, quotas);
    assert(web_server.dom().contains("nifi.web.jetty.working.directory"@) && web_server["nifi.web.jetty.working.directory"@] == "./work/jetty"@);
    lemma_after_web_server(settings, proxy_hosts, quotas, "nifi.web.jetty.working.directory"@);
    assert(web_server.dom().contains("nifi.web.jetty.threads"@) && web_server["nifi.web.jetty.threads"@] == "200"@);
    lemma_after_web_server(settings, proxy_hosts, quotas, "nifi.web.jetty.threads"@);
    assert(web_server.dom().contains("nifi.web.max.header.size"@) && web_server["nifi.web.max.header.size"@] == "16 KB"@);
    lemma_after_web_server(settings, proxy_hosts, quotas, "nifi.web.max.header.size"@);
    if !consistency::set_from_outside(settings, "nifi.flowservice.writedelay.interval"@) {
        lemma_own_value(settings, proxy_hosts, quotas, "nifi.flowservice.writedelay.interval"@);
    }
    if !consistency::set_from_outside(settings, "nifi.administrative.yield.duration"@) {
        lemma_own_value(settings, proxy_hosts, quotas, "nifi.administrative.yield.duration"@);
    }
    if !consistency::set_from_outside(settings, "nifi.ui.banner.text"@) {
        lemma_own_value(settings, proxy_hosts, quotas, "nifi.ui.banner.text"@);
    }
    if !consistency::set_from_outside(settings, "nifi.ui.autorefresh.interval"@) {
        lemma_own_value(settings, proxy_hosts, quotas, "nifi.ui.autorefresh.interval"@);
    }
    if !consistency::set_from_outside(settings, "nifi.content.viewer.url"@) {
        lemma_own_value(settings, proxy_hosts, quotas, "nifi.content.viewer.url"@);
    }
    if !consistency::set_from_outside(settings, "nifi.components.status.repository.implementation"@) {
        lemma_own_value(settings, proxy_hosts, quotas, "nifi.components.status.repository.implementation"@);
    }
    if !consistency::set_from_outside(settings, "nifi.components.status.repository.buffer.size"@) {
        lemma_own_value(settings, proxy_hosts, quotas, "nifi.components.status.repository.buffer.size"@);
    }
    if !consistency::set_from_outside(settings, "nifi.components.status.snapshot.frequency"@) {
        lemma_own_value(settings, proxy_hosts, quotas, "nifi.components.status.snapshot.frequency"@);
    }
    if !consistency::set_from_outside(settings, "nifi.status.repository.questdb.persist.node.days"@) {
        lemma_own_value(settings, proxy_hosts, quotas, "nifi.status.repository.questdb.persist.node.days"@);
    }
    if !consistency::set_from_outside(settings, "nifi.status.repository.questdb.persist.component.days"@) {
        lemma_own_value(settings, proxy_hosts, quotas, "nifi.status.repository.questdb.persist.component.days"@);
    }
    if !consistency::set_from_outside(settings, "nifi.status.repository.questdb.persist.location"@) {
        lemma_own_value(settings, proxy_hosts, quotas, "nifi.status.repository.questdb.persist.location"@);
    }
    if !consistency::set_from_outside(settings, "nifi.web.jetty.working.directory"@) {
        lemma_own_value(settings, proxy_hosts, quotas, "nifi.web.jetty.working.directory"@);
    }
    if !consistency::set_from_outside(settings, "nifi.web.jetty.threads"@) {
        lemma_own_value(settings, proxy_hosts, quotas, "nifi.web.jetty.threads"@);
    }
    if !consistency::set_from_outside(settings, "nifi.web.max.header.size"@) {
        lemma_own_value(settings, proxy_hosts, quotas, "nifi.web.max.header.size"@);
    }
}

/// The directories of the repositories, spelled out.
proof fn lemma_directories()
    ensures
        "/stackable/data"@ + "/"@ + "database"@ == "/stackable/data/database"@,
        "/stackable/data"@ + "/"@ + "flowfile"@ == "/stackable/data/flowfile"@,
        "/stackable/data"@ + "/"@ + "content"@ == "/stackable/data/content"@,
        "/stackable/data"@ + "/"@ + "provenance"@ == "/stackable/data/provenance"@,
        "/stackable/data"@ + "/"@ + "database"@ + "/flow.json.gz"@ == "/stackable/data/database/flow.json.gz"@,
        "/stackable/data"@ + "/"@ + "database"@ + "/flow.xml.gz"@ == "/stackable/data/database/flow.xml.gz"@,
{
    reveal_strlit("/stackable/data");
    reveal_strlit("/");
    reveal_strlit("database");
    reveal_strlit("/stackable/data/database");
    reveal_strlit("flowfile");
    reveal_strlit("/stackable/data/flowfile");
    reveal_strlit("content");
    reveal_strlit("/stackable/data/content");
    reveal_strlit("provenance");
    reveal_strlit("/stackable/data/provenance");
    reveal_strlit("/flow.json.gz");
    reveal_strlit("/stackable/data/database/flow.json.gz");
    reveal_strlit("/flow.xml.gz");
    reveal_strlit("/stackable/data/database/flow.xml.gz");
    assert("/stackable/data"@ + "/"@ + "database"@ =~= "/stackable/data/database"@);
    assert("/stackable/data"@ + "/"@ + "flowfile"@ =~= "/stackable/data/flowfile"@);
    assert("/stackable/data"@ + "/"@ + "content"@ =~= "/stackable/data/content"@);
    assert("/stackable/data"@ + "/"@ + "provenance"@ =~= "/stackable/data/provenance"@);
    assert("/stackable/data"@ + "/"@ + "database"@ + "/flow.json.gz"@ =~= "/stackable/data/database/flow.json.gz"@);
    assert("/stackable/data"@ + "/"@ + "database"@ + "/flow.xml.gz"@ =~= "/stackable/data/database/flow.xml.gz"@);
}

/// The ports, spelled out.
proof fn lemma_ports()
    ensures
        text::decimal(8443) == "8443"@,
        text::decimal(9088) == "9088"@,
{
    reveal_with_fuel(text::decimal, 5);
    reveal_strlit("8443");
    reveal_strlit("9088");
    assert(text::decimal(8443) =~= "8443"@);
    assert(text::decimal(9088) =~= "9088"@);
}

/// The places of the stores and of the key, spelled out.
proof fn lemma_stores()
    ensures
        "/stackable/server_tls"@ + "/keystore.p12"@ == "/stackable/server_tls/keystore.p12"@,
        "/stackable/server_tls"@ + "/truststore.p12"@ == "/stackable/server_tls/truststore.p12"@,
        "${file:UTF-8:"@ + ("/stackable/sensitiveproperty"@ + "/"@ + "nifiSensitivePropsKey"@) + "}"@ == "${file:UTF-8:/stackable/sensitiveproperty/nifiSensitivePropsKey}"@,
{
    reveal_strlit("/stackable/server_tls");
    reveal_strlit("/keystore.p12");
    reveal_strlit("/stackable/server_tls/keystore.p12");
    reveal_strlit("/truststore.p12");
    reveal_strlit("/stackable/server_tls/truststore.p12");
    reveal_strlit("${file:UTF-8:");
    reveal_strlit("/stackable/sensitiveproperty");
    reveal_strlit("/");
    reveal_strlit("nifiSensitivePropsKey");
    reveal_strlit("}");
    reveal_strlit("${file:UTF-8:/stackable/sensitiveproperty/nifiSensitivePropsKey}");
    assert("/stackable/server_tls"@ + "/keystore.p12"@ =~= "/stackable/server_tls/keystore.p12"@);
    assert("/stackable/server_tls"@ + "/truststore.p12"@ =~= "/stackable/server_tls/truststore.p12"@);
    assert("${file:UTF-8:"@ + ("/stackable/sensitiveproperty"@ + "/"@ + "nifiSensitivePropsKey"@) + "}"@ =~= "${file:UTF-8:/stackable/sensitiveproperty/nifiSensitivePropsKey}"@);
}

/// The files of the live configuration, spelled out.
proof fn lemma_live_files()
    ensures
        "/stackable/nifi/conf"@ + "/"@ + "authorizers.xml"@ == "/stackable/nifi/conf/authorizers.xml"@,
        "/stackable/nifi/conf"@ + "/"@ + "login-identity-providers.xml"@ == "/stackable/nifi/conf/login-identity-providers.xml"@,
        "/stackable/nifi/conf"@ + "/archive/"@ == "/stackable/nifi/conf/archive/"@,
{
    reveal_strlit("/stackable/nifi/conf");
    reveal_strlit("/");
    reveal_strlit("authorizers.xml");
    reveal_strlit("/stackable/nifi/conf/authorizers.xml");
    reveal_strlit("login-identity-providers.xml");
    reveal_strlit("/stackable/nifi/conf/login-identity-providers.xml");
    reveal_strlit("/archive/");
    reveal_strlit("/stackable/nifi/conf/archive/");
    assert("/stackable/nifi/conf"@ + "/"@ + "authorizers.xml"@ =~= "/stackable/nifi/conf/authorizers.xml"@);
    assert("/stackable/nifi/conf"@ + "/"@ + "login-identity-providers.xml"@ =~= "/stackable/nifi/conf/login-identity-providers.xml"@);
    assert("/stackable/nifi/conf"@ + "/archive/"@ =~= "/stackable/nifi/conf/archive/"@);
}

/// Every folder with custom components of the user is offered for components in Java and in Python.
pub proof fn law_custom_components_are_found(
    settings: NifiSettingsView,
    proxy_hosts: Seq<char>,
    quotas: StorageQuotasView,
    i: int,
)
    requires
        0 <= i < settings.git_content_folders.len(),
    ensures
        ({
            let python = "nifi.python.extensions.source.directory."@ + text::decimal(i as nat);
            let nar = "nifi.nar.library.directory."@ + text::decimal(i as nat);
            &&& !settings.overrides.dom().contains(python) ==> value_of(
                settings,
                proxy_hosts,
                quotas,
                python,
            ) == Some(settings.git_content_folders[i])
            &&& !settings.overrides.dom().contains(nar) ==> value_of(
                settings,
                proxy_hosts,
                quotas,
                nar,
            ) == Some(settings.git_content_folders[i])
        }),
{
    let own = nifi_properties::access_properties(
        nifi_properties::storage_properties(settings, quotas),
        settings,
        proxy_hosts,
    );
    lemma_components(
        with_membership(own, settings.clustering_backend),
        settings.git_content_folders,
        i,
    );
}

/// The properties of the folders with custom components.
proof fn lemma_components(
    properties: Map<Seq<char>, Seq<char>>,
    folders: Seq<Seq<char>>,
    i: int,
)
    requires
        0 <= i < folders.len(),
    ensures
        ({
            let all = nifi_properties::custom_component_properties(properties, folders);
            let python = "nifi.python.extensions.source.directory."@ + text::decimal(i as nat);
            let nar = "nifi.nar.library.directory."@ + text::decimal(i as nat);
            &&& all.dom().contains(python) && all[python] == folders[i]
            &&& all.dom().contains(nar) && all[nar] == folders[i]
        }),
    decreases folders.len(),
{
    let last = (folders.len() - 1) as nat;
    let (p, q) = ("nifi.python.extensions.source.directory."@, "nifi.nar.library.directory."@);
    reveal_strlit("nifi.python.extensions.source.directory.");
    reveal_strlit("nifi.nar.library.directory.");
    assert((p + text::decimal(i as nat))[5] == 'p');
    assert((q + text::decimal(i as nat))[5] == 'n');
    assert((p + text::decimal(last))[5] == 'p');
    assert((q + text::decimal(last))[5] == 'n');
    if i < folders.len() - 1 {
        lemma_components(properties, folders.drop_last(), i);
        lemma_decimals_differ(i as nat, last);
        assert((p + text::decimal(i as nat)).skip(p.len() as int) =~= text::decimal(i as nat));
        assert((p + text::decimal(last)).skip(p.len() as int) =~= text::decimal(last));
        assert((q + text::decimal(i as nat)).skip(q.len() as int) =~= text::decimal(i as nat));
        assert((q + text::decimal(last)).skip(q.len() as int) =~= text::decimal(last));
    }
}

/// Different numbers are written differently.
proof fn lemma_decimals_differ(a: nat, b: nat)
    requires
        a != b,
    ensures
        text::decimal(a) != text::decimal(b),
    decreases a + b,
{
    if text::decimal(a) == text::decimal(b) {
        assert(text::decimal(a).last() == text::digit(a % 10));
        assert(text::decimal(b).last() == text::digit(b % 10));
        assert(text::digit(a % 10) as int == 48 + a % 10);
        assert(text::digit(b % 10) as int == 48 + b % 10);
        if a >= 10 && b >= 10 {
            assert(text::decimal(a).drop_last() =~= text::decimal(a / 10));
            assert(text::decimal(b).drop_last() =~= text::decimal(b / 10));
            lemma_decimals_differ(a / 10, b / 10);
        } else {
            lemma_decimal_length(a);
            lemma_decimal_length(b);
        }
    }
}

/// Numbers of one digit are those below ten.
proof fn lemma_decimal_length(n: nat)
    ensures
        n < 10 <==> text::decimal(n).len() == 1,
        text::decimal(n).len() > 0,
    decreases n,
{
    if n >= 10 {
        lemma_decimal_length(n / 10);
    }
}

/// The file is refused where a quota is needed and cannot be calculated, where the properties of
/// OpenID Connect cannot be derived, and where NiFi 1.x is to be managed by Kubernetes; and in no
/// other case. The error says which, and of which repository.
pub proof fn law_file_is_refused_for_these_reasons(
    settings: NifiSettingsView,
    quotas: StorageQuotasView,
)
    ensures
        ({
            let no_flow_quota = settings.storage.flowfile_repo.capacity.is_some()
                && quotas.flow_archive.is_none();
            let no_provenance_quota = settings.storage.provenance_repo.capacity.is_some()
                && quotas.provenance.is_none();
            let no_oidc = match settings.authentication {
                NifiAuthenticationConfigView::Oidc { provider } => provider.properties.is_none(),
                _ => false,
            };
            let needs_zookeeper = "1."@.is_prefix_of(settings.product_version)
                && !(settings.clustering_backend is ZooKeeper);
            let failure = nifi_properties::failure(settings, quotas);
            &&& failure.is_none() <==> !no_flow_quota && !no_provenance_quota && !no_oidc
                && !needs_zookeeper
            &&& failure == Some(Error::CalculateStorageQuota { repo: NifiRepository::Flowfile })
                <==> no_flow_quota
            &&& failure == Some(Error::CalculateStorageQuota { repo: NifiRepository::Provenance })
                <==> no_provenance_quota && !no_flow_quota
            &&& failure == Some(Error::GenerateOidcConfig) ==> no_oidc
            &&& failure == Some(Error::Nifi1RequiresZookeeper) ==> needs_zookeeper
        }),
{
}

} // verus!
