//! What the files and pods of a cluster that ZooKeeper manages hold.

use crate::controller::build::properties::nifi_properties;
use crate::controller::build::properties::nifi_properties::{NifiSettingsView, StorageQuotasView};
use crate::controller::build::properties::nifi_sections;
use crate::controller::build::properties::nifi_values;
use crate::crd::merging;
use crate::crd::{NifiConfigView, NifiStorageConfigView, PvcConfigView};
use crate::kubernetes::{LabelSelectorView, StackableAffinityView};
use crate::ordered_map;
use crate::text;
use crate::zookeeper_cluster;
use crate::zookeeper_cluster::files;
use crate::zookeeper_cluster::{NifiClusterView, NifiRole, NifiSpecView, PodRefView, RoleGroupView};
use vstd::prelude::*;

verus! {

/// Whether two sets of properties say the same of one property.
pub open spec fn agree(
    a: Map<Seq<char>, Seq<char>>,
    b: Map<Seq<char>, Seq<char>>,
    key: Seq<char>,
) -> bool {
    &&& a.dom().contains(key) == b.dom().contains(key)
    &&& a.dom().contains(key) ==> a[key] == b[key]
}

/// Properties that say the same still do once the same is added.
proof fn lemma_flow_archive_properties(
    a: Map<Seq<char>, Seq<char>>,
    b: Map<Seq<char>, Seq<char>>,
    key: Seq<char>,
)
    requires
        agree(a, b, key),
    ensures
        agree(nifi_sections::flow_archive_properties(a), nifi_sections::flow_archive_properties(b), key),
{
}

/// Properties that say the same still do once the same is added.
proof fn lemma_core_properties(
    a: Map<Seq<char>, Seq<char>>,
    b: Map<Seq<char>, Seq<char>>,
    key: Seq<char>,
)
    requires
        agree(a, b, key),
    ensures
        agree(nifi_sections::core_properties(a), nifi_sections::core_properties(b), key),
{
}

/// Properties that say the same still do once the same is added.
proof fn lemma_state_management_properties(
    a: Map<Seq<char>, Seq<char>>,
    b: Map<Seq<char>, Seq<char>>,
    provider: Seq<char>,
    key: Seq<char>,
)
    requires
        agree(a, b, key),
    ensures
        agree(nifi_sections::state_management_properties(a, provider), nifi_sections::state_management_properties(b, provider), key),
{
}

/// Properties that say the same still do once the same is added.
proof fn lemma_flowfile_properties(
    a: Map<Seq<char>, Seq<char>>,
    b: Map<Seq<char>, Seq<char>>,
    key: Seq<char>,
)
    requires
        agree(a, b, key),
    ensures
        agree(nifi_sections::flowfile_properties(a), nifi_sections::flowfile_properties(b), key),
{
}

/// Properties that say the same still do once the same is added.
proof fn lemma_provenance_properties(
    a: Map<Seq<char>, Seq<char>>,
    b: Map<Seq<char>, Seq<char>>,
    key: Seq<char>,
)
    requires
        agree(a, b, key),
    ensures
        agree(nifi_sections::provenance_properties(a), nifi_sections::provenance_properties(b), key),
{
}

/// Properties that say the same still do once the same is added.
proof fn lemma_provenance_tuning_properties(
    a: Map<Seq<char>, Seq<char>>,
    b: Map<Seq<char>, Seq<char>>,
    key: Seq<char>,
)
    requires
        agree(a, b, key),
    ensures
        agree(nifi_sections::provenance_tuning_properties(a), nifi_sections::provenance_tuning_properties(b), key),
{
}

/// Properties that say the same still do once the same is added.
proof fn lemma_status_properties(
    a: Map<Seq<char>, Seq<char>>,
    b: Map<Seq<char>, Seq<char>>,
    key: Seq<char>,
)
    requires
        agree(a, b, key),
    ensures
        agree(nifi_sections::status_properties(a), nifi_sections::status_properties(b), key),
{
}

/// Properties that say the same still do once the same is added.
proof fn lemma_web_address_properties(
    a: Map<Seq<char>, Seq<char>>,
    b: Map<Seq<char>, Seq<char>>,
    key: Seq<char>,
)
    requires
        agree(a, b, key),
    ensures
        agree(nifi_sections::web_address_properties(a), nifi_sections::web_address_properties(b), key),
{
}

/// Properties that say the same still do once the same is added.
proof fn lemma_web_server_properties(
    a: Map<Seq<char>, Seq<char>>,
    b: Map<Seq<char>, Seq<char>>,
    hosts: Seq<char>,
    key: Seq<char>,
)
    requires
        agree(a, b, key),
    ensures
        agree(nifi_sections::web_server_properties(a, hosts), nifi_sections::web_server_properties(b, hosts), key),
{
}

/// Properties that say the same still do once the same is added.
proof fn lemma_cluster_node_properties(
    a: Map<Seq<char>, Seq<char>>,
    b: Map<Seq<char>, Seq<char>>,
    key: Seq<char>,
)
    requires
        agree(a, b, key),
    ensures
        agree(nifi_sections::cluster_node_properties(a), nifi_sections::cluster_node_properties(b), key),
{
}

/// Properties that say the same still do once the same is added.
proof fn lemma_flow_election_properties(
    a: Map<Seq<char>, Seq<char>>,
    b: Map<Seq<char>, Seq<char>>,
    key: Seq<char>,
)
    requires
        agree(a, b, key),
    ensures
        agree(nifi_sections::flow_election_properties(a), nifi_sections::flow_election_properties(b), key),
{
}

/// Properties that say the same still do once the same is added.
proof fn lemma_zookeeper_properties(
    a: Map<Seq<char>, Seq<char>>,
    b: Map<Seq<char>, Seq<char>>,
    key: Seq<char>,
)
    requires
        agree(a, b, key),
    ensures
        agree(nifi_sections::zookeeper_properties(a), nifi_sections::zookeeper_properties(b), key),
{
}

/// The same, where the time for which contents are kept differs.
proof fn lemma_content_properties(
    a: Map<Seq<char>, Seq<char>>,
    b: Map<Seq<char>, Seq<char>>,
    one: Seq<char>,
    other: Seq<char>,
    key: Seq<char>,
)
    requires
        agree(a, b, key),
        key != "nifi.content.repository.archive.max.retention.period"@,
    ensures
        agree(
            nifi_sections::content_properties(a, one),
            nifi_sections::content_properties(b, other),
            key,
        ),
{
}

/// The same, where the algorithm differs.
proof fn lemma_security_properties(
    a: Map<Seq<char>, Seq<char>>,
    b: Map<Seq<char>, Seq<char>>,
    one: Seq<char>,
    other: Seq<char>,
    key: Seq<char>,
)
    requires
        agree(a, b, key),
        key != "nifi.sensitive.props.algorithm"@,
    ensures
        agree(
            nifi_sections::security_properties(a, one),
            nifi_sections::security_properties(b, other),
            key,
        ),
{
}

/// Whether a property is one of those in which the files of a cluster that ZooKeeper manages differ
/// from those of other clusters.
pub open spec fn differs(key: Seq<char>) -> bool {
    ||| key == "nifi.flow.configuration.json.file"@
    ||| key == "nifi.content.repository.archive.max.retention.period"@
    ||| key == "nifi.sensitive.props.algorithm"@
    ||| key == "nifi.cluster.flow.election.max.wait.time"@
    ||| key == "nifi.web.https.network.interface.eth0"@
    ||| key == "nifi.web.https.network.interface.lo"@
    ||| key == "nifi.cluster.leader.election.implementation"@
    ||| key == "nifi.python.command"@
    ||| key == "nifi.python.framework.source.directory"@
    ||| key == "nifi.python.working.directory"@
    ||| key == "nifi.python.extensions.source.directory.default"@
}

/// But for a few properties, `nifi.properties` says the same as that of any other cluster of NiFi
/// 1.x that ZooKeeper manages, with the same volumes.
pub proof fn law_properties_are_those_of_nifi_1(
    spec_: NifiSpecView,
    storage: NifiStorageConfigView,
    hosts: Seq<char>,
    quotas: StorageQuotasView,
    settings: NifiSettingsView,
    key: Seq<char>,
)
    requires
        settings.storage == storage,
        "1."@.is_prefix_of(settings.product_version),
        settings.clustering_backend is ZooKeeper,
        settings.authentication is SingleUser,
        settings.git_content_folders.len() == 0,
        !differs(key),
    ensures
        agree(
            files::operator_properties(spec_, storage, hosts, quotas),
            nifi_properties::operator_properties(settings, hosts, quotas),
            key,
        ),
{
    let a0 = Map::<Seq<char>, Seq<char>>::empty().insert(
        "nifi.flow.configuration.file"@,
        crate::crd::storage::NifiRepository::Database.directory() + "/flow.xml.gz"@,
    );
    let b0 = nifi_properties::flow_file_properties(Map::empty(), true);
    assert(agree(a0, b0, key));
    lemma_flow_archive_properties(a0, b0, key);
    let a1 = nifi_properties::with_quota(
        nifi_sections::flow_archive_properties(a0),
        "nifi.flow.configuration.archive.max.storage"@,
        storage.flowfile_repo.capacity,
        quotas.flow_archive,
    );
    let b1 = nifi_properties::with_quota(
        nifi_sections::flow_archive_properties(b0),
        "nifi.flow.configuration.archive.max.storage"@,
        storage.flowfile_repo.capacity,
        quotas.flow_archive,
    );
    assert(agree(a1, b1, key));
    lemma_core_properties(a1, b1, key);
    let a2 = nifi_sections::core_properties(a1);
    let b2 = nifi_sections::core_properties(b1);
    lemma_state_management_properties(a2, b2, "zk-provider"@, key);
    let a3 = nifi_sections::state_management_properties(a2, "zk-provider"@);
    let b3 = nifi_sections::state_management_properties(b2, "zk-provider"@);
    lemma_flowfile_properties(a3, b3, key);
    let a4 = nifi_sections::flowfile_properties(a3);
    let b4 = nifi_sections::flowfile_properties(b3);
    lemma_content_properties(a4, b4, ""@, "3 days"@, key);
    let a5 = nifi_sections::content_properties(a4, ""@);
    let b5 = nifi_sections::content_properties(b4, "3 days"@);
    lemma_provenance_properties(a5, b5, key);
    let a6 = nifi_properties::with_quota(
        nifi_sections::provenance_properties(a5),
        "nifi.provenance.repository.max.storage.size"@,
        storage.provenance_repo.capacity,
        quotas.provenance,
    );
    let b6 = nifi_properties::with_quota(
        nifi_sections::provenance_properties(b5),
        "nifi.provenance.repository.max.storage.size"@,
        storage.provenance_repo.capacity,
        quotas.provenance,
    );
    assert(agree(a6, b6, key));
    lemma_provenance_tuning_properties(a6, b6, key);
    let a7 = nifi_sections::provenance_tuning_properties(a6);
    let b7 = nifi_sections::provenance_tuning_properties(b6);
    lemma_status_properties(a7, b7, key);
    let a8 = nifi_sections::status_properties(a7);
    let b8 = nifi_sections::status_properties(b7);
    assert(a8 == files::storage_properties(storage, quotas));
    assert(b8 == nifi_properties::storage_properties(settings, quotas));
    lemma_access(spec_, a8, b8, hosts, settings, key);
}

/// The second half of the properties.
proof fn lemma_access(
    spec_: NifiSpecView,
    a8: Map<Seq<char>, Seq<char>>,
    b8: Map<Seq<char>, Seq<char>>,
    hosts: Seq<char>,
    settings: NifiSettingsView,
    key: Seq<char>,
)
    requires
        settings.clustering_backend is ZooKeeper,
        settings.authentication is SingleUser,
        settings.git_content_folders.len() == 0,
        !differs(key),
        agree(a8, b8, key),
    ensures
        agree(
            nifi_sections::zookeeper_properties(
                nifi_sections::flow_election_properties(
                    nifi_sections::cluster_node_properties(
                        nifi_sections::security_properties(
                            nifi_sections::web_server_properties(
                                nifi_sections::web_address_properties(a8),
                                hosts,
                            ),
                            files::algorithm_of(spec_).text(),
                        ),
                    ).insert("nifi.cluster.flow.election.max.wait.time"@, "1 mins"@),
                ),
            ),
            nifi_properties::membership_properties(
                nifi_properties::access_properties(b8, settings, hosts),
                settings,
            ),
            key,
        ),
{
    let one = files::algorithm_of(spec_).text();
    let other = settings.sensitive_properties_algorithm.text();
    lemma_web_address_properties(a8, b8, key);
    let a9 = nifi_sections::web_address_properties(a8);
    let b9 = nifi_sections::web_interface_properties(nifi_sections::web_address_properties(b8));
    assert(agree(a9, b9, key));
    lemma_web_server_properties(a9, b9, hosts, key);
    let a10 = nifi_sections::web_server_properties(a9, hosts);
    let b10 = nifi_sections::web_server_properties(b9, hosts);
    lemma_security_properties(a10, b10, one, other, key);
    let a11 = nifi_sections::security_properties(a10, one);
    let b11 = nifi_sections::security_properties(b10, other);
    lemma_cluster_node_properties(a11, b11, key);
    let a12 = nifi_sections::cluster_node_properties(a11).insert(
        "nifi.cluster.flow.election.max.wait.time"@,
        "1 mins"@,
    );
    let b12 = nifi_sections::cluster_node_properties(b11);
    assert(agree(a12, b12, key));
    lemma_flow_election_properties(a12, b12, key);
    let a13 = nifi_sections::flow_election_properties(a12);
    let b13 = nifi_sections::curator_election_properties(
        nifi_sections::flow_election_properties(b12),
    );
    assert(agree(a13, b13, key));
    lemma_zookeeper_properties(a13, b13, key);
    let b14 = nifi_sections::zookeeper_properties(b13);
    assert(agree(b14, nifi_sections::python_properties(b14), key));
}

/// What is said of the properties that differ: contents are kept without a limit in time, nodes
/// wait one minute for the election of the flow, and the algorithm is the one that the user names,
/// or else the default.
pub proof fn law_some_properties_differ(
    spec_: NifiSpecView,
    storage: NifiStorageConfigView,
    hosts: Seq<char>,
    quotas: StorageQuotasView,
)
    ensures
        ({
            let all = files::operator_properties(spec_, storage, hosts, quotas);
            let retention = "nifi.content.repository.archive.max.retention.period"@;
            let wait = "nifi.cluster.flow.election.max.wait.time"@;
            let algorithm = "nifi.sensitive.props.algorithm"@;
            &&& all.dom().contains(retention) && all[retention] == ""@
            &&& all.dom().contains(wait) && all[wait] == "1 mins"@
            &&& all.dom().contains(algorithm)
            &&& spec_.cluster_config.sensitive_properties.algorithm.is_some() ==> all[algorithm]
                == spec_.cluster_config.sensitive_properties.algorithm.unwrap().text()
            &&& spec_.cluster_config.sensitive_properties.algorithm.is_none() ==> all[algorithm]
                == "NIFI_ARGON2_AES_GCM_256"@
        }),
{
    nifi_values::lemma_fingerprints();
    let retention = "nifi.content.repository.archive.max.retention.period"@;
    let wait = "nifi.cluster.flow.election.max.wait.time"@;
    let algorithm = "nifi.sensitive.props.algorithm"@;
    reveal_strlit("nifi.cluster.flow.election.max.wait.time");
    reveal_strlit("nifi.cluster.flow.election.max.candidates");
    reveal_strlit("nifi.zookeeper.connect.string");
    reveal_strlit("nifi.zookeeper.root.node");
    reveal_strlit("nifi.sensitive.props.algorithm");
    reveal_strlit("nifi.content.repository.archive.max.retention.period");
    assert(wait.len() == 40);
    assert("nifi.cluster.flow.election.max.candidates"@.len() == 41);
    assert("nifi.zookeeper.connect.string"@.len() == 29);
    assert("nifi.zookeeper.root.node"@.len() == 24);
    assert(algorithm.len() == 30);
    assert(retention.len() == 52);
    let kept = files::storage_properties(storage, quotas);
    lemma_retention(storage, quotas);
    let address = nifi_sections::web_address_properties(kept);
    assert(address.dom().contains(retention) && address[retention] == ""@);
    let server = nifi_sections::web_server_properties(address, hosts);
    assert(server.dom().contains(retention) && server[retention] == ""@);
    let security = nifi_sections::security_properties(server, files::algorithm_of(spec_).text());
    assert(security.dom().contains(retention) && security[retention] == ""@);
    assert(security.dom().contains(algorithm) && security[algorithm] == files::algorithm_of(
        spec_,
    ).text());
    let node = nifi_sections::cluster_node_properties(security);
    assert(node.dom().contains(retention) && node[retention] == ""@);
    assert(node.dom().contains(algorithm) && node[algorithm] == files::algorithm_of(spec_).text());
}

/// The time for which contents are kept.
proof fn lemma_retention(storage: NifiStorageConfigView, quotas: StorageQuotasView)
    ensures
        ({
            let all = files::storage_properties(storage, quotas);
            let retention = "nifi.content.repository.archive.max.retention.period"@;
            all.dom().contains(retention) && all[retention] == ""@
        }),
{
    nifi_values::lemma_fingerprints();
    let retention = "nifi.content.repository.archive.max.retention.period"@;
    let flow = nifi_properties::with_quota(
        nifi_sections::flow_archive_properties(
            Map::empty().insert(
                "nifi.flow.configuration.file"@,
                crate::crd::storage::NifiRepository::Database.directory() + "/flow.xml.gz"@,
            ),
        ),
        "nifi.flow.configuration.archive.max.storage"@,
        storage.flowfile_repo.capacity,
        quotas.flow_archive,
    );
    let content = nifi_sections::content_properties(
        nifi_sections::flowfile_properties(
            nifi_sections::state_management_properties(
                nifi_sections::core_properties(flow),
                "zk-provider"@,
            ),
        ),
        ""@,
    );
    assert(content.dom().contains(retention) && content[retention] == ""@);
    let provenance = nifi_sections::provenance_properties(content);
    assert(provenance.dom().contains(retention) && provenance[retention] == ""@);
    let limited = nifi_properties::with_quota(
        provenance,
        "nifi.provenance.repository.max.storage.size"@,
        storage.provenance_repo.capacity,
        quotas.provenance,
    );
    assert(limited.dom().contains(retention) && limited[retention] == ""@);
    let tuned = nifi_sections::provenance_tuning_properties(limited);
    assert(tuned.dom().contains(retention) && tuned[retention] == ""@);
}

/// The heap has its full size from the start where the memory is limited, and no size is given
/// where it is not. The security properties are read from the live configuration.
pub proof fn law_heap_follows_the_memory_limit(config: NifiConfigView, java_heap: Option<Seq<char>>)
    ensures
        ({
            let arguments = files::jvm_arguments(files::heap_of(config, java_heap));
            let limited = config.resources.memory_limit.is_some() && java_heap.is_some();
            &&& limited ==> arguments.contains("-Xmx"@ + java_heap.unwrap()) && arguments.contains(
                "-Xms"@ + java_heap.unwrap(),
            ) && arguments.len() == 12
            &&& !limited ==> arguments.len() == 10
            &&& arguments[0] == "-Dorg.apache.jasper.compiler.disablejsr199=true"@
            &&& arguments.contains(
                "-Djava.security.properties=/stackable/nifi/conf/security.properties"@,
            )
            &&& arguments.contains("-Djava.net.preferIPv4Stack=true"@)
            &&& arguments.contains("-Dsun.net.http.allowRestrictedHeaders=true"@)
            &&& arguments.contains("-Djava.protocol.handler.pkgs=sun.net.www.protocol"@)
            &&& arguments.contains("-XX:+UseG1GC"@)
            &&& arguments.contains("-Djava.awt.headless=true"@)
            &&& arguments.contains("-Djava.security.egd=file:/dev/urandom"@)
            &&& arguments.contains("-Djavax.security.auth.useSubjectCredsOnly=true"@)
            &&& arguments.contains("-Dzookeeper.admin.enableServer=false"@)
        }),
{
    let heap = files::heap_of(config, java_heap);
    let arguments = files::jvm_arguments(heap);
    reveal_strlit("-Djava.security.properties=");
    reveal_strlit("/stackable/nifi/conf");
    reveal_strlit("/");
    reveal_strlit("security.properties");
    reveal_strlit("-Djava.security.properties=/stackable/nifi/conf/security.properties");
    assert("-Djava.security.properties="@ + "/stackable/nifi/conf"@ + "/"@ + "security.properties"@
        =~= "-Djava.security.properties=/stackable/nifi/conf/security.properties"@);
    let at: int = if heap.is_some() {
        3
    } else {
        1
    };
    if heap.is_some() {
        assert(arguments[1] == "-Xmx"@ + java_heap.unwrap());
        assert(arguments[2] == "-Xms"@ + java_heap.unwrap());
    }
    assert(arguments.contains(arguments[at]) && arguments.contains(arguments[at + 1])
        && arguments.contains(arguments[at + 2]) && arguments.contains(arguments[at + 3])
        && arguments.contains(arguments[at + 4]) && arguments.contains(arguments[at + 5])
        && arguments.contains(arguments[at + 6]) && arguments.contains(arguments[at + 7])
        && arguments.contains(arguments[at + 8]));
}

/// `nifi.properties` is refused exactly where a volume has a capacity and its quota cannot be
/// calculated, that of the FlowFiles first.
pub proof fn law_quotas_have_to_be_known(storage: NifiStorageConfigView, quotas: StorageQuotasView)
    ensures
        ({
            let failure = files::quota_failure(storage, quotas);
            let flow = storage.flowfile_repo.capacity.is_some() && quotas.flow_archive.is_none();
            let provenance = storage.provenance_repo.capacity.is_some()
                && quotas.provenance.is_none();
            &&& flow ==> failure == Some(
                files::Error::CalculateStorageQuota {
                    repo: crate::crd::storage::NifiRepository::Flowfile,
                },
            )
            &&& !flow && provenance ==> failure == Some(
                files::Error::CalculateStorageQuota {
                    repo: crate::crd::storage::NifiRepository::Provenance,
                },
            )
            &&& !flow && !provenance ==> failure == None::<files::Error>
        }),
{
}

/// Labels of an outdated selector win over those that are there, and its expressions are required
/// beside those that are there. Nothing else changes.
pub proof fn law_outdated_selectors_are_taken_over(
    affinity: StackableAffinityView,
    selector: LabelSelectorView,
    key: Seq<char>,
)
    ensures
        ({
            let after = zookeeper_cluster::with_legacy_selector(affinity, selector);
            &&& after.pod_affinity == affinity.pod_affinity
            &&& after.pod_anti_affinity == affinity.pod_anti_affinity
            &&& selector.match_labels.is_none() ==> after.node_selector == affinity.node_selector
            &&& selector.match_expressions.is_none() ==> after.node_affinity
                == affinity.node_affinity
            &&& selector.match_labels.is_some() && selector.match_labels.unwrap().dom().contains(
                key,
            ) ==> after.node_selector.is_some() && after.node_selector.unwrap().dom().contains(key)
                && after.node_selector.unwrap()[key] == selector.match_labels.unwrap()[key]
            &&& selector.match_labels.is_some() && !selector.match_labels.unwrap().dom().contains(
                key,
            ) && affinity.node_selector.is_some() && affinity.node_selector.unwrap().dom().contains(
                key,
            ) ==> after.node_selector.unwrap().dom().contains(key)
                && after.node_selector.unwrap()[key] == affinity.node_selector.unwrap()[key]
            &&& selector.match_expressions.is_some() ==> after.node_affinity.is_some()
                && after.node_affinity.unwrap()
                .required_during_scheduling_ignored_during_execution.is_some()
                && selector.match_expressions.unwrap().is_suffix_of(
                after.node_affinity.unwrap()
                    .required_during_scheduling_ignored_during_execution.unwrap(),
            )
        }),
{
    if selector.match_expressions.is_some() {
        let after = zookeeper_cluster::with_legacy_selector(affinity, selector);
        let expressions = selector.match_expressions.unwrap();
        let all = after.node_affinity.unwrap()
            .required_during_scheduling_ignored_during_execution.unwrap();
        assert(all.subrange(all.len() - expressions.len(), all.len() as int) =~= expressions);
    }
}

/// Whether a setting of a volume is the most specific one, where two gibibytes are the default.
pub open spec fn volume_is_most_specific(
    value: PvcConfigView,
    role_group: PvcConfigView,
    role: PvcConfigView,
) -> bool {
    merging::volume_is_most_specific(value, role_group, role, Some("2Gi"@))
}

/// Every setting of a role group is its own where the user sets it there, else the one of the role
/// where the user sets it there, else the default.
pub proof fn law_more_specific_settings_win(
    nifi: NifiClusterView,
    role: NifiRole,
    role_group: Seq<char>,
)
    requires
        nifi.spec.nodes.is_some(),
        nifi.spec.nodes.unwrap().role_groups.dom().contains(role_group),
    ensures
        ({
            let value = nifi.merged_settings(role, role_group);
            let own = nifi.spec.nodes.unwrap().role_groups[role_group].config;
            let of_role = nifi.spec.nodes.unwrap().config;
            let (v, g, r) = (value.resources, own.resources, of_role.resources);
            &&& merging::is_most_specific(v.cpu_min, g.cpu_min, r.cpu_min, Some("500m"@))
            &&& merging::is_most_specific(v.cpu_max, g.cpu_max, r.cpu_max, Some("4"@))
            &&& merging::is_most_specific(
                v.memory_limit,
                g.memory_limit,
                r.memory_limit,
                Some("2Gi"@),
            )
            &&& volume_is_most_specific(
                v.storage.flowfile_repo,
                g.storage.flowfile_repo,
                r.storage.flowfile_repo,
            )
            &&& volume_is_most_specific(
                v.storage.provenance_repo,
                g.storage.provenance_repo,
                r.storage.provenance_repo,
            )
            &&& volume_is_most_specific(
                v.storage.database_repo,
                g.storage.database_repo,
                r.storage.database_repo,
            )
            &&& volume_is_most_specific(
                v.storage.content_repo,
                g.storage.content_repo,
                r.storage.content_repo,
            )
            &&& volume_is_most_specific(
                v.storage.state_repo,
                g.storage.state_repo,
                r.storage.state_repo,
            )
            &&& merging::is_most_specific(
                value.graceful_shutdown_timeout_seconds,
                own.graceful_shutdown_timeout_seconds,
                of_role.graceful_shutdown_timeout_seconds,
                None,
            )
            &&& merging::is_most_specific(
                value.requested_secret_lifetime_seconds,
                own.requested_secret_lifetime_seconds,
                of_role.requested_secret_lifetime_seconds,
                None,
            )
            &&& merging::is_most_specific(
                value.affinity.pod_affinity,
                own.affinity.pod_affinity,
                of_role.affinity.pod_affinity,
                None,
            )
            &&& own.affinity.pod_anti_affinity.is_some() ==> value.affinity.pod_anti_affinity
                == own.affinity.pod_anti_affinity
            &&& own.affinity.pod_anti_affinity.is_none()
                && of_role.affinity.pod_anti_affinity.is_some() ==> value.affinity.pod_anti_affinity
                == of_role.affinity.pod_anti_affinity
        }),
{
}

/// Every wanted node of a role group has its pod: named after the cluster, the role, the role group
/// and its number, and reached below the Service of the role group.
pub proof fn law_every_wanted_node_has_its_pod(
    nifi: NifiClusterView,
    namespace: Seq<char>,
    groups: Seq<(Seq<char>, RoleGroupView)>,
    g: int,
    i: int,
) -> (at: int)
    requires
        0 <= g < groups.len(),
        groups[g].1.replicas.is_some(),
        0 <= i < groups[g].1.replicas.unwrap(),
    ensures
        0 <= at < nifi.pods_of(namespace, groups).len(),
        ({
            let pod: PodRefView = nifi.pods_of(namespace, groups)[at];
            let service = nifi.name_or_empty() + "-"@ + "node"@ + "-"@ + groups[g].0;
            &&& pod.namespace == namespace
            &&& pod.role_group_service_name == service
            &&& pod.pod_name == service + "-"@ + text::decimal(i as nat)
            &&& pod.domain_name() == pod.pod_name + "."@ + service + "."@ + namespace
                + ".svc.cluster.local"@
        }),
    decreases groups.len(),
{
    let front = nifi.pods_of(namespace, groups.drop_last());
    if g < groups.len() - 1 {
        law_every_wanted_node_has_its_pod(nifi, namespace, groups.drop_last(), g, i)
    } else {
        front.len() + i
    }
}

/// Nodes are selected as the role group wants, else as the role wants. An outdated selector of a
/// role group counts as its own wish.
pub proof fn law_nodes_are_selected_as_wanted(
    nifi: NifiClusterView,
    role: NifiRole,
    role_group: Seq<char>,
)
    requires
        nifi.spec.nodes.is_some(),
        nifi.spec.nodes.unwrap().role_groups.dom().contains(role_group),
    ensures
        ({
            let value = nifi.merged_settings(role, role_group).affinity;
            let group = nifi.spec.nodes.unwrap().role_groups[role_group];
            let own = if group.selector.is_some() {
                zookeeper_cluster::with_legacy_selector(
                    group.config.affinity,
                    group.selector.unwrap(),
                )
            } else {
                group.config.affinity
            };
            let of_role = nifi.spec.nodes.unwrap().config.affinity;
            &&& merging::is_most_specific(
                value.node_selector,
                own.node_selector,
                of_role.node_selector,
                None,
            )
            &&& merging::is_most_specific(
                value.node_affinity,
                own.node_affinity,
                of_role.node_affinity,
                None,
            )
        }),
{
}

/// Every role group that the user describes is among the role groups, and no other one is.
pub proof fn law_described_role_groups_are_known(nifi: NifiClusterView, role_group: Seq<char>)
    requires
        nifi.spec.nodes.is_some(),
        nifi.spec.nodes.unwrap().role_groups.dom().finite(),
    ensures
        nifi.spec.nodes.unwrap().role_groups.dom().contains(role_group) <==> exists|i: int|
            0 <= i < nifi.groups().len() && (#[trigger] nifi.groups()[i]).0 == role_group,
        ordered_map::in_key_order(nifi.groups()),
{
    let described = nifi.spec.nodes.unwrap().role_groups;
    ordered_map::lemma_entries_in_order(described);
    ordered_map::lemma_as_map_keys(nifi.groups(), role_group);
}

} // verus!
