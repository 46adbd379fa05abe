//! What the files of a role group say: how NiFi is started, where it keeps its state, under which
//! hosts it may be called, and that its directories are those of its volumes.

use crate::controller::build::jvm;
use crate::controller::build::properties;
use crate::controller::build::properties::bootstrap_conf;
use crate::controller::build::properties::consistency;
use crate::controller::build::properties::nifi_properties;
use crate::controller::build::properties::nifi_properties::{NifiSettingsView, StorageQuotasView};
use crate::controller::build::properties::nifi_values;
use crate::controller::build::properties::state_management_xml;
use crate::controller::build::proxy_hosts;
use crate::controller::build::resource::config_map;
use crate::controller::build::resource::config_map::{ErrorView, RoleGroupFilesView};
use crate::controller::build::resource::node_pod;
use crate::controller::build::resource::node_pod::ShellSnippetsView;
use crate::controller::build::resource::pod_contents;
use crate::controller::build::resource::role_group;
use crate::controller::build::resource::statefulset;
use crate::controller::rolegroup;
use crate::controller::ValidatedClusterView;
use crate::crd::{
    HostHeaderCheckConfigView, NifiClusterView, NifiClusteringBackendView, NifiStorageConfigView,
};
use crate::framework::writer::PropertiesWriterError;
use crate::kubernetes::{ConfigMapView, ContainerView, StatefulSetView, VolumeClaimTemplateView};
use crate::ordered_set;
use crate::text;
use vstd::prelude::*;

verus! {

/// Whether properties give a key a value, unless the user gives it another one.
pub open spec fn sets(
    properties: Map<Seq<char>, Seq<char>>,
    overrides: Map<Seq<char>, Seq<char>>,
    key: Seq<char>,
    value: Seq<char>,
) -> bool {
    !overrides.dom().contains(key) ==> properties.dom().contains(key) && properties[key] == value
}

/// The arguments of the JVM are all there, in their order, and do not change any property whose
/// name is not that of an argument.
proof fn lemma_arguments(
    properties: Map<Seq<char>, Seq<char>>,
    arguments: Seq<Seq<char>>,
    i: int,
    key: Seq<char>,
)
    ensures
        ({
            let all = bootstrap_conf::with_jvm_arguments(properties, arguments);
            let name = "java.arg."@ + text::decimal((i + 1) as nat);
            &&& 0 <= i < arguments.len() ==> all.dom().contains(name) && all[name] == arguments[i]
            &&& key.len() < 9 || key[0] != 'j' ==> (all.dom().contains(key)
                <==> properties.dom().contains(key)) && (properties.dom().contains(key) ==> all[key]
                == properties[key])
        }),
    decreases arguments.len(),
{
    reveal_strlit("java.arg.");
    if arguments.len() > 0 {
        let front = arguments.drop_last();
        lemma_arguments(properties, front, i, key);
        let last = "java.arg."@ + text::decimal(arguments.len());
        assert(last[0] == 'j' && last.len() >= 9);
        if 0 <= i < front.len() {
            let name = "java.arg."@ + text::decimal((i + 1) as nat);
            assert(name.skip(9) =~= text::decimal((i + 1) as nat));
            assert(last.skip(9) =~= text::decimal(arguments.len()));
            if name == last {
                text::lemma_decimal_is_unique((i + 1) as nat, arguments.len());
            }
        }
    }
}

/// `bootstrap.conf` starts NiFi with the installed Java, in the directories of the product, as the
/// user of the container, with the time to shut down that the pods have, and with every argument of
/// the JVM under its number.
pub proof fn law_bootstrap_starts_nifi(
    timeout_seconds: Option<u64>,
    arguments: Seq<Seq<char>>,
    overrides: Map<Seq<char>, Seq<char>>,
    i: int,
)
    ensures
        ({
            let all = bootstrap_conf::bootstrap_properties(timeout_seconds, arguments, overrides);
            &&& sets(all, overrides, "java"@, "java"@)
            &&& sets(all, overrides, "run.as"@, ""@)
            &&& sets(all, overrides, "preserve.environment"@, "false"@)
            &&& sets(all, overrides, "lib.dir"@, "./lib"@)
            &&& sets(all, overrides, "conf.dir"@, "./conf"@)
            &&& timeout_seconds.is_some() ==> sets(
                all,
                overrides,
                "graceful.shutdown.seconds"@,
                text::decimal(timeout_seconds.unwrap() as nat),
            )
            &&& timeout_seconds.is_none() && !overrides.dom().contains(
                "graceful.shutdown.seconds"@,
            ) ==> !all.dom().contains("graceful.shutdown.seconds"@)
            &&& 0 <= i < arguments.len() ==> sets(
                all,
                overrides,
                "java.arg."@ + text::decimal((i + 1) as nat),
                arguments[i],
            )
        }),
{
    reveal_strlit("java");
    reveal_strlit("run.as");
    reveal_strlit("preserve.environment");
    reveal_strlit("lib.dir");
    reveal_strlit("conf.dir");
    reveal_strlit("graceful.shutdown.seconds");
    assert("java"@.len() == 4 && "run.as"@.len() == 6 && "lib.dir"@.len() == 7);
    assert("conf.dir"@.len() == 8 && "preserve.environment"@.len() == 20);
    assert("preserve.environment"@[0] == 'p' && "graceful.shutdown.seconds"@[0] == 'g');
    assert("graceful.shutdown.seconds"@.len() == 25);
    let own = bootstrap_conf::launch_properties().union_prefer_right(
        crate::controller::build::graceful_shutdown::shutdown_properties(timeout_seconds),
    );
    lemma_arguments(own, arguments, i, "java"@);
    lemma_arguments(own, arguments, i, "run.as"@);
    lemma_arguments(own, arguments, i, "preserve.environment"@);
    lemma_arguments(own, arguments, i, "lib.dir"@);
    lemma_arguments(own, arguments, i, "conf.dir"@);
    lemma_arguments(own, arguments, i, "graceful.shutdown.seconds"@);
}

/// The heap has its full size from the start, and the security properties are read from the live
/// configuration.
pub proof fn law_heap_has_its_size(java_heap: Seq<char>)
    ensures
        ({
            let arguments = jvm::operator_arguments(java_heap);
            &&& arguments.contains("-Xmx"@ + java_heap)
            &&& arguments.contains("-Xms"@ + java_heap)
            &&& arguments.contains(
                "-Djava.security.properties=/stackable/nifi/conf/security.properties"@,
            )
            &&& arguments.contains("-XX:+UseG1GC"@)
            &&& arguments.contains("-Djava.awt.headless=true"@)
            &&& arguments.contains("-Dorg.apache.jasper.compiler.disablejsr199=true"@)
            &&& arguments.contains("-Djava.net.preferIPv4Stack=true"@)
            &&& arguments.contains("-Dsun.net.http.allowRestrictedHeaders=true"@)
            &&& arguments.contains("-Djava.protocol.handler.pkgs=sun.net.www.protocol"@)
            &&& arguments.contains("-Djava.security.egd=file:/dev/urandom"@)
            &&& arguments.contains("-Djavax.security.auth.useSubjectCredsOnly=true"@)
            &&& arguments.contains("-Dzookeeper.admin.enableServer=false"@)
            &&& arguments.len() == 12
        }),
{
    let arguments = jvm::operator_arguments(java_heap);
    reveal_strlit("-Djava.security.properties=");
    reveal_strlit("/stackable/nifi/conf");
    reveal_strlit("/");
    reveal_strlit("security.properties");
    reveal_strlit("-Djava.security.properties=/stackable/nifi/conf/security.properties");
    assert("-Djava.security.properties="@ + "/stackable/nifi/conf"@ + "/"@ + "security.properties"@
        =~= "-Djava.security.properties=/stackable/nifi/conf/security.properties"@);
    assert(arguments.contains(arguments[0]) && arguments.contains(arguments[1])
        && arguments.contains(arguments[2]) && arguments.contains(arguments[3])
        && arguments.contains(arguments[4]) && arguments.contains(arguments[5])
        && arguments.contains(arguments[6]) && arguments.contains(arguments[7])
        && arguments.contains(arguments[8]) && arguments.contains(arguments[9])
        && arguments.contains(arguments[10]) && arguments.contains(arguments[11]));
}

/// The address under which the Listener of the role is reached, which is known when a pod starts.
pub open spec fn listener_address() -> Seq<char> {
    "${env:LISTENER_DEFAULT_ADDRESS}:${env:LISTENER_DEFAULT_PORT_HTTPS}"@
}

/// Unless all hosts are allowed, exactly the address of the Listener, the hosts of the user and the
/// further ones are allowed. They are listed once each, in ascending order, between commas.
pub proof fn law_only_allowed_hosts_are_listed(
    check: HostHeaderCheckConfigView,
    further: Seq<Seq<char>>,
) -> (hosts: Seq<Seq<char>>)
    ensures
        check.allow_all ==> proxy_hosts::allow_list(check, further) == "*"@,
        !check.allow_all ==> proxy_hosts::allow_list(check, further) == text::joined(hosts, ","@),
        ordered_set::strictly_ascending(hosts),
        forall|host: Seq<char>| #[trigger]
            hosts.contains(host) <==> host == listener_address()
                || check.additional_allowed_hosts.contains(host) || further.contains(host),
{
    let additional = check.additional_allowed_hosts;
    reveal_strlit("${env:");
    reveal_strlit("}");
    reveal_strlit(":");
    reveal_strlit("LISTENER_DEFAULT_ADDRESS");
    reveal_strlit("LISTENER_DEFAULT_PORT_HTTPS");
    reveal_strlit("${env:LISTENER_DEFAULT_ADDRESS}:${env:LISTENER_DEFAULT_PORT_HTTPS}");
    assert(proxy_hosts::listener_placeholder() =~= listener_address());
    let all = seq![listener_address()] + additional + further;
    let hosts = ordered_set::in_order(proxy_hosts::allowed_hosts(additional, further));
    ordered_set::lemma_listed(all);
    assert forall|host: Seq<char>| #[trigger] hosts.contains(host) <==> host == listener_address()
        || additional.contains(host) || further.contains(host) by {
        assert(hosts.to_set().contains(host) == hosts.contains(host));
        assert(all.to_set().contains(host) == all.contains(host));
        if all.contains(host) {
            let i = choose|i: int| 0 <= i < all.len() && all[i] == host;
            if 0 < i <= additional.len() {
                assert(additional[i - 1] == host);
            } else if i > 0 {
                assert(further[i - 1 - additional.len()] == host);
            }
        }
        if host == listener_address() {
            assert(all[0] == host);
        }
        if additional.contains(host) {
            let i = choose|i: int| 0 <= i < additional.len() && additional[i] == host;
            assert(all[i + 1] == host);
        }
        if further.contains(host) {
            let i = choose|i: int| 0 <= i < further.len() && further[i] == host;
            assert(all[i + 1 + additional.len()] == host);
        }
    }
    hosts
}

/// NiFi 1.x is also called by its reporting task, under the name of the Service of that task; newer
/// versions have none.
pub proof fn law_reporting_task_may_call(
    nifi: NifiClusterView,
    product_version: Seq<char>,
    cluster_domain: Seq<char>,
    host: Seq<char>,
)
    requires
        nifi.metadata.namespace.is_some(),
    ensures
        rolegroup::reporting_task_hosts(nifi, product_version, cluster_domain).contains(host)
            <==> "1."@.is_prefix_of(product_version) && host == nifi.name_or_empty()
            + "-reporting-task."@ + nifi.metadata.namespace.unwrap() + ".svc."@ + cluster_domain
            + ":8443"@,
{
    let namespace = nifi.metadata.namespace.unwrap();
    reveal_strlit("-");
    reveal_strlit("reporting-task");
    reveal_strlit(".");
    reveal_strlit(":");
    reveal_strlit("8443");
    reveal_strlit(":8443");
    reveal_strlit("-reporting-task.");
    reveal_with_fuel(text::decimal, 5);
    assert(text::decimal(8443) =~= "8443"@);
    assert("-"@ + "reporting-task"@ + "."@ =~= "-reporting-task."@);
    assert(":"@ + "8443"@ =~= ":8443"@);
    let name = nifi.name_or_empty();
    assert(name + "-"@ + "reporting-task"@ + "."@ =~= name + ("-"@ + "reporting-task"@ + "."@));
    let address = name + "-reporting-task."@ + namespace + ".svc."@ + cluster_domain;
    assert(address + ":"@ + "8443"@ =~= address + (":"@ + "8443"@));
    let hosts = rolegroup::reporting_task_hosts(nifi, product_version, cluster_domain);
    if "1."@.is_prefix_of(product_version) {
        assert(hosts[0] == address + ":8443"@);
    }
}

/// The state that stays on a node is kept on the volume for it. Shared state is kept in the
/// ZooKeeper that the pods are told of, or in ConfigMaps that are named after the cluster.
pub proof fn law_state_is_kept_where_it_belongs(backend: NifiClusteringBackendView)
    ensures
        ({
            let file = state_management_xml::state_management_file(backend);
            &&& text::holds(file, r#"<property name="Directory">/stackable/data/state</property>"#@)
            &&& backend is ZooKeeper ==> text::holds(
                file,
                r#"<property name="Connect String">${env:ZOOKEEPER_HOSTS}</property>"#@,
            ) && text::holds(
                file,
                r#"<property name="Root Node">${env:ZOOKEEPER_CHROOT}</property>"#@,
            )
            &&& backend is Kubernetes ==> text::holds(
                file,
                r#"<property name="ConfigMap Name Prefix">${env:STACKLET_NAME}</property>"#@,
            )
        }),
{
    lemma_local_state(backend);
    lemma_shared_state(backend);
}

/// A text of nine parts, put together in another way.
proof fn lemma_parts(
    a: Seq<char>,
    b: Seq<char>,
    head: Seq<char>,
    start: Seq<char>,
    middle: Seq<char>,
    end: Seq<char>,
    tail: Seq<char>,
    c: Seq<char>,
    d: Seq<char>,
)
    ensures
        a + b + (head + start) + middle + (end + tail) + c + d == (a + b + head) + (start + middle
            + end) + (tail + c + d),
{
    assert(a + b + (head + start) + middle + (end + tail) + c + d =~= (a + b + head) + (start
        + middle + end) + (tail + c + d));
}

/// Where the state of a node is kept.
proof fn lemma_local_state(backend: NifiClusteringBackendView)
    ensures
        text::holds(
            state_management_xml::state_management_file(backend),
            r#"<property name="Directory">/stackable/data/state</property>"#@,
        ),
{
    let up_to_directory = state_management_xml::STATE_MANAGEMENT_UP_TO_DIRECTORY@;
    let up_to_provider = state_management_xml::STATE_MANAGEMENT_UP_TO_CLUSTER_PROVIDER@;
    let start = r#"<property name="Directory">"#@;
    let end = "</property>"@;
    let directory = "/stackable/data/state"@;
    let head = up_to_directory.take(up_to_directory.len() - start.len());
    let tail = up_to_provider.skip(end.len() as int);
    assert(up_to_directory == head + start) by {
        reveal_strlit(r#"
            <class>org.apache.nifi.controller.state.providers.local.WriteAheadLocalStateProvider</class>
            <property name="Directory">"#);
        reveal_strlit(r#"<property name="Directory">"#);
        assert(up_to_directory =~= head + start);
    }
    assert(up_to_provider == end + tail) by {
        reveal_strlit(r#"</property>
            <property name="Always Sync">false</property>
            <property name="Partitions">16</property>
            <property name="Checkpoint Interval">2 mins</property>
          </local-provider>
          "#);
        reveal_strlit("</property>");
        assert(up_to_provider =~= end + tail);
    }
    assert(crate::crd::storage::NifiRepository::State.directory() == directory) by {
        reveal_strlit("/stackable/data");
        reveal_strlit("/");
        reveal_strlit("state");
        reveal_strlit("/stackable/data/state");
        assert("/stackable/data"@ + "/"@ + "state"@ =~= directory);
    }
    assert(start + directory + end
        == r#"<property name="Directory">/stackable/data/state</property>"#@) by {
        reveal_strlit(r#"<property name="Directory">"#);
        reveal_strlit("/stackable/data/state");
        reveal_strlit("</property>");
        reveal_strlit(r#"<property name="Directory">/stackable/data/state</property>"#);
        assert(start + directory + end
            =~= r#"<property name="Directory">/stackable/data/state</property>"#@);
    }
    let a = state_management_xml::STATE_MANAGEMENT_START@;
    let b = state_management_xml::identifier(state_management_xml::LOCAL_STATE_PROVIDER_ID@);
    let c = backend.state_provider();
    let d = state_management_xml::STATE_MANAGEMENT_END@;
    lemma_parts(a, b, head, start, directory, end, tail, c, d);
    text::lemma_holds(a + b + head, start + directory + end, tail + c + d);
}

/// Where shared state is kept.
proof fn lemma_shared_state(backend: NifiClusteringBackendView)
    ensures
        ({
            let file = state_management_xml::state_management_file(backend);
            &&& backend is ZooKeeper ==> text::holds(
                file,
                r#"<property name="Connect String">${env:ZOOKEEPER_HOSTS}</property>"#@,
            ) && text::holds(
                file,
                r#"<property name="Root Node">${env:ZOOKEEPER_CHROOT}</property>"#@,
            )
            &&& backend is Kubernetes ==> text::holds(
                file,
                r#"<property name="ConfigMap Name Prefix">${env:STACKLET_NAME}</property>"#@,
            )
        }),
{
    let before = state_management_xml::STATE_MANAGEMENT_START@ + state_management_xml::identifier(
        state_management_xml::LOCAL_STATE_PROVIDER_ID@,
    ) + state_management_xml::STATE_MANAGEMENT_UP_TO_DIRECTORY@
        + crate::crd::storage::NifiRepository::State.directory()
        + state_management_xml::STATE_MANAGEMENT_UP_TO_CLUSTER_PROVIDER@;
    let end = state_management_xml::STATE_MANAGEMENT_END@;
    let provider = backend.state_provider();
    let front = state_management_xml::CLUSTER_PROVIDER_START@ + state_management_xml::identifier(
        backend.state_provider_id(),
    );
    if backend is ZooKeeper {
        let settings = state_management_xml::ZOOKEEPER_PROVIDER_SETTINGS@;
        let hosts = r#"<property name="Connect String">${env:ZOOKEEPER_HOSTS}</property>"#@;
        let root = r#"<property name="Root Node">${env:ZOOKEEPER_CHROOT}</property>"#@;
        lemma_zookeeper_lines();
        assert(provider =~= front + settings + Seq::empty());
        text::lemma_holds_deeper(front, settings, Seq::empty(), hosts);
        text::lemma_holds_deeper(front, settings, Seq::empty(), root);
        text::lemma_holds_deeper(before, provider, end, hosts);
        text::lemma_holds_deeper(before, provider, end, root);
    } else {
        let settings = state_management_xml::KUBERNETES_PROVIDER_SETTINGS@;
        let prefix = r#"<property name="ConfigMap Name Prefix">${env:STACKLET_NAME}</property>"#@;
        lemma_kubernetes_line();
        assert(provider =~= front + settings + Seq::empty());
        text::lemma_holds_deeper(front, settings, Seq::empty(), prefix);
        text::lemma_holds_deeper(before, provider, end, prefix);
    }
}

/// How ZooKeeper is found.
proof fn lemma_zookeeper_lines()
    ensures
        text::holds(
            state_management_xml::ZOOKEEPER_PROVIDER_SETTINGS@,
            r#"<property name="Connect String">${env:ZOOKEEPER_HOSTS}</property>"#@,
        ),
        text::holds(
            state_management_xml::ZOOKEEPER_PROVIDER_SETTINGS@,
            r#"<property name="Root Node">${env:ZOOKEEPER_CHROOT}</property>"#@,
        ),
{
    reveal_strlit(r#"
              <class>org.apache.nifi.controller.state.providers.zookeeper.ZooKeeperStateProvider</class>
              <property name="Connect String">${env:ZOOKEEPER_HOSTS}</property>
              <property name="Root Node">${env:ZOOKEEPER_CHROOT}</property>
              <property name="Session Timeout">10 seconds</property>
              <property name="Access Control">Open</property>
            </cluster-provider>"#);
    reveal_strlit(r#"<property name="Connect String">${env:ZOOKEEPER_HOSTS}</property>"#);
    reveal_strlit(r#"<property name="Root Node">${env:ZOOKEEPER_CHROOT}</property>"#);
    text::lemma_holds_at(
        state_management_xml::ZOOKEEPER_PROVIDER_SETTINGS@,
        r#"<property name="Connect String">${env:ZOOKEEPER_HOSTS}</property>"#@,
        120,
    );
    text::lemma_holds_at(
        state_management_xml::ZOOKEEPER_PROVIDER_SETTINGS@,
        r#"<property name="Root Node">${env:ZOOKEEPER_CHROOT}</property>"#@,
        200,
    );
}

/// How the ConfigMaps are named.
proof fn lemma_kubernetes_line()
    ensures
        text::holds(
            state_management_xml::KUBERNETES_PROVIDER_SETTINGS@,
            r#"<property name="ConfigMap Name Prefix">${env:STACKLET_NAME}</property>"#@,
        ),
{
    reveal_strlit(r#"
              <class>org.apache.nifi.kubernetes.state.provider.KubernetesConfigMapStateProvider</class>
              <property name="ConfigMap Name Prefix">${env:STACKLET_NAME}</property>
            </cluster-provider>"#);
    reveal_strlit(r#"<property name="ConfigMap Name Prefix">${env:STACKLET_NAME}</property>"#);
    text::lemma_holds_at(
        state_management_xml::KUBERNETES_PROVIDER_SETTINGS@,
        r#"<property name="ConfigMap Name Prefix">${env:STACKLET_NAME}</property>"#@,
        119,
    );
}

/// What the files are made from are the settings of the role group and of the cluster, each in its
/// file; the user brings the log configuration, or it is built; and the log agent has its own file
/// where it runs. The ConfigMap belongs to the cluster and is named after the role group.
pub proof fn law_files_hold_the_settings(
    cluster: ValidatedClusterView,
    name: Seq<char>,
    files: RoleGroupFilesView,
    vector_config: Option<Seq<char>>,
    security: Option<Seq<char>>,
    map: ConfigMapView,
)
    requires
        config_map::config_map_outcome(cluster, name, files, vector_config, security) == Ok::<
            ConfigMapView,
            ErrorView,
        >(map),
    ensures
        ({
            let rg = cluster.role_group_configs[name];
            let settings = NifiSettingsView {
                product_version: cluster.image.product_version,
                storage: rg.config.resources.storage,
                clustering_backend: cluster.cluster_config.clustering_backend,
                sensitive_properties_algorithm:
                    cluster.cluster_config.sensitive_properties.algorithm,
                authentication: cluster.cluster_config.authentication,
                git_content_folders: rg.config.git_sync_resources.git_content_folders,
                overrides: rg.config_overrides.nifi_properties,
            };
            &&& cluster.role_group_configs.dom().contains(name)
            &&& files.jvm_arguments.is_some() && security.is_some()
            &&& nifi_properties::failure(settings, files.quotas).is_none()
            &&& role_group::belongs_to(
                map.metadata,
                cluster,
                role_group::name_of(cluster.name, name),
            )
            &&& role_group::tells_whose(
                map.metadata.labels,
                cluster.name,
                cluster.product_version,
                "node"@,
                name,
            )
            &&& map.data["bootstrap.conf"@] == properties::properties_text(
                bootstrap_conf::bootstrap_properties(
                    rg.config.graceful_shutdown_timeout_seconds,
                    files.jvm_arguments.unwrap(),
                    rg.config_overrides.bootstrap_conf,
                ),
            )
            &&& map.data["nifi.properties"@] == properties::properties_text(
                nifi_properties::nifi_properties(
                    settings,
                    proxy_hosts::allow_list(cluster.cluster_config.host_header_check, Seq::empty()),
                    files.quotas,
                ),
            )
            &&& map.data["state-management.xml"@] == state_management_xml::state_management_file(
                cluster.cluster_config.clustering_backend,
            )
            &&& map.data["login-identity-providers.xml"@]
                == cluster.cluster_config.authentication.login_identity_providers()
            &&& map.data["authorizers.xml"@] == cluster.cluster_config.authorization.authorizers()
            &&& map.data["security.properties"@] == security.unwrap()
            &&& rg.config.logging.nifi_container is Automatic ==> map.data["logback.xml"@]
                == files.logback_config
            &&& vector_config.is_some() ==> map.data["vector.yaml"@] == vector_config.unwrap()
            &&& forall|file: Seq<char>| #[trigger]
                map.data.dom().contains(file) <==> file == "bootstrap.conf"@ || file
                    == "nifi.properties"@ || file == "state-management.xml"@ || file
                    == "login-identity-providers.xml"@ || file == "authorizers.xml"@ || file
                    == "security.properties"@ || (file == "logback.xml"@
                    && rg.config.logging.nifi_container is Automatic) || (file == "vector.yaml"@
                    && vector_config.is_some())
        }),
{
    lemma_file_names();
    let rg = cluster.role_group_configs[name];
    role_group::law_labels_tell_whose_an_object_is(
        cluster.name,
        cluster.product_version,
        "node"@,
        name,
    );
    role_group::lemma_names(cluster.name, name);
    let settings = NifiSettingsView {
        product_version: cluster.image.product_version,
        storage: rg.config.resources.storage,
        clustering_backend: cluster.cluster_config.clustering_backend,
        sensitive_properties_algorithm: cluster.cluster_config.sensitive_properties.algorithm,
        authentication: cluster.cluster_config.authentication,
        git_content_folders: rg.config.git_sync_resources.git_content_folders,
        overrides: rg.config_overrides.nifi_properties,
    };
    assert(nifi_properties::settings_of(cluster, rg) == settings);
}

/// The names of the files are all different.
pub proof fn lemma_file_names()
    ensures
        "bootstrap.conf"@[0] == 'b',
        "nifi.properties"@[0] == 'n',
        "state-management.xml"@[1] == 't',
        "state-management.xml"@[0] == 's',
        "security.properties"@[0] == 's',
        "security.properties"@[1] == 'e',
        "login-identity-providers.xml"@[0] == 'l',
        "login-identity-providers.xml"@[2] == 'g',
        "login-identity-providers.xml"@[3] == 'i',
        "authorizers.xml"@[0] == 'a',
        "logback.xml"@[0] == 'l',
        "logback.xml"@[3] == 'b',
        "vector.yaml"@[0] == 'v',
{
    reveal_strlit("bootstrap.conf");
    reveal_strlit("nifi.properties");
    reveal_strlit("state-management.xml");
    reveal_strlit("login-identity-providers.xml");
    reveal_strlit("authorizers.xml");
    reveal_strlit("security.properties");
    reveal_strlit("logback.xml");
    reveal_strlit("vector.yaml");
}

/// The ConfigMap is refused for a role group that the cluster does not have, for arguments of the
/// JVM that cannot be merged, for properties that cannot be built, and for security properties that
/// are no text; for nothing else, and for the first of these that holds.
pub proof fn law_files_are_refused_for_these_reasons(
    cluster: ValidatedClusterView,
    name: Seq<char>,
    files: RoleGroupFilesView,
    vector_config: Option<Seq<char>>,
    security: Option<Seq<char>>,
    error: ErrorView,
)
    ensures
        ({
            let rg = cluster.role_group_configs[name];
            let known = cluster.role_group_configs.dom().contains(name);
            let merged = known && files.jvm_arguments.is_some();
            let refused = nifi_properties::failure(
                nifi_properties::settings_of(cluster, rg),
                files.quotas,
            );
            (config_map::config_map_outcome(cluster, name, files, vector_config, security) == Err::<
                ConfigMapView,
                ErrorView,
            >(error)) <==> {
                ||| !known && error == (ErrorView::MissingRoleGroup {
                    role: "node"@,
                    role_group: name,
                })
                ||| known && files.jvm_arguments.is_none() && error == (
                ErrorView::BootstrapConfig { source: properties::Error::InvalidJVMConfig })
                ||| merged && refused.is_some() && error == (ErrorView::BuildNifiProperties {
                    source: refused.unwrap(),
                    rolegroup: name,
                })
                ||| merged && refused.is_none() && security.is_none() && error == (
                ErrorView::JvmSecurityProperties {
                    source: PropertiesWriterError::FromUtf8,
                    rolegroup: name,
                })
            }
        }),
{
}

/// Whether a property that the user leaves alone is the path at which a container mounts a volume
/// that is claimed for a node.
pub open spec fn is_kept_on(
    settings: NifiSettingsView,
    hosts: Seq<char>,
    quotas: StorageQuotasView,
    key: Seq<char>,
    container: ContainerView,
    claims: Seq<VolumeClaimTemplateView>,
    volume: Seq<char>,
) -> bool {
    !consistency::set_from_outside(settings, key) ==> exists|path: Seq<char>|
        nifi_values::value_of(settings, hosts, quotas, key) == Some(path)
            && #[trigger] pod_contents::mounts_at(container, volume, path) && exists|i: int|
            0 <= i < claims.len() && role_group::claim_name(#[trigger] claims[i]) == volume
}

/// Every directory in `nifi.properties` that the user leaves alone is the path at which the nifi
/// container mounts the volume of that very repository, which is claimed with the settings of that
/// repository. No two of these directories are the same.
pub proof fn law_repositories_are_kept_on_their_volumes(
    cluster: ValidatedClusterView,
    name: Seq<char>,
    hosts: Seq<char>,
    quotas: StorageQuotasView,
    rolling_update_supported: bool,
    replicas: Option<i32>,
    service_account_name: Seq<char>,
    snippets: ShellSnippetsView,
    set: StatefulSetView,
)
    requires
        nifi_properties::failure(
            nifi_properties::settings_of(cluster, cluster.role_group_configs[name]),
            quotas,
        ).is_none(),
        statefulset::stateful_set_outcome(
            cluster,
            name,
            cluster.role_group_configs[name],
            rolling_update_supported,
            replicas,
            service_account_name,
            snippets,
        ) == Ok::<StatefulSetView, node_pod::Error>(set),
    ensures
        ({
            let rg = cluster.role_group_configs[name];
            let settings = nifi_properties::settings_of(cluster, rg);
            let nifi = pod_contents::nifi_container(set.template);
            let claims = set.volume_claim_templates;
            let storage: NifiStorageConfigView = rg.config.resources.storage;
            let flowfile = "nifi.flowfile.repository.directory"@;
            let database = "nifi.database.directory"@;
            let content = "nifi.content.repository.directory.default"@;
            let provenance = "nifi.provenance.repository.directory.default"@;
            &&& is_kept_on(settings, hosts, quotas, flowfile, nifi, claims, "flowfile-repository"@)
            &&& is_kept_on(settings, hosts, quotas, database, nifi, claims, "database-repository"@)
            &&& is_kept_on(settings, hosts, quotas, content, nifi, claims, "content-repository"@)
            &&& is_kept_on(
                settings,
                hosts,
                quotas,
                provenance,
                nifi,
                claims,
                "provenance-repository"@,
            )
            &&& role_group::claims_repositories(claims, storage)
            &&& forall|a: Seq<char>, b: Seq<char>|
                #![trigger consistency::set_from_outside(settings, a),
                    consistency::set_from_outside(settings, b)]
                (a == flowfile || a == database || a == content || a == provenance) && (b
                    == flowfile || b == database || b == content || b == provenance) && a != b
                    && !consistency::set_from_outside(settings, a)
                    && !consistency::set_from_outside(settings, b) ==> nifi_values::value_of(
                    settings,
                    hosts,
                    quotas,
                    a,
                ) != nifi_values::value_of(settings, hosts, quotas, b)
        }),
{
    let rg = cluster.role_group_configs[name];
    let settings = nifi_properties::settings_of(cluster, rg);
    nifi_values::law_repositories_have_their_directories(settings, hosts, quotas);
    role_group::law_repositories_have_the_wanted_volumes(
        cluster,
        name,
        rg,
        rolling_update_supported,
        replicas,
        service_account_name,
        snippets,
        set,
    );
    pod_contents::law_repositories_are_mounted(
        statefulset::node_pod(cluster, name, rg, service_account_name, snippets),
    );
    let nifi = pod_contents::nifi_container(set.template);
    assert(pod_contents::mounts_repositories(nifi));
    reveal_strlit("/stackable/data/flowfile");
    reveal_strlit("/stackable/data/database");
    reveal_strlit("/stackable/data/content");
    reveal_strlit("/stackable/data/provenance");
    assert("/stackable/data/flowfile"@[16] == 'f');
    assert("/stackable/data/database"@[16] == 'd');
    assert("/stackable/data/content"@[16] == 'c');
    assert("/stackable/data/provenance"@[16] == 'p');
}

} // verus!
