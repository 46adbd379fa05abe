//! What the containers of a role group run.

use crate::controller::build::resource::node_pod;
use crate::controller::build::resource::node_pod::{NodePodView, ShellSnippetsView};
use crate::controller::build::resource::pod_contents;
use crate::controller::build::resource::service;
use crate::controller::build::resource::statefulset;
use crate::controller::build::resource::volumes;
use crate::controller::{
    NifiRoleGroupConfigView, ValidatedClusterView, ValidatedContainerLogConfigChoiceView,
};
use crate::kubernetes::{
    PodContainerView, PodTemplateView, StatefulSetView, VectorSidecarView, VolumeMountView,
};
use crate::text;
use vstd::prelude::*;

verus! {

/// Whether some commands are run one after the other.
pub open spec fn runs_before(
    commands: Seq<Seq<char>>,
    first: Seq<char>,
    second: Seq<char>,
) -> bool {
    exists|i: int, j: int|
        0 <= i < j < commands.len() && #[trigger] commands[i] == first && #[trigger] commands[j]
            == second
}

/// One of the commands, spelled out.
proof fn lemma_copy_keystore()
    ensures
        "cp "@ + "/stackable/keystore"@ + "/keystore.p12 "@ + "/stackable/server_tls"@ + "/keystore.p12"@ == "cp /stackable/keystore/keystore.p12 /stackable/server_tls/keystore.p12"@,
{
    reveal_strlit("cp ");
    reveal_strlit("/stackable/keystore");
    reveal_strlit("/keystore.p12 ");
    reveal_strlit("/stackable/server_tls");
    reveal_strlit("/keystore.p12");
    reveal_strlit("cp /stackable/keystore/keystore.p12 /stackable/server_tls/keystore.p12");
    assert("cp "@ + "/stackable/keystore"@ + "/keystore.p12 "@ + "/stackable/server_tls"@ + "/keystore.p12"@ =~= "cp /stackable/keystore/keystore.p12 /stackable/server_tls/keystore.p12"@);
}

/// One of the commands, spelled out.
proof fn lemma_old_truststore()
    ensures
        "test ! -e "@ + "/stackable/server_tls"@ + "/truststore.p12 || rm "@ + "/stackable/server_tls"@ + "/truststore.p12"@ == "test ! -e /stackable/server_tls/truststore.p12 || rm /stackable/server_tls/truststore.p12"@,
{
    reveal_strlit("test ! -e ");
    reveal_strlit("/stackable/server_tls");
    reveal_strlit("/truststore.p12 || rm ");
    reveal_strlit("/truststore.p12");
    reveal_strlit("test ! -e /stackable/server_tls/truststore.p12 || rm /stackable/server_tls/truststore.p12");
    assert("test ! -e "@ + "/stackable/server_tls"@ + "/truststore.p12 || rm "@ + "/stackable/server_tls"@ + "/truststore.p12"@ =~= "test ! -e /stackable/server_tls/truststore.p12 || rm /stackable/server_tls/truststore.p12"@);
}

/// One of the commands, spelled out.
proof fn lemma_import_truststore()
    ensures
        "keytool -importkeystore -srckeystore "@ + "/stackable/keystore"@ + "/truststore.p12 -destkeystore "@ + "/stackable/server_tls"@ + "/truststore.p12 -srcstorepass "@ + "secret"@ + " -deststorepass "@ + "secret"@ == "keytool -importkeystore -srckeystore /stackable/keystore/truststore.p12 -destkeystore /stackable/server_tls/truststore.p12 -srcstorepass secret -deststorepass secret"@,
{
    reveal_strlit("keytool -importkeystore -srckeystore ");
    reveal_strlit("/stackable/keystore");
    reveal_strlit("/truststore.p12 -destkeystore ");
    reveal_strlit("/stackable/server_tls");
    reveal_strlit("/truststore.p12 -srcstorepass ");
    reveal_strlit("secret");
    reveal_strlit(" -deststorepass ");
    reveal_strlit("keytool -importkeystore -srckeystore /stackable/keystore/truststore.p12 -destkeystore /stackable/server_tls/truststore.p12 -srcstorepass secret -deststorepass secret");
    assert("keytool -importkeystore -srckeystore "@ + "/stackable/keystore"@ + "/truststore.p12 -destkeystore "@ + "/stackable/server_tls"@ + "/truststore.p12 -srcstorepass "@ + "secret"@ + " -deststorepass "@ + "secret"@ =~= "keytool -importkeystore -srckeystore /stackable/keystore/truststore.p12 -destkeystore /stackable/server_tls/truststore.p12 -srcstorepass secret -deststorepass secret"@);
}

/// One of the commands, spelled out.
proof fn lemma_copy_config()
    ensures
        "cp "@ + "/conf"@ + "/* "@ + "/stackable/nifi/conf"@ == "cp /conf/* /stackable/nifi/conf"@,
{
    reveal_strlit("cp ");
    reveal_strlit("/conf");
    reveal_strlit("/* ");
    reveal_strlit("/stackable/nifi/conf");
    reveal_strlit("cp /conf/* /stackable/nifi/conf");
    assert("cp "@ + "/conf"@ + "/* "@ + "/stackable/nifi/conf"@ =~= "cp /conf/* /stackable/nifi/conf"@);
}

/// One of the commands, spelled out.
proof fn lemma_link_logback()
    ensures
        "test -L "@ + "/stackable/nifi/conf"@ + "/"@ + "logback.xml"@ + " || ln -sf "@ + "/stackable/log_config"@ + "/"@ + "logback.xml"@ + " "@ + "/stackable/nifi/conf"@ + "/"@ + "logback.xml"@ == "test -L /stackable/nifi/conf/logback.xml || ln -sf /stackable/log_config/logback.xml /stackable/nifi/conf/logback.xml"@,
{
    reveal_strlit("test -L ");
    reveal_strlit("/stackable/nifi/conf");
    reveal_strlit("/");
    reveal_strlit("logback.xml");
    reveal_strlit(" || ln -sf ");
    reveal_strlit("/stackable/log_config");
    reveal_strlit(" ");
    reveal_strlit("test -L /stackable/nifi/conf/logback.xml || ln -sf /stackable/log_config/logback.xml /stackable/nifi/conf/logback.xml");
    assert("test -L "@ + "/stackable/nifi/conf"@ + "/"@ + "logback.xml"@ + " || ln -sf "@ + "/stackable/log_config"@ + "/"@ + "logback.xml"@ + " "@ + "/stackable/nifi/conf"@ + "/"@ + "logback.xml"@ =~= "test -L /stackable/nifi/conf/logback.xml || ln -sf /stackable/log_config/logback.xml /stackable/nifi/conf/logback.xml"@);
}

/// One of the commands, spelled out.
proof fn lemma_trust_opa()
    ensures
        "keytool -importcert -file "@ + "/stackable/opa_tls"@ + "/ca.crt -keystore "@ + "/stackable/server_tls"@ + "/truststore.p12 -storepass "@ + "secret"@ + " -alias opa-ca -noprompt"@ == "keytool -importcert -file /stackable/opa_tls/ca.crt -keystore /stackable/server_tls/truststore.p12 -storepass secret -alias opa-ca -noprompt"@,
{
    reveal_strlit("keytool -importcert -file ");
    reveal_strlit("/stackable/opa_tls");
    reveal_strlit("/ca.crt -keystore ");
    reveal_strlit("/stackable/server_tls");
    reveal_strlit("/truststore.p12 -storepass ");
    reveal_strlit("secret");
    reveal_strlit(" -alias opa-ca -noprompt");
    reveal_strlit("keytool -importcert -file /stackable/opa_tls/ca.crt -keystore /stackable/server_tls/truststore.p12 -storepass secret -alias opa-ca -noprompt");
    assert("keytool -importcert -file "@ + "/stackable/opa_tls"@ + "/ca.crt -keystore "@ + "/stackable/server_tls"@ + "/truststore.p12 -storepass "@ + "secret"@ + " -alias opa-ca -noprompt"@ =~= "keytool -importcert -file /stackable/opa_tls/ca.crt -keystore /stackable/server_tls/truststore.p12 -storepass secret -alias opa-ca -noprompt"@);
}

/// One of the commands, spelled out.
proof fn lemma_listener_address()
    ensures
        "export LISTENER_DEFAULT_ADDRESS=$(cat "@ + "/stackable/listener"@ + "/default-address/address)"@ == "export LISTENER_DEFAULT_ADDRESS=$(cat /stackable/listener/default-address/address)"@,
{
    reveal_strlit("export LISTENER_DEFAULT_ADDRESS=$(cat ");
    reveal_strlit("/stackable/listener");
    reveal_strlit("/default-address/address)");
    reveal_strlit("export LISTENER_DEFAULT_ADDRESS=$(cat /stackable/listener/default-address/address)");
    assert("export LISTENER_DEFAULT_ADDRESS=$(cat "@ + "/stackable/listener"@ + "/default-address/address)"@ =~= "export LISTENER_DEFAULT_ADDRESS=$(cat /stackable/listener/default-address/address)"@);
}

/// One of the commands, spelled out.
proof fn lemma_listener_port()
    ensures
        "export LISTENER_DEFAULT_PORT_HTTPS=$(cat "@ + "/stackable/listener"@ + "/default-address/ports/https)"@ == "export LISTENER_DEFAULT_PORT_HTTPS=$(cat /stackable/listener/default-address/ports/https)"@,
{
    reveal_strlit("export LISTENER_DEFAULT_PORT_HTTPS=$(cat ");
    reveal_strlit("/stackable/listener");
    reveal_strlit("/default-address/ports/https)");
    reveal_strlit("export LISTENER_DEFAULT_PORT_HTTPS=$(cat /stackable/listener/default-address/ports/https)");
    assert("export LISTENER_DEFAULT_PORT_HTTPS=$(cat "@ + "/stackable/listener"@ + "/default-address/ports/https)"@ =~= "export LISTENER_DEFAULT_PORT_HTTPS=$(cat /stackable/listener/default-address/ports/https)"@);
}

/// One of the commands, spelled out.
proof fn lemma_template_nifi()
    ensures
        "config-utils template "@ + "/stackable/nifi/conf"@ + "/"@ + "nifi.properties"@ == "config-utils template /stackable/nifi/conf/nifi.properties"@,
{
    reveal_strlit("config-utils template ");
    reveal_strlit("/stackable/nifi/conf");
    reveal_strlit("/");
    reveal_strlit("nifi.properties");
    reveal_strlit("config-utils template /stackable/nifi/conf/nifi.properties");
    assert("config-utils template "@ + "/stackable/nifi/conf"@ + "/"@ + "nifi.properties"@ =~= "config-utils template /stackable/nifi/conf/nifi.properties"@);
}

/// One of the commands, spelled out.
proof fn lemma_template_state()
    ensures
        "config-utils template "@ + "/stackable/nifi/conf"@ + "/"@ + "state-management.xml"@ == "config-utils template /stackable/nifi/conf/state-management.xml"@,
{
    reveal_strlit("config-utils template ");
    reveal_strlit("/stackable/nifi/conf");
    reveal_strlit("/");
    reveal_strlit("state-management.xml");
    reveal_strlit("config-utils template /stackable/nifi/conf/state-management.xml");
    assert("config-utils template "@ + "/stackable/nifi/conf"@ + "/"@ + "state-management.xml"@ =~= "config-utils template /stackable/nifi/conf/state-management.xml"@);
}

/// One of the commands, spelled out.
proof fn lemma_template_login()
    ensures
        "config-utils template "@ + "/stackable/nifi/conf"@ + "/"@ + "login-identity-providers.xml"@ == "config-utils template /stackable/nifi/conf/login-identity-providers.xml"@,
{
    reveal_strlit("config-utils template ");
    reveal_strlit("/stackable/nifi/conf");
    reveal_strlit("/");
    reveal_strlit("login-identity-providers.xml");
    reveal_strlit("config-utils template /stackable/nifi/conf/login-identity-providers.xml");
    assert("config-utils template "@ + "/stackable/nifi/conf"@ + "/"@ + "login-identity-providers.xml"@ =~= "config-utils template /stackable/nifi/conf/login-identity-providers.xml"@);
}

/// One of the commands, spelled out.
proof fn lemma_template_authorizers()
    ensures
        "config-utils template "@ + "/stackable/nifi/conf"@ + "/"@ + "authorizers.xml"@ == "config-utils template /stackable/nifi/conf/authorizers.xml"@,
{
    reveal_strlit("config-utils template ");
    reveal_strlit("/stackable/nifi/conf");
    reveal_strlit("/");
    reveal_strlit("authorizers.xml");
    reveal_strlit("config-utils template /stackable/nifi/conf/authorizers.xml");
    assert("config-utils template "@ + "/stackable/nifi/conf"@ + "/"@ + "authorizers.xml"@ =~= "config-utils template /stackable/nifi/conf/authorizers.xml"@);
}

/// One of the commands, spelled out.
proof fn lemma_template_security()
    ensures
        "config-utils template "@ + "/stackable/nifi/conf"@ + "/"@ + "security.properties"@ == "config-utils template /stackable/nifi/conf/security.properties"@,
{
    reveal_strlit("config-utils template ");
    reveal_strlit("/stackable/nifi/conf");
    reveal_strlit("/");
    reveal_strlit("security.properties");
    reveal_strlit("config-utils template /stackable/nifi/conf/security.properties");
    assert("config-utils template "@ + "/stackable/nifi/conf"@ + "/"@ + "security.properties"@ =~= "config-utils template /stackable/nifi/conf/security.properties"@);
}

/// The commands of the prepare container stand where they should.
proof fn lemma_positions(pod: NodePodView, k: int)
    ensures
        ({
            let commands = pod.prepare_commands();
            let captured = if pod.capture_prepare_output.is_some() {
                1int
            } else {
                0
            };
            let login = pod.authentication.additional_container_args();
            let opa = if pod.trust_opa_certificate {
                2int
            } else {
                0
            };
            let last = captured + 9 + login.len() + opa;
            &&& commands.len() == last + 8
            &&& pod.capture_prepare_output.is_some() ==> commands[0]
                == pod.capture_prepare_output.unwrap()
            &&& commands[captured + 1] == pod.store_commands()[1]
            &&& commands[captured + 3] == pod.store_commands()[3]
            &&& commands[captured + 4] == pod.store_commands()[4]
            &&& commands[captured + 6] == pod.config_commands()[1]
            &&& commands[captured + 7] == pod.config_commands()[2]
            &&& commands[captured + 8] == pod.config_commands()[3]
            &&& 0 <= k < login.len() ==> commands[captured + 9 + k] == login[k]
            &&& pod.trust_opa_certificate ==> commands[last - 1] == pod.opa_commands()[1]
            &&& commands[last] == pod.template_commands()[0]
            &&& commands[last + 1] == pod.template_commands()[1]
            &&& commands[last + 3] == pod.template_commands()[3]
            &&& commands[last + 4] == pod.template_commands()[4]
            &&& commands[last + 5] == pod.template_commands()[5]
            &&& commands[last + 6] == pod.template_commands()[6]
            &&& commands[last + 7] == pod.template_commands()[7]
        }),
{
}

/// The prepare container makes the key and the trust store that NiFi reads, from the certificate of
/// the pod; copies the built configuration to the live one; and leads the log configuration to the
/// mounted one. Any failing command stops it.
pub proof fn law_configuration_is_prepared(pod: NodePodView)
    requires
        pod.outcome().is_ok(),
    ensures
        ({
            let prepare = pod_contents::prepare_container(pod.outcome()->Ok_0);
            let commands = pod.prepare_commands();
            &&& prepare.command == seq!["/bin/bash"@, "-c"@, "-euo"@, "pipefail"@]
            &&& prepare.args == seq![text::joined(commands, " && "@)]
            &&& commands.contains(
                "cp /stackable/keystore/keystore.p12 /stackable/server_tls/keystore.p12"@,
            )
            &&& commands.contains(
                "test ! -e /stackable/server_tls/truststore.p12 || rm /stackable/server_tls/truststore.p12"@,
            )
            &&& commands.contains(
                "keytool -importkeystore -srckeystore /stackable/keystore/truststore.p12 -destkeystore /stackable/server_tls/truststore.p12 -srcstorepass secret -deststorepass secret"@,
            )
            &&& commands.contains(
                "cp /conf/* /stackable/nifi/conf"@,
            )
            &&& commands.contains(
                "test -L /stackable/nifi/conf/logback.xml || ln -sf /stackable/log_config/logback.xml /stackable/nifi/conf/logback.xml"@,
            )
            &&& runs_before(
                commands,
                "test ! -e /stackable/server_tls/truststore.p12 || rm /stackable/server_tls/truststore.p12"@,
                "keytool -importkeystore -srckeystore /stackable/keystore/truststore.p12 -destkeystore /stackable/server_tls/truststore.p12 -srcstorepass secret -deststorepass secret"@,
            )
            &&& pod.capture_prepare_output.is_some() ==> commands[0]
                == pod.capture_prepare_output.unwrap()
            &&& commands.len() == 17 + pod.authentication.additional_container_args().len() + (
            if pod.capture_prepare_output.is_some() {
                1int
            } else {
                0
            }) + (if pod.trust_opa_certificate {
                2int
            } else {
                0
            })
        }),
{
    pod_contents::law_containers_have_their_resources(pod);
    lemma_prepare(pod);
    lemma_positions(pod, 0);
    lemma_copy_keystore();
    lemma_old_truststore();
    lemma_import_truststore();
    lemma_copy_config();
    lemma_link_logback();
    let captured = if pod.capture_prepare_output.is_some() {
        1int
    } else {
        0
    };
    let commands = pod.prepare_commands();
    assert(commands.contains(commands[captured + 1]) && commands.contains(commands[captured + 3])
        && commands.contains(commands[captured + 4]) && commands.contains(commands[captured + 6])
        && commands.contains(commands[captured + 7]));
}

/// What the containers run, as the template holds them.
proof fn lemma_prepare(pod: NodePodView)
    requires
        pod.outcome().is_ok(),
    ensures
        ({
            let prepare = pod_contents::prepare_container(pod.outcome()->Ok_0);
            let nifi = pod_contents::nifi_container(pod.outcome()->Ok_0);
            &&& prepare.command == seq!["/bin/bash"@, "-c"@, "-euo"@, "pipefail"@]
            &&& prepare.args == seq![text::joined(pod.prepare_commands(), " && "@)]
            &&& nifi.command == seq!["/bin/bash"@, "-x"@, "-euo"@, "pipefail"@, "-c"@]
            &&& nifi.args == seq![pod.run_script()]
        }),
{
    let found = pod_contents::lemma_template(pod);
}

/// The references in the configuration are resolved in every file that holds some, after the
/// commands of the authentication have put in the credentials, after the configuration has been
/// copied, and once the address of the node and of the Listener are known.
pub proof fn law_references_are_resolved(pod: NodePodView, k: int)
    ensures
        ({
            let commands = pod.prepare_commands();
            let login = pod.authentication.additional_container_args();
            let copy = "cp /conf/* /stackable/nifi/conf"@;
            let address = "export NODE_ADDRESS=\"$POD_NAME."@ + pod.headless_service + "."@
                + pod.namespace + ".svc."@ + pod.cluster_domain + "\""@;
            let first = "export LISTENER_DEFAULT_ADDRESS=$(cat /stackable/listener/default-address/address)"@;
            let second = "export LISTENER_DEFAULT_PORT_HTTPS=$(cat /stackable/listener/default-address/ports/https)"@;
            let nifi = "config-utils template /stackable/nifi/conf/nifi.properties"@;
            &&& runs_before(commands, address, nifi)
            &&& runs_before(commands, first, nifi)
            &&& runs_before(commands, second, nifi)
            &&& runs_before(commands, copy, nifi)
            &&& 0 <= k < login.len() ==> runs_before(commands, copy, login[k])
            &&& 0 <= k < login.len() ==> runs_before(commands, login[k], nifi)
            &&& runs_before(commands, nifi, "config-utils template /stackable/nifi/conf/state-management.xml"@)
            &&& runs_before(commands, nifi, "config-utils template /stackable/nifi/conf/login-identity-providers.xml"@)
            &&& runs_before(commands, nifi, "config-utils template /stackable/nifi/conf/authorizers.xml"@)
            &&& runs_before(commands, nifi, "config-utils template /stackable/nifi/conf/security.properties"@)
            &&& pod.trust_opa_certificate ==> runs_before(commands, "keytool -importcert -file /stackable/opa_tls/ca.crt -keystore /stackable/server_tls/truststore.p12 -storepass secret -alias opa-ca -noprompt"@, nifi)
        }),
{
    lemma_positions(pod, k);
    lemma_address(pod);
    lemma_copy_config();
    lemma_listener_address();
    lemma_listener_port();
    lemma_trust_opa();
    lemma_template_nifi();
    lemma_template_state();
    lemma_template_login();
    lemma_template_authorizers();
    lemma_template_security();
}

/// How a node learns its address.
proof fn lemma_address(pod: NodePodView)
    ensures
        pod.config_commands()[3] == "export NODE_ADDRESS=\"$POD_NAME."@ + pod.headless_service + "."@
            + pod.namespace + ".svc."@ + pod.cluster_domain + "\""@,
{
    reveal_strlit("export NODE_ADDRESS=\"");
    reveal_strlit("$POD_NAME.");
    reveal_strlit("export NODE_ADDRESS=\"$POD_NAME.");
    assert("export NODE_ADDRESS=\""@ + "$POD_NAME."@ =~= "export NODE_ADDRESS=\"$POD_NAME."@);
    let rest = pod.headless_service + "."@ + pod.namespace + ".svc."@ + pod.cluster_domain;
    lemma_joined(
        "export NODE_ADDRESS=\""@,
        "$POD_NAME."@,
        pod.headless_service,
        "."@,
        pod.namespace,
        ".svc."@,
        pod.cluster_domain,
        "\""@,
    );
}

/// A text of eight parts, put together in another way.
proof fn lemma_joined(
    a: Seq<char>,
    b: Seq<char>,
    c: Seq<char>,
    d: Seq<char>,
    e: Seq<char>,
    f: Seq<char>,
    g: Seq<char>,
    h: Seq<char>,
)
    ensures
        a + (b + c + d + e + f + g) + h == (a + b) + c + d + e + f + g + h,
{
    assert(a + (b + c + d + e + f + g) + h =~= (a + b) + c + d + e + f + g + h);
}

/// NiFi runs under handlers for signals, with its state written down beside its logs, and the log
/// agent is told to stop once NiFi has stopped, and not before.
pub proof fn law_nifi_is_run(pod: NodePodView)
    requires
        pod.outcome().is_ok(),
    ensures
        ({
            let nifi = pod_contents::nifi_container(pod.outcome()->Ok_0);
            &&& nifi.command == seq!["/bin/bash"@, "-x"@, "-euo"@, "pipefail"@, "-c"@]
            &&& nifi.args == seq![
                pod.snippets.bash_trap_functions + "\n"@
                    + pod.snippets.remove_vector_shutdown_file_command
                    + "\nprepare_signal_handlers\ncontainerdebug --output=/stackable/log/containerdebug-state.json --loop &\nbin/nifi.sh run &\nwait_for_termination $!\n"@
                    + pod.snippets.create_vector_shutdown_file_command + "\n"@,
            ]
        }),
{
    lemma_prepare(pod);
    let start = "\nprepare_signal_handlers\ncontainerdebug --output="@;
    let end = "/containerdebug-state.json --loop &\nbin/nifi.sh run &\nwait_for_termination $!\n"@;
    let whole = "\nprepare_signal_handlers\ncontainerdebug --output=/stackable/log/containerdebug-state.json --loop &\nbin/nifi.sh run &\nwait_for_termination $!\n"@;
    assert(start + "/stackable/log"@ + end == whole) by {
        reveal_strlit("\nprepare_signal_handlers\ncontainerdebug --output=");
        reveal_strlit("/stackable/log");
        reveal_strlit("/containerdebug-state.json --loop &\nbin/nifi.sh run &\nwait_for_termination $!\n");
        reveal_strlit("\nprepare_signal_handlers\ncontainerdebug --output=/stackable/log/containerdebug-state.json --loop &\nbin/nifi.sh run &\nwait_for_termination $!\n");
        assert(start + "/stackable/log"@ + end =~= whole);
    }
    let front = pod.snippets.bash_trap_functions + "\n"@
        + pod.snippets.remove_vector_shutdown_file_command;
    assert(front + start + "/stackable/log"@ + end =~= front + (start + "/stackable/log"@ + end));
}

/// Mounting more keeps what the containers are.
proof fn lemma_mounted_in_all(
    containers: Seq<PodContainerView>,
    more: Seq<VolumeMountView>,
    i: int,
)
    requires
        volumes::mounted_in_all(containers, more).is_some(),
    ensures
        ({
            let all = volumes::mounted_in_all(containers, more).unwrap();
            &&& all.len() == containers.len()
            &&& 0 <= i < containers.len() ==> all[i] == volumes::remounted(
                containers[i],
                volumes::mounts_of(all[i]),
            )
        }),
    decreases containers.len(),
{
    if containers.len() > 0 {
        lemma_mounted_in_all(containers.drop_last(), more, i);
    }
}

/// Whether the template runs the log agent: a container that sends the logs from the volume with
/// the logs to the aggregator.
pub open spec fn runs_log_agent(template: PodTemplateView, agent: VectorSidecarView) -> bool {
    exists|i: int|
        0 <= i < template.containers.len() && (#[trigger] template.containers[i]
            matches PodContainerView::Vector { sidecar } && sidecar == (VectorSidecarView {
            extra_mounts: sidecar.extra_mounts,
            ..agent
        }))
}

/// The pods run NiFi, what synchronises their components, and the log agent exactly where the role
/// group has one. It runs the image of the cluster, sends the logs of the volume with the logs to
/// the aggregator of the cluster, and has the log configuration of the user where there is one.
pub proof fn law_log_agent_runs_where_enabled(
    cluster: ValidatedClusterView,
    role_group: Seq<char>,
    rg: NifiRoleGroupConfigView,
    rolling_update_supported: bool,
    replicas: Option<i32>,
    service_account_name: Seq<char>,
    snippets: ShellSnippetsView,
    set: StatefulSetView,
)
    requires
        statefulset::stateful_set_outcome(
            cluster,
            role_group,
            rg,
            rolling_update_supported,
            replicas,
            service_account_name,
            snippets,
        ) == Ok::<StatefulSetView, node_pod::Error>(set),
    ensures
        set.template.containers.len() == 1
            + rg.config.git_sync_resources.git_sync_containers.len() + (
        if rg.config.logging.vector_container.is_some() {
            1int
        } else {
            0
        }),
        set.template.init_containers.len()
            == rg.config.git_sync_resources.git_sync_init_containers.len() + 1,
        rg.config.logging.vector_container.is_some() ==> ({
            let vector = rg.config.logging.vector_container.unwrap();
            runs_log_agent(
                set.template,
                VectorSidecarView {
                    container_name: "vector"@,
                    image: cluster.image.image,
                    image_pull_policy: cluster.image.image_pull_policy,
                    aggregator_config_map_name: vector.vector_aggregator_config_map_name,
                    custom_log_config_map: match vector.log_config {
                        ValidatedContainerLogConfigChoiceView::Custom { config_map } => Some(
                            config_map,
                        ),
                        ValidatedContainerLogConfigChoiceView::Automatic { .. } => None,
                    },
                    log_config_volume: "config"@,
                    log_volume: "log"@,
                    resources: None,
                    extra_mounts: Seq::empty(),
                },
            )
        }),
{
    let pod = statefulset::node_pod(cluster, role_group, rg, service_account_name, snippets);
    if rg.config.logging.vector_container.is_some() {
        lemma_log_agent(pod);
    }
    let prepare = volumes::put_mounts(Seq::empty(), pod.prepare_mounts()).unwrap();
    let (user_prepare, others) = pod.with_user_mounts(prepare).unwrap();
    let mounts = node_pod::user_mounts(pod.extra_volumes);
    lemma_mounted_in_all(pod.sidecars(), mounts, 0);
    lemma_mounted_in_all(pod.git_sync.git_sync_init_containers, mounts, 0);
}

/// The log agent of the pods is among their containers.
pub proof fn lemma_log_agent(pod: NodePodView)
    requires
        pod.outcome().is_ok(),
        pod.vector.is_some(),
    ensures
        runs_log_agent(pod.outcome()->Ok_0, pod.vector.unwrap()),
{
    let prepare = volumes::put_mounts(Seq::empty(), pod.prepare_mounts()).unwrap();
    let (user_prepare, others) = pod.with_user_mounts(prepare).unwrap();
    let sidecars = pod.sidecars();
    let last = sidecars.len() - 1;
    lemma_mounted_in_all(sidecars, node_pod::user_mounts(pod.extra_volumes), last);
    assert(sidecars[last] == (PodContainerView::Vector { sidecar: pod.vector.unwrap() }));
    let template = pod.outcome()->Ok_0;
    assert(template.containers[last + 1] == others.sidecars[last]);
}

/// The address under which a node is reached by the others is that of its pod below the headless
/// Service of its role group, and its output is captured exactly where the log configuration of the
/// prepare container is automatic.
pub proof fn law_nodes_know_their_address(
    cluster: ValidatedClusterView,
    role_group: Seq<char>,
    rg: NifiRoleGroupConfigView,
    rolling_update_supported: bool,
    replicas: Option<i32>,
    service_account_name: Seq<char>,
    snippets: ShellSnippetsView,
    set: StatefulSetView,
) -> (commands: Seq<Seq<char>>)
    requires
        statefulset::stateful_set_outcome(
            cluster,
            role_group,
            rg,
            rolling_update_supported,
            replicas,
            service_account_name,
            snippets,
        ) == Ok::<StatefulSetView, node_pod::Error>(set),
    ensures
        pod_contents::prepare_container(set.template).args == seq![text::joined(commands, " && "@)],
        runs_before(
            commands,
            "export NODE_ADDRESS=\"$POD_NAME."@ + service::rolegroup_headless_service(
                cluster,
                role_group,
            ).metadata.name.unwrap() + "."@ + cluster.namespace + ".svc."@ + cluster.cluster_domain
                + "\""@,
            "config-utils template /stackable/nifi/conf/nifi.properties"@,
        ),
        rg.config.logging.prepare_container is Automatic ==> commands[0]
            == snippets.capture_prepare_output,
        commands.len() == 17
            + cluster.cluster_config.authentication.additional_container_args().len() + (
        if rg.config.logging.prepare_container is Automatic {
            1int
        } else {
            0
        }) + (if cluster.cluster_config.authorization.opa_tls() {
            2int
        } else {
            0
        }),
        cluster.cluster_config.authorization.opa_tls() ==> commands.contains(
            "keytool -importcert -file /stackable/opa_tls/ca.crt -keystore /stackable/server_tls/truststore.p12 -storepass secret -alias opa-ca -noprompt"@,
        ),
        forall|i: int|
            #![trigger cluster.cluster_config.authentication.additional_container_args()[i]]
            0 <= i < cluster.cluster_config.authentication.additional_container_args().len()
                ==> commands.contains(
                cluster.cluster_config.authentication.additional_container_args()[i],
            ),
{
    let pod = statefulset::node_pod(cluster, role_group, rg, service_account_name, snippets);
    law_references_are_resolved(pod, 0);
    law_configuration_is_prepared(pod);
    let commands = pod.prepare_commands();
    let login = pod.authentication.additional_container_args();
    assert forall|i: int|
        #![trigger cluster.cluster_config.authentication.additional_container_args()[i]]
        0 <= i < login.len() implies commands.contains(
        cluster.cluster_config.authentication.additional_container_args()[i],
    ) by {
        law_references_are_resolved(pod, i);
    }
    commands
}

} // verus!
