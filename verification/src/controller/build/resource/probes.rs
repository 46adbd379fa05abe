//! The health checks of the NiFi container.
//!
//! NiFi's management server answers on the loopback address only, so its health is asked for by a
//! command inside the container.

use crate::controller::build::{MANAGEMENT_SERVER_ADDRESS, MANAGEMENT_SERVER_PORT};
use crate::crd::HTTPS_PORT_NAME;
use crate::kubernetes::{
    ExecAction, ExecActionView, Probe, ProbeView, TcpSocketAction, TcpSocketActionView,
};
use crate::list::{add_item, add_text, empty_list};
use crate::text;
use crate::text::number_text;
use vstd::prelude::*;

verus! {

/// A script in a shell that fails with the first command that fails.
pub open spec fn bash_command(script: Seq<char>) -> Seq<Seq<char>> {
    seq!["/bin/bash"@, "-euo"@, "pipefail"@, "-c"@, script]
}

/// The script that asks the management server whether NiFi runs.
pub open spec fn health_script() -> Seq<char> {
    "curl --fail --silent --show-error --output /dev/null http://"@ + MANAGEMENT_SERVER_ADDRESS@
        + ":"@ + text::decimal(MANAGEMENT_SERVER_PORT as nat) + "/health"@
}

/// The script that asks the management server whether the node is connected to its cluster. The
/// server answers in the same way for a node that is still connecting, so its words count.
pub open spec fn cluster_health_script() -> Seq<char> {
    "curl --fail --silent --show-error http://"@ + MANAGEMENT_SERVER_ADDRESS@ + ":"@
        + text::decimal(MANAGEMENT_SERVER_PORT as nat)
        + "/health/cluster | grep -q 'Cluster Status: CONNECTED'"@
}

/// A script in a shell that fails with the first command that fails.
fn in_bash(script: String) -> (command: Vec<String>)
    ensures
        command.deep_view() == bash_command(script@),
{
    let mut command: Vec<String> = empty_list();
    add_text(&mut command, "/bin/bash");
    add_text(&mut command, "-euo");
    add_text(&mut command, "pipefail");
    add_text(&mut command, "-c");
    add_item(&mut command, script);
    command
}

/// The command that asks the management server whether NiFi runs.
pub fn management_health_exec_command() -> (command: Vec<String>)
    ensures
        command.deep_view() == bash_command(health_script()),
{
    let port = number_text(MANAGEMENT_SERVER_PORT as u64);
    in_bash(
        "curl --fail --silent --show-error --output /dev/null http://".to_owned().concat(
            MANAGEMENT_SERVER_ADDRESS,
        ).concat(":").concat(port.as_str()).concat("/health"),
    )
}

/// The command that asks the management server whether the node is connected to its cluster.
pub fn management_cluster_connected_exec_command() -> (command: Vec<String>)
    ensures
        command.deep_view() == bash_command(cluster_health_script()),
{
    let port = number_text(MANAGEMENT_SERVER_PORT as u64);
    in_bash(
        "curl --fail --silent --show-error http://".to_owned().concat(
            MANAGEMENT_SERVER_ADDRESS,
        ).concat(":").concat(port.as_str()).concat(
            "/health/cluster | grep -q 'Cluster Status: CONNECTED'",
        ),
    )
}

/// How often a check that runs every so many seconds may fail before the given time is over: the
/// time divided by the period, rounded up.
pub open spec fn failures_within(total_seconds: int, period_seconds: int) -> int {
    (total_seconds + period_seconds - 1) / period_seconds
}

/// How often a check may fail before the given time is over.
fn failure_threshold(total_seconds: i32, period_seconds: i32) -> (failures: i32)
    requires
        0 < period_seconds <= 3600,
        0 <= total_seconds <= 86400,
    ensures
        failures == failures_within(total_seconds as int, period_seconds as int),
{
    (total_seconds + period_seconds - 1) / period_seconds
}

/// The start fails after about twenty minutes: NiFi unpacks its bundles, and replays the FlowFile
/// repository, which takes long after an unclean shutdown.
pub open spec fn startup_probe() -> ProbeView {
    ProbeView {
        exec_action: Some(ExecActionView { command: bash_command(health_script()) }),
        tcp_socket: None,
        initial_delay_seconds: Some(10),
        period_seconds: Some(10),
        timeout_seconds: Some(5),
        success_threshold: Some(1),
        failure_threshold: Some(failures_within(1200, 10) as i32),
    }
}

/// A node stops being ready after about five minutes: connecting takes an election of the flow.
pub open spec fn readiness_probe() -> ProbeView {
    ProbeView {
        exec_action: Some(ExecActionView { command: bash_command(cluster_health_script()) }),
        tcp_socket: None,
        initial_delay_seconds: Some(0),
        period_seconds: Some(10),
        timeout_seconds: Some(5),
        success_threshold: Some(1),
        failure_threshold: Some(failures_within(300, 10) as i32),
    }
}

/// A node is restarted when its port does not answer.
pub open spec fn liveness_probe() -> ProbeView {
    ProbeView {
        exec_action: None,
        tcp_socket: Some(TcpSocketActionView { port: HTTPS_PORT_NAME@ }),
        initial_delay_seconds: Some(0),
        period_seconds: Some(10),
        timeout_seconds: Some(1),
        success_threshold: Some(1),
        failure_threshold: Some(1),
    }
}

/// The check that NiFi has started.
pub fn management_startup_probe() -> (probe: Probe)
    ensures
        probe.deep_view() == startup_probe(),
{
    let threshold: i32 = failure_threshold(1200, 10);
    Probe {
        exec_action: Some(ExecAction { command: management_health_exec_command() }),
        tcp_socket: None,
        initial_delay_seconds: Some(10),
        period_seconds: Some(10),
        timeout_seconds: Some(5),
        success_threshold: Some(1),
        failure_threshold: Some(threshold),
    }
}

/// The check that a node takes part in its cluster. Kubernetes waits for the start first, so it
/// needs no delay.
pub fn management_readiness_probe() -> (probe: Probe)
    ensures
        probe.deep_view() == readiness_probe(),
{
    let threshold: i32 = failure_threshold(300, 10);
    Probe {
        exec_action: Some(
            ExecAction { command: management_cluster_connected_exec_command() },
        ),
        tcp_socket: None,
        initial_delay_seconds: Some(0),
        period_seconds: Some(10),
        timeout_seconds: Some(5),
        success_threshold: Some(1),
        failure_threshold: Some(threshold),
    }
}

/// The check that a node still answers.
pub fn tcp_liveness_probe() -> (probe: Probe)
    ensures
        probe.deep_view() == liveness_probe(),
{
    Probe {
        exec_action: None,
        tcp_socket: Some(TcpSocketAction { port: HTTPS_PORT_NAME.to_owned() }),
        initial_delay_seconds: Some(0),
        period_seconds: Some(10),
        timeout_seconds: Some(1),
        success_threshold: Some(1),
        failure_threshold: Some(1),
    }
}

/// The scripts ask the management server, which answers inside the container only.
proof fn lemma_scripts()
    ensures
        health_script()
            == "curl --fail --silent --show-error --output /dev/null http://127.0.0.1:52020/health"@,
        cluster_health_script()
            == "curl --fail --silent --show-error http://127.0.0.1:52020/health/cluster | grep -q 'Cluster Status: CONNECTED'"@,
{
    reveal_with_fuel(text::decimal, 6);
    reveal_strlit("52020");
    assert(text::decimal(52020) =~= "52020"@);
    reveal_strlit("127.0.0.1");
    reveal_strlit(":");
    reveal_strlit("/health");
    reveal_strlit("curl --fail --silent --show-error --output /dev/null http://");
    reveal_strlit("curl --fail --silent --show-error http://");
    reveal_strlit("/health/cluster | grep -q 'Cluster Status: CONNECTED'");
    reveal_strlit(
        "curl --fail --silent --show-error --output /dev/null http://127.0.0.1:52020/health",
    );
    reveal_strlit(
        "curl --fail --silent --show-error http://127.0.0.1:52020/health/cluster | grep -q 'Cluster Status: CONNECTED'",
    );
    assert(health_script()
        =~= "curl --fail --silent --show-error --output /dev/null http://127.0.0.1:52020/health"@);
    assert(cluster_health_script()
        =~= "curl --fail --silent --show-error http://127.0.0.1:52020/health/cluster | grep -q 'Cluster Status: CONNECTED'"@);
}

/// A check that is asked for in a shell that fails with the first failing command.
pub open spec fn is_asked_in_bash(probe: ProbeView, script: Seq<char>) -> bool {
    &&& probe.exec_action.is_some() && probe.tcp_socket.is_none()
    &&& probe.exec_action.unwrap().command == seq![
        "/bin/bash"@,
        "-euo"@,
        "pipefail"@,
        "-c"@,
        script,
    ]
}

/// A node may take twenty minutes to start and five to lose its cluster, but has to answer at its
/// port. It starts when the management server is healthy, is ready when that server says that the
/// node is connected, and lives while the port of the user interface answers.
pub proof fn law_nodes_have_time_to_start()
    ensures
        is_asked_in_bash(
            startup_probe(),
            "curl --fail --silent --show-error --output /dev/null http://127.0.0.1:52020/health"@,
        ),
        is_asked_in_bash(
            readiness_probe(),
            "curl --fail --silent --show-error http://127.0.0.1:52020/health/cluster | grep -q 'Cluster Status: CONNECTED'"@,
        ),
        liveness_probe().exec_action.is_none() && liveness_probe().tcp_socket.is_some(),
        liveness_probe().tcp_socket.unwrap().port == "https"@,
        startup_probe().period_seconds.unwrap() * startup_probe().failure_threshold.unwrap()
            == 20 * 60,
        readiness_probe().period_seconds.unwrap() * readiness_probe().failure_threshold.unwrap()
            == 5 * 60,
        liveness_probe().failure_threshold == Some(1i32) && liveness_probe().period_seconds == Some(
            10i32,
        ),
        startup_probe().initial_delay_seconds == Some(10i32),
        readiness_probe().initial_delay_seconds == Some(0i32),
        liveness_probe().initial_delay_seconds == Some(0i32),
{
    lemma_scripts();
}

/// A check that runs every so many seconds may fail just often enough for the time to be over: once
/// less would be too early.
pub proof fn law_failures_fill_the_time(total_seconds: int, period_seconds: int)
    requires
        0 < period_seconds,
        0 <= total_seconds,
    ensures
        failures_within(total_seconds, period_seconds) * period_seconds >= total_seconds,
        total_seconds > 0 ==> (failures_within(total_seconds, period_seconds) - 1) * period_seconds
            < total_seconds,
{
    let failures = failures_within(total_seconds, period_seconds);
    assert(failures * period_seconds >= total_seconds && (failures - 1) * period_seconds
        < total_seconds) by (nonlinear_arith)
        requires
            0 < period_seconds,
            0 <= total_seconds,
            failures == (total_seconds + period_seconds - 1) / period_seconds,
    ;
}

} // verus!
