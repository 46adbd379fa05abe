//! Tests of texts, files and probes.

use nifi_operator::controller::build::jvm;
use nifi_operator::controller::build::properties::product_logging::vector_config_file_content;
use nifi_operator::controller::build::properties::state_management_xml::{
    build, KUBERNETES_STATE_PROVIDER_ID, ZOOKEEPER_STATE_PROVIDER_ID,
};
use nifi_operator::controller::build::properties::{
    env_reference, file_reference, format_properties,
};
use nifi_operator::controller::build::resource::node_pod::{
    STACKLET_NAME_ENV, ZOOKEEPER_CHROOT_ENV, ZOOKEEPER_HOSTS_ENV,
};
use nifi_operator::controller::build::resource::probes::{
    management_readiness_probe, management_startup_probe, tcp_liveness_probe,
};
use nifi_operator::controller::build::resource::volumes::{add_volume, volume_of_config_map};
use nifi_operator::controller::build::{MANAGEMENT_SERVER_ADDRESS, MANAGEMENT_SERVER_PORT};
use nifi_operator::crd::storage::NifiRepository;
use nifi_operator::crd::tls::{NifiTls, DEFAULT_SERVER_SECRET_CLASS};
use nifi_operator::crd::utils::PodRef;
use nifi_operator::crd::NifiClusteringBackend;
use nifi_operator::framework::json::text_as_json;
use nifi_operator::framework::pod_template::apply_pod_overrides;
use nifi_operator::framework::writer::{
    file_of_lines, to_java_properties_string, PropertiesWriterError,
};
use nifi_operator::ordered_map::{OrderedMap, StringMap};
use nifi_operator::ordered_set::sort_and_dedup;
use nifi_operator::text::{
    has_prefix, join, number_text, parse_u16, replace_in_lowercase, same_text, signed_number_text,
    text_less,
};

fn props(pairs: &[(&str, Option<&str>)]) -> String {
    let properties: Vec<(String, Option<String>)> =
        pairs.iter().map(|(k, v)| (k.to_string(), v.map(str::to_string))).collect();
    to_java_properties_string(&properties).unwrap()
}

#[test]
fn java_properties_renders_key_value() {
    assert_eq!(props(&[("a", Some("1")), ("b", Some("2"))]), "a=1\nb=2\n");
}

#[test]
fn java_properties_renders_none_as_empty() {
    assert_eq!(props(&[("none", None)]), "none=\n");
}

#[test]
fn java_properties_escapes_colon_in_value() {
    assert_eq!(
        props(&[("url", Some("file://this/location/file.abc"))]),
        "url=file\\://this/location/file.abc\n"
    );
}

#[test]
fn java_properties_escapes_separators_and_control_characters() {
    assert_eq!(props(&[("a b", Some("c=d"))]), "a\\ b=c\\=d\n");
    assert_eq!(props(&[("key", Some("x\ty\\z\u{1}"))]), "key=x\\ty\\\\z\\u1\n");
    assert_eq!(props(&[("#key", Some("!"))]), "\\#key=\\!\n");
    assert_eq!(props(&[]), "");
}

#[test]
fn java_properties_of_other_scripts() {
    let text = |value: &str| {
        to_java_properties_string(&vec![("key".to_owned(), Some(value.to_owned()))])
    };
    assert_eq!(text("\u{e4}"), Err(PropertiesWriterError::FromUtf8));
    assert_eq!(text("\u{20ac}"), Err(PropertiesWriterError::FromUtf8));
    assert_eq!(text("\u{4e2d}"), Ok("key=\\u4e2d\n".to_owned()));
    assert_eq!(text("\u{1f600}"), Ok("key=\\u1f600\n".to_owned()));
    assert_eq!(text("\u{80}\u{9f}"), Ok("key=\\u80\\u9f\n".to_owned()));
}

#[test]
fn java_properties_are_encoded_in_windows_1252() {
    // In UTF-8 the byte 0xC3 and one from 0x80 on are a character from U+00C0 on.
    let second: Vec<u32> = vec![
        0x20ac, 0x81, 0x201a, 0x192, 0x201e, 0x2026, 0x2020, 0x2021, 0x2c6, 0x2030, 0x160, 0x2039,
        0x152, 0x8d, 0x17d, 0x8f, 0x90, 0x2018, 0x2019, 0x201c, 0x201d, 0x2022, 0x2013, 0x2014,
        0x2dc, 0x2122, 0x161, 0x203a, 0x153, 0x9d, 0x17e, 0x178,
    ];
    for (at, code) in second.into_iter().chain(0xa0..=0xbf).enumerate() {
        let value: String = vec!['\u{c3}', char::from_u32(code).unwrap()].into_iter().collect();
        let read = char::from_u32(0xc0 + at as u32).unwrap();
        assert_eq!(props(&[("key", Some(&value))]), format!("key={read}\n"));
    }
    // A byte from 0xC2 to 0xDF and the byte 0x80 are a character, too.
    for lead in 0xc2..=0xdf_u32 {
        let value: String =
            vec![char::from_u32(lead).unwrap(), '\u{20ac}'].into_iter().collect();
        let read = char::from_u32((lead - 0xc0) * 64).unwrap();
        assert_eq!(props(&[("key", Some(&value))]), format!("key={read}\n"));
    }
}

#[test]
fn long_java_properties_are_written_whole() {
    let mapped = "\u{c3}\u{a4}".repeat(400);
    assert_eq!(
        props(&[(&mapped, Some(&mapped))]),
        format!("{0}={0}\n", "\u{e4}".repeat(400))
    );
    let escaped = "\u{4e2d}".repeat(42);
    assert_eq!(
        props(&[(&escaped, Some(&escaped))]),
        format!("{0}={0}\n", "\\u4e2d".repeat(42))
    );
    let ascii = "a ".repeat(1000);
    assert_eq!(props(&[("key", Some(&ascii))]), format!("key={}\n", "a\\ ".repeat(1000)));
}

#[test]
fn lines_are_joined_to_a_file() {
    let lines = vec![b"a=1\n".to_vec(), b"b=\xc3".to_vec(), b"\xa4\n".to_vec()];
    assert_eq!(file_of_lines(&lines), Ok("a=1\nb=\u{e4}\n".to_owned()));
    assert_eq!(file_of_lines(&vec![]), Ok(String::new()));
    assert_eq!(
        file_of_lines(&vec![b"a=\xe4\n".to_vec()]),
        Err(PropertiesWriterError::FromUtf8)
    );
}

#[test]
fn env_reference_uses_nifi_env_syntax() {
    assert_eq!(env_reference("NODE_ADDRESS"), "${env:NODE_ADDRESS}");
}

#[test]
fn file_reference_uses_nifi_utf8_file_syntax() {
    assert_eq!(
        file_reference("/stackable/sensitiveproperty/nifiSensitivePropsKey"),
        "${file:UTF-8:/stackable/sensitiveproperty/nifiSensitivePropsKey}"
    );
}

#[test]
fn properties_are_written_in_key_order() {
    let mut properties: StringMap = OrderedMap::new();
    properties.put("b", "2");
    properties.put("a", "1");
    properties.put("b", "3");
    assert_eq!(format_properties(&properties), "a=1\nb=3\n");
    assert_eq!(format_properties(&OrderedMap::new()), "");
}

#[test]
fn test_vector_config_file_content() {
    let content = vector_config_file_content();
    assert!(!content.is_empty());
    assert!(content.contains("files_log4j"));
    for variable in ["NAMESPACE", "CLUSTER_NAME", "ROLE_NAME", "ROLE_GROUP_NAME"] {
        assert!(content.contains(&format!("${{{variable}}}")), "{variable}");
    }
    assert!(content.contains("${VECTOR_AGGREGATOR_ADDRESS}"));
    assert!(content.contains("${VECTOR_FILE_LOG_LEVEL}"));
}

#[test]
fn test_build_state_management_xml_kubernetes() {
    let xml = build(&NifiClusteringBackend::Kubernetes);
    assert!(xml.contains(KUBERNETES_STATE_PROVIDER_ID));
    assert!(xml.contains("KubernetesConfigMapStateProvider"));
    assert!(xml.contains(&env_reference(STACKLET_NAME_ENV)));
    assert!(!xml.contains(ZOOKEEPER_STATE_PROVIDER_ID));
}

#[test]
fn test_build_state_management_xml_zookeeper() {
    let xml = build(&NifiClusteringBackend::ZooKeeper {
        zookeeper_config_map_name: "my-zk".to_owned(),
    });
    assert!(xml.contains(ZOOKEEPER_STATE_PROVIDER_ID));
    assert!(xml.contains("ZooKeeperStateProvider"));
    assert!(xml.contains(&env_reference(ZOOKEEPER_HOSTS_ENV)));
    assert!(xml.contains(&env_reference(ZOOKEEPER_CHROOT_ENV)));
    assert!(!xml.contains(KUBERNETES_STATE_PROVIDER_ID));
}

#[test]
fn state_management_xml_is_written_out() {
    assert_eq!(
        build(&NifiClusteringBackend::Kubernetes),
        r#"<?xml version="1.0" encoding="UTF-8" standalone="yes"?>
        <stateManagement>
          <local-provider>
            <id>local-provider</id>
            <class>org.apache.nifi.controller.state.providers.local.WriteAheadLocalStateProvider</class>
            <property name="Directory">/stackable/data/state</property>
            <property name="Always Sync">false</property>
            <property name="Partitions">16</property>
            <property name="Checkpoint Interval">2 mins</property>
          </local-provider>
          <cluster-provider>
              <id>kubernetes-provider</id>
              <class>org.apache.nifi.kubernetes.state.provider.KubernetesConfigMapStateProvider</class>
              <property name="ConfigMap Name Prefix">${env:STACKLET_NAME}</property>
            </cluster-provider>
        </stateManagement>"#
    );
}

#[test]
fn tls_test_constants() {
    assert_eq!(DEFAULT_SERVER_SECRET_CLASS, "tls");
    assert_eq!(NifiTls::default().server_secret_class, "tls");
}

#[test]
fn startup_probe_execs_curl_against_health_endpoint() {
    let probe = management_startup_probe();

    let command = probe.exec_action.expect("startup probe must be an exec probe").command;
    let script = command.last().expect("bash -c script argument");

    assert!(
        script.contains("http://127.0.0.1:52020/health") && !script.contains("/health/cluster"),
        "expected curl against /health, got: {script}"
    );
    assert_eq!(probe.failure_threshold, Some(120));
    assert_eq!(probe.timeout_seconds, Some(5));
    assert!(
        probe.tcp_socket.is_none(),
        "must not fall back to tcp_socket"
    );
}

#[test]
fn readiness_probe_execs_curl_against_cluster_health_endpoint() {
    let probe = management_readiness_probe();

    let command = probe.exec_action.expect("readiness probe must be an exec probe").command;
    let script = command.last().expect("bash -c script argument");

    let cluster_health_url =
        format!("http://{MANAGEMENT_SERVER_ADDRESS}:{MANAGEMENT_SERVER_PORT}/health/cluster");
    assert!(
        script.contains(&cluster_health_url),
        "expected curl against /health/cluster, got: {script}"
    );
    assert_eq!(probe.failure_threshold, Some(30));
    assert_eq!(probe.timeout_seconds, Some(5));
    assert_eq!(
        probe.initial_delay_seconds,
        Some(0),
        "readiness probe delay is redundant: k8s already suppresses readiness checks \
         until the startup probe succeeds"
    );
}

#[test]
fn readiness_probe_greps_body_for_connected_status() {
    let probe = management_readiness_probe();

    let command = probe.exec_action.expect("readiness probe must be an exec probe").command;
    let script = command.last().expect("bash -c script argument");

    assert!(
        script.contains("grep") && script.contains("Cluster Status: CONNECTED"),
        "expected the probe to grep the response body for \"Cluster Status: CONNECTED\", \
         got: {script}"
    );
    assert!(
        !script.contains("--output /dev/null"),
        "the response body must not be discarded, the probe needs to inspect it: {script}"
    );
}

#[test]
fn probes_use_bash_pipefail_wrapper_not_bare_curl_argv() {
    for probe in [management_startup_probe(), management_readiness_probe()] {
        let command = probe.exec_action.unwrap().command;
        assert_eq!(
            command[..4],
            [
                "/bin/bash".to_string(),
                "-euo".to_string(),
                "pipefail".to_string(),
                "-c".to_string(),
            ],
            "exec command must follow the repo's bash -euo pipefail -c convention"
        );
    }
}

#[test]
fn liveness_probe_checks_the_port() {
    let probe = tcp_liveness_probe();
    assert_eq!(probe.tcp_socket.unwrap().port, "https");
    assert!(probe.exec_action.is_none());
}

#[test]
fn jvm_arguments_need_memory() {
    assert_eq!(
        jvm::build_merged_jvm_config(&None, &Some("1m".to_owned())).unwrap_err(),
        jvm::Error::MissingMemoryResourceConfig
    );
    assert_eq!(
        jvm::build_merged_jvm_config(&Some("4Gi".to_owned()), &None).unwrap_err(),
        jvm::Error::InvalidMemoryConfig
    );
}

#[test]
fn repositories_have_a_name_and_a_directory() {
    assert_eq!(NifiRepository::Flowfile.repository(), "flowfile-repository");
    assert_eq!(NifiRepository::State.mount_path(), "/stackable/data/state");
    let mount = NifiRepository::Content.volume_mount();
    assert_eq!(mount.name, "content-repository");
    assert_eq!(mount.mount_path, "/stackable/data/content");
}

#[test]
fn pod_references_have_a_domain_name() {
    let mut pod = PodRef {
        namespace: "default".to_owned(),
        role_group_service_name: "nifi-node-default".to_owned(),
        pod_name: "nifi-node-default-0".to_owned(),
        fqdn_override: None,
        ports: OrderedMap::new(),
    };
    assert_eq!(
        pod.fqdn("cluster.local"),
        "nifi-node-default-0.nifi-node-default.default.svc.cluster.local"
    );
    pod.fqdn_override = Some("node.example.com".to_owned());
    assert_eq!(pod.fqdn("cluster.local"), "node.example.com");
}

#[test]
fn adding_the_same_volume_again_changes_nothing() {
    let mut volumes = vec![];
    assert!(add_volume(&mut volumes, volume_of_config_map("conf", "a")));
    assert!(add_volume(&mut volumes, volume_of_config_map("conf", "a")));
    assert!(!add_volume(&mut volumes, volume_of_config_map("conf", "b")));
    assert!(add_volume(&mut volumes, volume_of_config_map("other", "b")));
    assert_eq!(volumes.len(), 2);
}

#[test]
fn numbers_are_written_and_read() {
    assert_eq!(number_text(0), "0");
    assert_eq!(number_text(u64::MAX), "18446744073709551615");
    assert_eq!(signed_number_text(-70), "-70");
    assert_eq!(parse_u16("8443"), Some(8443));
    assert_eq!(parse_u16("+8443"), Some(8443));
    assert_eq!(parse_u16("0065535"), Some(65535));
    for text in ["65536", "", "+", "-1", " 1", "1a", "99999999999999999999"] {
        assert_eq!(parse_u16(text), text.parse::<u16>().ok(), "{text:?}");
        assert_eq!(parse_u16(text), None, "{text:?}");
    }
    for n in [0u16, 9, 10, 80, 8443, 65535] {
        assert_eq!(parse_u16(&number_text(n as u64)), Some(n));
    }
}

#[test]
fn texts_are_ordered_as_strings_are() {
    let texts = ["", "a", "ab", "b", "\u{e4}", "\u{10ffff}", "B"];
    for a in texts {
        for b in texts {
            assert_eq!(text_less(a, b), a < b);
            assert_eq!(same_text(a, b), a == b);
            assert_eq!(has_prefix(a, b), a.starts_with(b));
        }
    }
    let list: Vec<String> = ["b", "a", "b"].iter().map(|text| text.to_string()).collect();
    assert_eq!(sort_and_dedup(&list), ["a", "b"]);
    assert_eq!(join(&list, ", "), "b, a, b");
    assert_eq!(replace_in_lowercase("A.B", '.', '-'), "a-b");
}

#[test]
fn maps_keep_the_last_value_of_a_key() {
    let mut map: StringMap = OrderedMap::new();
    map.put("b", "1");
    map.put("a", "2");
    let mut more: StringMap = OrderedMap::new();
    more.put("b", "3");
    map.extend(&more);
    assert_eq!(map.len(), 2);
    assert_eq!(map.get("b"), Some(&"3".to_owned()));
    assert_eq!(map.entry(0), (&"a".to_owned(), &"2".to_owned()));
    assert!(!map.contains_key("c"));
}

#[test]
fn texts_are_quoted_as_json() {
    assert_eq!(text_as_json("Keycloak"), "\"Keycloak\"");
    assert_eq!(text_as_json("a\"b\\c\n"), "\"a\\\"b\\\\c\\n\"");
    assert_eq!(text_as_json(""), "\"\"");
    assert_eq!(
        text_as_json("\u{0}\u{8}\u{c}\r\t\u{1f}\u{7f}\u{e9}/"),
        "\"\\u0000\\b\\f\\r\\t\\u001f\u{7f}\u{e9}/\""
    );
}

#[test]
fn pod_overrides_are_merged_one_after_the_other() {
    let template = "{\"spec\":{\"containers\":[{\"name\":\"nifi\",\"image\":\"nifi:2\"}],\
                    \"serviceAccountName\":\"account\"}}";
    let overrides = |texts: &[&str]| -> Vec<String> {
        texts.iter().map(|text| (*text).to_owned()).collect()
    };
    assert_eq!(apply_pod_overrides(template, &vec![]), Some(template.to_owned()));
    let merged = apply_pod_overrides(
        template,
        &overrides(&[
            "{\"spec\":{\"containers\":[{\"name\":\"nifi\",\"image\":\"nifi:3\"}]}}",
            "{\"spec\":{\"containers\":[{\"name\":\"nifi\",\"image\":\"nifi:4\"}]}}",
        ]),
    );
    assert_eq!(
        merged,
        Some(
            "{\"spec\":{\"containers\":[{\"image\":\"nifi:4\",\"name\":\"nifi\"}],\
             \"serviceAccountName\":\"account\"}}"
                .to_owned()
        )
    );
    assert_eq!(apply_pod_overrides(template, &overrides(&["{}", "no json"])), None);
    assert_eq!(apply_pod_overrides("[]", &overrides(&["{}"])), None);
}

#[test]
fn written_properties_are_read_back() {
    let entries = [
        ("plain", Some("value")),
        ("# key: with = signs!", Some(" = leading, \\ and trailing ")),
        ("", Some("value of the empty key")),
        ("empty", None),
        ("escapes", Some("\\n \\u0041 :")),
    ];
    let file = props(&entries);
    assert_eq!(file.lines().count(), entries.len());
    let read = java_properties::read(file.as_bytes()).unwrap();
    assert_eq!(read.len(), entries.len());
    for (key, value) in entries {
        assert_eq!(read.get(key).map(String::as_str), Some(value.unwrap_or_default()));
    }
}
